use vstd::prelude::*;
use vstd::slice::{slice_subrange, slice_to_vec};
use crate::text::{
    find_byte, index_of, lemma_index_of, lemma_index_of_at, line_len, parse_decimal,
    parse_decimal_range,
};

verus! {

/// Why a message could not be cut out of the byte stream.
#[derive(Debug, Clone, Copy, PartialEq, Eq, Structural)]
pub enum FramingErrorKind {
    /// A header line that is not blank holds no `:`.
    MissingSeparator,
    /// The value of a `Content-Length` field is not a decimal number that
    /// fits a `usize`.
    InvalidContentLength,
    /// The header block ended without a `Content-Length` field.
    MissingContentLength,
    /// The stream ended before the declared number of body bytes.
    UnexpectedEof,
}

/// A framing failure, with the number of bytes that had been taken from the
/// stream when it was detected.
#[derive(Debug, Clone, Copy, PartialEq, Eq, Structural)]
pub struct FramingError {
    pub kind: FramingErrorKind,
    pub consumed: usize,
}

/// One message body, with the number of bytes (header and body) that it
/// occupied at the front of the stream.
#[derive(Debug, Clone, PartialEq, Eq)]
pub struct Frame {
    pub body: Vec<u8>,
    pub consumed: usize,
}

/// What a single header line means to the framing layer.
#[derive(Debug, Clone, Copy, PartialEq, Eq, Structural)]
pub enum HeaderLine {
    /// Only white space: the header block ends here.
    Blank,
    /// A `Content-Length` field with its value.
    ContentLength(usize),
    /// Any other `key: value` field; it is skipped.
    Other,
}

/// ASCII white space: space, tab, line feed, vertical tab, form feed,
/// carriage return.
pub open spec fn is_space(b: u8) -> bool {
    b == 32 || 9 <= b <= 13
}

/// Lower-case form of an ASCII letter; every other byte is left alone.
pub open spec fn to_lower(b: u8) -> u8 {
    if 65 <= b <= 90 {
        (b + 32) as u8
    } else {
        b
    }
}

/// Whether a line holds nothing but white space.
pub open spec fn is_blank(line: Seq<u8>) -> bool {
    forall|i: int| 0 <= i < line.len() ==> is_space(#[trigger] line[i])
}

/// `s` without its leading white space.
pub open spec fn trim_start(s: Seq<u8>) -> Seq<u8>
    decreases s.len(),
{
    if s.len() > 0 && is_space(s[0]) {
        trim_start(s.drop_first())
    } else {
        s
    }
}

/// `s` without its trailing white space.
pub open spec fn trim_end(s: Seq<u8>) -> Seq<u8>
    decreases s.len(),
{
    if s.len() > 0 && is_space(s.last()) {
        trim_end(s.drop_last())
    } else {
        s
    }
}

/// `s` without its leading and trailing white space.
pub open spec fn trim(s: Seq<u8>) -> Seq<u8> {
    trim_end(trim_start(s))
}

/// The bytes of `content-length`.
pub open spec fn content_length_name() -> Seq<u8> {
    seq![99u8, 111u8, 110u8, 116u8, 101u8, 110u8, 116u8, 45u8, 108u8, 101u8, 110u8, 103u8, 116u8, 104u8]
}

/// Whether a header key, trimmed and compared without regard to ASCII case,
/// is `Content-Length`.
pub open spec fn is_content_length(key: Seq<u8>) -> bool {
    let t = trim(key);
    &&& t.len() == content_length_name().len()
    &&& forall|i: int| 0 <= i < t.len() ==> to_lower(#[trigger] t[i]) == content_length_name()[i]
}

/// Meaning of one header line (with or without its line ending).
pub open spec fn header_line(line: Seq<u8>) -> Result<HeaderLine, FramingErrorKind> {
    let colon = index_of(line, 58u8) as int;
    if is_blank(line) {
        Ok(HeaderLine::Blank)
    } else if colon >= line.len() {
        Err(FramingErrorKind::MissingSeparator)
    } else if is_content_length(line.subrange(0, colon)) {
        match parse_decimal(trim(line.subrange(colon + 1, line.len() as int))) {
            Some(n) => Ok(HeaderLine::ContentLength(n)),
            None => Err(FramingErrorKind::InvalidContentLength),
        }
    } else {
        Ok(HeaderLine::Other)
    }
}

/// Result of reading a header block on success: the declared body length and
/// the position just behind the block.
pub struct HeaderEnd {
    pub content_length: usize,
    pub end: int,
}

/// How a header block that ends at `end` is concluded, given the last
/// `Content-Length` seen in it.
pub open spec fn conclude(seen: Option<usize>, end: int) -> Result<HeaderEnd, (FramingErrorKind, int)> {
    match seen {
        Some(n) => Ok(HeaderEnd { content_length: n, end }),
        None => Err((FramingErrorKind::MissingContentLength, end)),
    }
}

/// Reads header lines of `input` from `pos` on, `seen` being the last
/// `Content-Length` read so far. Lines are taken one by one up to the first
/// blank one; the end of `input` counts as a blank line. A later
/// `Content-Length` replaces an earlier one. An error carries the position
/// behind the line that caused it.
pub open spec fn header_from(input: Seq<u8>, pos: int, seen: Option<usize>) -> Result<
    HeaderEnd,
    (FramingErrorKind, int),
>
    decreases input.len() - pos,
{
    if pos < 0 || pos >= input.len() {
        conclude(seen, input.len() as int)
    } else {
        let end = pos + line_len(input.skip(pos));
        match header_line(input.subrange(pos, end)) {
            Ok(HeaderLine::Blank) => conclude(seen, end),
            Ok(HeaderLine::ContentLength(n)) => header_from(input, end, Some(n)),
            Ok(HeaderLine::Other) => header_from(input, end, seen),
            Err(kind) => Err((kind, end)),
        }
    }
}

/// The header block at the front of `input`.
pub open spec fn header(input: Seq<u8>) -> Result<HeaderEnd, (FramingErrorKind, int)> {
    header_from(input, 0, None)
}

/// The first message of `input`: its body and the number of bytes it takes
/// up, or the failure and the number of bytes read when it was found.
pub open spec fn framed(input: Seq<u8>) -> Result<(Seq<u8>, int), (FramingErrorKind, int)> {
    match header(input) {
        Ok(h) => if h.end + h.content_length <= input.len() {
            Ok((input.subrange(h.end, h.end + h.content_length), h.end + h.content_length))
        } else {
            Err((FramingErrorKind::UnexpectedEof, input.len() as int))
        },
        Err(e) => Err(e),
    }
}

fn is_space_byte(b: u8) -> (r: bool)
    ensures
        r == is_space(b),
{
    b == 32 || (9 <= b && b <= 13)
}

fn lower_byte(b: u8) -> (r: u8)
    ensures
        r == to_lower(b),
{
    if 65 <= b && b <= 90 {
        b + 32
    } else {
        b
    }
}

fn is_blank_range(input: &[u8], from: usize, to: usize) -> (r: bool)
    requires
        from <= to <= input@.len(),
    ensures
        r == is_blank(input@.subrange(from as int, to as int)),
{
    let ghost line = input@.subrange(from as int, to as int);
    let mut i: usize = from;
    while i < to
        invariant
            from <= i <= to <= input@.len(),
            line == input@.subrange(from as int, to as int),
            forall|j: int| 0 <= j < i - from ==> is_space(#[trigger] line[j]),
        decreases to - i,
    {
        if !is_space_byte(input[i]) {
            assert(!is_space(line[i - from]));
            return false;
        }
        i += 1;
    }
    true
}

fn trim_range(input: &[u8], from: usize, to: usize) -> (r: (usize, usize))
    requires
        from <= to <= input@.len(),
    ensures
        from <= r.0 <= r.1 <= to,
        input@.subrange(r.0 as int, r.1 as int) == trim(input@.subrange(from as int, to as int)),
{
    let mut lo: usize = from;
    while lo < to && is_space_byte(input[lo])
        invariant
            from <= lo <= to <= input@.len(),
            trim_start(input@.subrange(from as int, to as int)) == trim_start(
                input@.subrange(lo as int, to as int),
            ),
        decreases to - lo,
    {
        assert(input@.subrange(lo as int, to as int).drop_first() =~= input@.subrange(
            lo + 1,
            to as int,
        ));
        lo += 1;
    }
    let mut hi: usize = to;
    while hi > lo && is_space_byte(input[hi - 1])
        invariant
            lo <= hi <= to <= input@.len(),
            trim_end(input@.subrange(lo as int, to as int)) == trim_end(
                input@.subrange(lo as int, hi as int),
            ),
        decreases hi - lo,
    {
        assert(input@.subrange(lo as int, hi as int).drop_last() =~= input@.subrange(
            lo as int,
            hi - 1,
        ));
        hi -= 1;
    }
    (lo, hi)
}

fn is_content_length_range(input: &[u8], from: usize, to: usize) -> (r: bool)
    requires
        from <= to <= input@.len(),
    ensures
        r == is_content_length(input@.subrange(from as int, to as int)),
{
    let name: [u8; 14] = [99, 111, 110, 116, 101, 110, 116, 45, 108, 101, 110, 103, 116, 104];
    let (lo, hi) = trim_range(input, from, to);
    let ghost t = input@.subrange(lo as int, hi as int);
    if hi - lo != 14 {
        return false;
    }
    let mut i: usize = 0;
    while i < 14
        invariant
            i <= 14,
            lo + 14 == hi <= input@.len(),
            t == input@.subrange(lo as int, hi as int),
            t == trim(input@.subrange(from as int, to as int)),
            name@ == content_length_name(),
            forall|j: int| 0 <= j < i ==> to_lower(#[trigger] t[j]) == content_length_name()[j],
        decreases 14 - i,
    {
        if lower_byte(input[lo + i]) != name[i] {
            assert(to_lower(t[i as int]) != content_length_name()[i as int]);
            return false;
        }
        i += 1;
    }
    true
}

/// Reads one header line, given with or without its line ending.
pub fn parse_header_line(line: &[u8]) -> (r: Result<HeaderLine, FramingErrorKind>)
    ensures
        r == header_line(line@),
{
    let n = line.len();
    assert(line@.subrange(0, n as int) =~= line@);
    if is_blank_range(line, 0, n) {
        return Ok(HeaderLine::Blank);
    }
    let colon = find_byte(line, 0, n, 58);
    if colon >= n {
        return Err(FramingErrorKind::MissingSeparator);
    }
    if is_content_length_range(line, 0, colon) {
        let (lo, hi) = trim_range(line, colon + 1, n);
        match parse_decimal_range(line, lo, hi) {
            Some(v) => Ok(HeaderLine::ContentLength(v)),
            None => Err(FramingErrorKind::InvalidContentLength),
        }
    } else {
        Ok(HeaderLine::Other)
    }
}

/// Reads the header block at the front of `input` and returns the declared
/// body length with the number of bytes that the block takes up.
pub fn parse_header(input: &[u8]) -> (r: Result<(usize, usize), FramingError>)
    ensures
        match header(input@) {
            Ok(h) => 0 <= h.end <= input@.len() && r == Ok::<(usize, usize), FramingError>(
                (h.content_length, h.end as usize),
            ),
            Err((kind, at)) => 0 <= at <= input@.len() && r == Err::<(usize, usize), FramingError>(
                FramingError { kind, consumed: at as usize },
            ),
        },
{
    let n = input.len();
    let mut pos: usize = 0;
    let mut seen: Option<usize> = None;
    while pos < n
        invariant
            pos <= n == input@.len(),
            header(input@) == header_from(input@, pos as int, seen),
        decreases n - pos,
    {
        let nl = find_byte(input, pos, n, 10);
        let end: usize = if nl < n {
            nl + 1
        } else {
            n
        };
        let line = slice_subrange(input, pos, end);
        match parse_header_line(line) {
            Ok(HeaderLine::Blank) => {
                return match seen {
                    Some(len) => Ok((len, end)),
                    None => Err(
                        FramingError { kind: FramingErrorKind::MissingContentLength, consumed: end },
                    ),
                };
            },
            Ok(HeaderLine::ContentLength(len)) => {
                seen = Some(len);
            },
            Ok(HeaderLine::Other) => {},
            Err(kind) => {
                return Err(FramingError { kind, consumed: end });
            },
        }
        pos = end;
    }
    match seen {
        Some(len) => Ok((len, n)),
        None => Err(FramingError { kind: FramingErrorKind::MissingContentLength, consumed: n }),
    }
}

/// Cuts the first message out of `input`: reads the header block, then takes
/// exactly the declared number of bytes as the body, whatever they hold.
pub fn read_body(input: &[u8]) -> (r: Result<Frame, FramingError>)
    ensures
        match framed(input@) {
            Ok((body, consumed)) => r is Ok && r->Ok_0.body@ == body && r->Ok_0.consumed
                == consumed,
            Err((kind, at)) => r == Err::<Frame, FramingError>(
                FramingError { kind, consumed: at as usize },
            ),
        },
{
    match parse_header(input) {
        Ok((content_length, end)) => {
            if content_length <= input.len() - end {
                let body = slice_to_vec(slice_subrange(input, end, end + content_length));
                Ok(Frame { body, consumed: end + content_length })
            } else {
                Err(FramingError { kind: FramingErrorKind::UnexpectedEof, consumed: input.len() })
            }
        },
        Err(e) => Err(e),
    }
}

/// Reads a header block line by line, for a caller that takes the lines from
/// a stream itself. It remembers the last `Content-Length` it was given.
#[derive(Debug, Clone, Copy, PartialEq, Eq, Structural)]
pub struct HeaderReader {
    pub seen: Option<usize>,
}

impl HeaderReader {
    pub fn new() -> (r: Self)
        ensures
            r.seen is None,
    {
        HeaderReader { seen: None }
    }

    /// What feeding `line` leads to: `Ok(None)` to go on with the next line,
    /// `Ok(Some(n))` when the block is complete and `n` body bytes follow.
    pub open spec fn step(self, line: Seq<u8>) -> (Self, Result<Option<usize>, FramingErrorKind>) {
        match header_line(line) {
            Ok(HeaderLine::Blank) => match self.seen {
                Some(n) => (self, Ok(Some(n))),
                None => (self, Err(FramingErrorKind::MissingContentLength)),
            },
            Ok(HeaderLine::ContentLength(n)) => (HeaderReader { seen: Some(n) }, Ok(None)),
            Ok(HeaderLine::Other) => (self, Ok(None)),
            Err(kind) => (self, Err(kind)),
        }
    }

    /// Takes the next line of the header block. A line read at the end of the
    /// stream is empty and therefore blank.
    pub fn feed(&mut self, line: &[u8]) -> (r: Result<Option<usize>, FramingErrorKind>)
        ensures
            (*final(self), r) == old(self).step(line@),
    {
        match parse_header_line(line) {
            Ok(HeaderLine::Blank) => match self.seen {
                Some(n) => Ok(Some(n)),
                None => Err(FramingErrorKind::MissingContentLength),
            },
            Ok(HeaderLine::ContentLength(n)) => {
                self.seen = Some(n);
                Ok(None)
            },
            Ok(HeaderLine::Other) => Ok(None),
            Err(kind) => Err(kind),
        }
    }
}

/// A line as it stands inside a stream: it ends with a line feed and holds
/// no other.
pub open spec fn is_terminated_line(line: Seq<u8>) -> bool {
    line.len() > 0 && index_of(line, 10u8) == line.len() - 1
}

/// Field lines of a header block: each terminated, well-formed and not blank.
pub open spec fn are_field_lines(lines: Seq<Seq<u8>>) -> bool {
    forall|i: int|
        0 <= i < lines.len() ==> {
            &&& is_terminated_line(#[trigger] lines[i])
            &&& header_line(lines[i]) is Ok
            &&& header_line(lines[i]) != Ok::<HeaderLine, FramingErrorKind>(HeaderLine::Blank)
        }
}

/// The bytes of `lines`, one line after the other.
pub open spec fn join_lines(lines: Seq<Seq<u8>>) -> Seq<u8>
    decreases lines.len(),
{
    if lines.len() == 0 {
        Seq::empty()
    } else {
        lines[0] + join_lines(lines.drop_first())
    }
}

/// The `Content-Length` in force behind the field lines `lines`, where `seen`
/// was in force before them: the value of the last such field.
pub open spec fn declared_length(lines: Seq<Seq<u8>>, seen: Option<usize>) -> Option<usize>
    decreases lines.len(),
{
    if lines.len() == 0 {
        seen
    } else {
        declared_length(
            lines.drop_first(),
            match header_line(lines[0]) {
                Ok(HeaderLine::ContentLength(n)) => Some(n),
                _ => seen,
            },
        )
    }
}

proof fn lemma_first_line(line: Seq<u8>, tail: Seq<u8>)
    requires
        is_terminated_line(line),
    ensures
        line_len(line + tail) == line.len(),
{
    lemma_index_of(line, 10u8);
    lemma_index_of_at(line + tail, 10u8, line.len() - 1);
}

proof fn lemma_header_over_lines(
    before: Seq<u8>,
    fields: Seq<Seq<u8>>,
    blank: Seq<u8>,
    after: Seq<u8>,
    seen: Option<usize>,
)
    requires
        are_field_lines(fields),
        is_terminated_line(blank),
        is_blank(blank),
    ensures
        header_from(before + join_lines(fields) + blank + after, before.len() as int, seen)
            == conclude(
            declared_length(fields, seen),
            (before.len() + join_lines(fields).len() + blank.len()) as int,
        ),
    decreases fields.len(),
{
    let input = before + join_lines(fields) + blank + after;
    let pos = before.len() as int;
    if fields.len() == 0 {
        assert(input.skip(pos) =~= blank + after);
        lemma_first_line(blank, after);
    } else {
        let line = fields[0];
        let others = fields.drop_first();
        let tail = join_lines(others) + blank + after;
        assert(input.skip(pos) =~= line + tail);
        lemma_first_line(line, tail);
        assert(input.subrange(pos, pos + line.len()) =~= line);
        let next = match header_line(line) {
            Ok(HeaderLine::ContentLength(n)) => Some(n),
            _ => seen,
        };
        assert forall|i: int| 0 <= i < others.len() implies {
            &&& is_terminated_line(#[trigger] others[i])
            &&& header_line(others[i]) is Ok
            &&& header_line(others[i]) != Ok::<HeaderLine, FramingErrorKind>(HeaderLine::Blank)
        } by {}
        lemma_header_over_lines(before + line, others, blank, after, next);
        assert(before + line + join_lines(others) + blank + after =~= input);
    }
}

/// Framing gives back the body of every well-formed message, byte for byte
/// and whatever the body holds: after field lines, of which the last
/// `Content-Length` declares the length of `body`, and a blank line, the
/// message read is `body`, and what follows it in the stream is left alone.
pub proof fn lemma_framing_recovers_body(
    fields: Seq<Seq<u8>>,
    blank: Seq<u8>,
    body: Seq<u8>,
    rest: Seq<u8>,
)
    requires
        are_field_lines(fields),
        is_terminated_line(blank),
        is_blank(blank),
        declared_length(fields, None) == Some(body.len() as usize),
        body.len() <= usize::MAX,
    ensures
        framed(join_lines(fields) + blank + body + rest) == Ok::<
            (Seq<u8>, int),
            (FramingErrorKind, int),
        >((body, (join_lines(fields).len() + blank.len() + body.len()) as int)),
{
    let head = join_lines(fields) + blank;
    let input = head + body + rest;
    lemma_header_over_lines(Seq::empty(), fields, blank, body + rest, None);
    assert(Seq::<u8>::empty() + join_lines(fields) + blank + (body + rest) =~= input);
    assert(input.subrange(head.len() as int, (head.len() + body.len()) as int) =~= body);
}

/// A header block without a `Content-Length` field makes framing fail, and
/// nothing behind the block has been taken from the stream by then.
pub proof fn lemma_missing_content_length(fields: Seq<Seq<u8>>, blank: Seq<u8>, rest: Seq<u8>)
    requires
        are_field_lines(fields),
        is_terminated_line(blank),
        is_blank(blank),
        declared_length(fields, None) is None,
    ensures
        framed(join_lines(fields) + blank + rest) == Err::<(Seq<u8>, int), (FramingErrorKind, int)>(
            (FramingErrorKind::MissingContentLength, (join_lines(fields).len() + blank.len()) as int),
        ),
{
    lemma_header_over_lines(Seq::empty(), fields, blank, rest, None);
    assert(Seq::<u8>::empty() + join_lines(fields) + blank + rest =~= join_lines(fields) + blank
        + rest);
}

/// What a reader that has seen `seen` comes to when it is fed `lines` one
/// after the other, up to the first line that ends the block or fails:
/// `Ok(None)` if it wants more after all of them.
pub open spec fn fed(seen: Option<usize>, lines: Seq<Seq<u8>>) -> Result<
    Option<usize>,
    FramingErrorKind,
>
    decreases lines.len(),
{
    if lines.len() == 0 {
        Ok(None)
    } else {
        let (next, outcome) = (HeaderReader { seen }).step(lines[0]);
        if outcome == Ok::<Option<usize>, FramingErrorKind>(None) {
            fed(next.seen, lines.drop_first())
        } else {
            outcome
        }
    }
}

/// A reader that is fed a header block line by line ends with the length
/// that the block declares, or fails because it declares none: as reading
/// the block from a buffer does.
pub proof fn lemma_reader_reads_header_blocks(
    seen: Option<usize>,
    fields: Seq<Seq<u8>>,
    blank: Seq<u8>,
)
    requires
        are_field_lines(fields),
        is_blank(blank),
    ensures
        fed(seen, fields.push(blank)) == match declared_length(fields, seen) {
            Some(n) => Ok::<Option<usize>, FramingErrorKind>(Some(n)),
            None => Err::<Option<usize>, FramingErrorKind>(FramingErrorKind::MissingContentLength),
        },
    decreases fields.len(),
{
    let lines = fields.push(blank);
    if fields.len() > 0 {
        let others = fields.drop_first();
        assert(lines.drop_first() =~= others.push(blank));
        assert forall|i: int| 0 <= i < others.len() implies {
            &&& is_terminated_line(#[trigger] others[i])
            &&& header_line(others[i]) is Ok
            &&& header_line(others[i]) != Ok::<HeaderLine, FramingErrorKind>(HeaderLine::Blank)
        } by {}
        let next = match header_line(fields[0]) {
            Ok(HeaderLine::ContentLength(n)) => Some(n),
            _ => seen,
        };
        lemma_reader_reads_header_blocks(next, others, blank);
    }
}

} // verus!
