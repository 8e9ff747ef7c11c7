use vstd::prelude::*;
use vstd::string::{StringExecFns, StrSliceExecFns};
use vstd::utf8::{encode_utf8, encode_utf8_decode_utf8};

verus! {

/// The decimal digits of `n`, most significant first, without leading zeros.
pub open spec fn decimal_text(n: nat) -> Seq<char>
    decreases n,
{
    if n < 10 {
        seq![digit_char(n)]
    } else {
        decimal_text(n / 10).push(digit_char(n % 10))
    }
}

/// The character that writes the digit `d`.
pub open spec fn digit_char(d: nat) -> char {
    ((48 + d) as u8) as char
}

/// The texts of the strings of `v`, in their order.
pub open spec fn texts(v: Seq<String>) -> Seq<Seq<char>> {
    Seq::new(v.len(), |i: int| v[i]@)
}

/// Two texts are the same exactly if their UTF-8 encodings are.
pub proof fn lemma_same_bytes_same_text(a: Seq<char>, b: Seq<char>)
    ensures
        (encode_utf8(a) == encode_utf8(b)) <==> a == b,
{
    encode_utf8_decode_utf8(a);
    encode_utf8_decode_utf8(b);
}

/// Whether `a` and `b` hold the same bytes.
pub fn bytes_eq(a: &[u8], b: &[u8]) -> (r: bool)
    ensures
        r == (a@ == b@),
{
    if a.len() != b.len() {
        return false;
    }
    let mut i: usize = 0;
    while i < a.len()
        invariant
            i <= a@.len() == b@.len(),
            forall|j: int| 0 <= j < i ==> a@[j] == b@[j],
        decreases a@.len() - i,
    {
        if a[i] != b[i] {
            return false;
        }
        i += 1;
    }
    assert(a@ =~= b@);
    true
}

/// Whether `a` and `b` are the same text.
pub fn str_eq(a: &str, b: &str) -> (r: bool)
    ensures
        r == (a@ == b@),
{
    proof {
        lemma_same_bytes_same_text(a@, b@);
    }
    bytes_eq(a.as_bytes(), b.as_bytes())
}

/// Whether `b` is an ASCII decimal digit.
pub open spec fn is_digit(b: u8) -> bool {
    48 <= b <= 57
}

/// Value of a string of decimal digits, most significant first.
pub open spec fn digits_value(s: Seq<u8>) -> nat
    decreases s.len(),
{
    if s.len() == 0 {
        0
    } else {
        digits_value(s.drop_last()) * 10 + (s.last() - 48) as nat
    }
}

/// Whether `s` holds nothing but decimal digits.
pub open spec fn all_digits(s: Seq<u8>) -> bool {
    forall|i: int| 0 <= i < s.len() ==> is_digit(#[trigger] s[i])
}

/// The digits of a decimal number: `s` without one leading `+`, if it has one.
pub open spec fn unsigned_digits(s: Seq<u8>) -> Seq<u8> {
    if s.len() > 0 && s[0] == 43 {
        s.drop_first()
    } else {
        s
    }
}

/// The number that `s` denotes: an optional `+`, then one or more decimal
/// digits whose value fits a `usize`. `None` for anything else.
pub open spec fn parse_decimal(s: Seq<u8>) -> Option<usize> {
    let digits = unsigned_digits(s);
    if digits.len() > 0 && all_digits(digits) && digits_value(digits) <= usize::MAX {
        Some(digits_value(digits) as usize)
    } else {
        None
    }
}

proof fn lemma_digits_prefix(s: Seq<u8>, k: int)
    requires
        0 <= k <= s.len(),
    ensures
        digits_value(s.take(k)) <= digits_value(s),
    decreases s.len() - k,
{
    if k == s.len() {
        assert(s.take(k) =~= s);
    } else {
        lemma_digits_prefix(s.drop_last(), k);
        assert(s.drop_last().take(k) =~= s.take(k));
    }
}

/// Reads the decimal number that the bytes of `input` from `from` up to `to`
/// denote.
pub fn parse_decimal_range(input: &[u8], from: usize, to: usize) -> (r: Option<usize>)
    requires
        from <= to <= input@.len(),
    ensures
        r == parse_decimal(input@.subrange(from as int, to as int)),
{
    let ghost s = input@.subrange(from as int, to as int);
    let start: usize = if from < to && input[from] == 43 {
        from + 1
    } else {
        from
    };
    let ghost digits = input@.subrange(start as int, to as int);
    if start == to {
        return None;
    }
    let mut value: usize = 0;
    let mut i: usize = start;
    while i < to
        invariant
            start <= i <= to <= input@.len(),
            start < to,
            digits == input@.subrange(start as int, to as int),
            digits == unsigned_digits(s),
            s == input@.subrange(from as int, to as int),
            all_digits(digits.take(i - start)),
            value == digits_value(digits.take(i - start)),
        decreases to - i,
    {
        let b = input[i];
        if !(48 <= b && b <= 57) {
            assert(!is_digit(digits[i - start]));
            return None;
        }
        let ghost next = digits.take(i + 1 - start);
        proof {
            assert(next.drop_last() =~= digits.take(i - start));
            lemma_digits_prefix(digits, i + 1 - start);
        }
        let d: usize = (b - 48) as usize;
        let scaled = match value.checked_mul(10) {
            Some(v) => v,
            None => {
                return None;
            },
        };
        value = match scaled.checked_add(d) {
            Some(v) => v,
            None => {
                return None;
            },
        };
        i += 1;
    }
    assert(digits.take(i - start) =~= digits);
    Some(value)
}

/// Index of the first occurrence of `b` in `s`, or `s.len()` if there is none.
pub open spec fn index_of<T>(s: Seq<T>, b: T) -> nat
    decreases s.len(),
{
    if s.len() == 0 {
        0
    } else if s[0] == b {
        0
    } else {
        1 + index_of(s.drop_first(), b)
    }
}

/// Length of the first line of `s`: up to and including the first line feed,
/// or all of `s` when it holds none.
pub open spec fn line_len(s: Seq<u8>) -> nat {
    let i = index_of(s, 10u8);
    if i < s.len() {
        i + 1
    } else {
        s.len()
    }
}

/// A position that holds `b`, with no `b` before it, is the first occurrence.
pub proof fn lemma_index_of_at<T>(s: Seq<T>, b: T, r: int)
    requires
        0 <= r <= s.len(),
        forall|j: int| 0 <= j < r ==> s[j] != b,
        r < s.len() ==> s[r] == b,
    ensures
        index_of(s, b) == r,
    decreases s.len(),
{
    if s.len() > 0 && r > 0 {
        let t = s.drop_first();
        assert forall|j: int| 0 <= j < r - 1 implies t[j] != b by {}
        lemma_index_of_at(t, b, r - 1);
    }
}

/// `index_of` is at most the length, nothing before it is `b`, and if it is
/// inside the sequence it points at a `b`.
pub proof fn lemma_index_of<T>(s: Seq<T>, b: T)
    ensures
        index_of(s, b) <= s.len(),
        forall|j: int| 0 <= j < index_of(s, b) ==> s[j] != b,
        index_of(s, b) < s.len() ==> s[index_of(s, b) as int] == b,
    decreases s.len(),
{
    if s.len() > 0 && s[0] != b {
        let t = s.drop_first();
        lemma_index_of(t, b);
        assert forall|j: int| 0 <= j < index_of(s, b) implies s[j] != b by {
            if j > 0 {
                assert(s[j] == t[j - 1]);
            }
        }
    }
}

/// Position of the first `b` in `input` from `from` on and before `to`, or
/// `to` if there is none.
pub fn find_byte(input: &[u8], from: usize, to: usize, b: u8) -> (r: usize)
    requires
        from <= to <= input@.len(),
    ensures
        r == from + index_of(input@.subrange(from as int, to as int), b),
        from <= r <= to,
{
    let mut i: usize = from;
    while i < to && input[i] != b
        invariant
            from <= i <= to <= input@.len(),
            forall|j: int| from <= j < i ==> input@[j] != b,
        decreases to - i,
    {
        i += 1;
    }
    proof {
        lemma_index_of_at(input@.subrange(from as int, to as int), b, i - from);
    }
    i
}

/// The characters of `s`, one by one.
pub fn chars_of(s: &str) -> (r: Vec<char>)
    ensures
        r@ == s@,
{
    let mut out: Vec<char> = Vec::new();
    for c in it: s.chars()
        invariant
            out@ == it.seq().take(it.index() as int),
            it.seq() == s@,
    {
        out.push(c);
    }
    out
}

/// Length of `line` without its line ending, a final `\n` or `\r\n`.
pub open spec fn content_len(line: Seq<u8>) -> nat {
    let n = line.len();
    if n >= 2 && line[n - 2] == 13 && line[n - 1] == 10 {
        (n - 2) as nat
    } else if n >= 1 && line[n - 1] == 10 {
        (n - 1) as nat
    } else {
        n
    }
}

/// The lines of `s`: it is split behind every line feed, and each piece
/// stands without its `\n` or `\r\n`. A last piece without a line feed is a
/// line too, unless it is empty.
pub open spec fn lines(s: Seq<u8>) -> Seq<Seq<u8>>
    decreases s.len(),
{
    if s.len() == 0 {
        Seq::empty()
    } else {
        let first = s.take(line_len(s) as int);
        seq![first.take(content_len(first) as int)] + lines(s.skip(line_len(s) as int))
    }
}

/// Whether `s` holds a carriage return directly before a line feed.
pub open spec fn contains_crlf(s: Seq<u8>) -> bool {
    exists|i: int| 0 <= i && i + 1 < s.len() && #[trigger] s[i] == 13 && s[i + 1] == 10
}

/// The length that every line ending of `s` is taken to have: that of
/// `\r\n` if `s` holds one, else that of `\n`.
pub open spec fn line_ending_len(s: Seq<u8>) -> nat {
    if contains_crlf(s) {
        2
    } else {
        1
    }
}

/// Where line `row` begins if every line before it ends with an ending of
/// `ending` bytes.
pub open spec fn line_start(lines: Seq<Seq<u8>>, row: nat, ending: nat) -> nat
    decreases row,
{
    if row == 0 {
        0
    } else {
        line_start(lines, (row - 1) as nat, ending) + lines[row - 1].len() + ending
    }
}

/// `n - 1`, but 0 for 0.
pub open spec fn pred(n: nat) -> nat {
    if n == 0 {
        0
    } else {
        (n - 1) as nat
    }
}

/// Whether `s` holds a carriage return directly before a line feed.
pub fn has_crlf(s: &[u8]) -> (r: bool)
    ensures
        r == contains_crlf(s@),
{
    if s.len() < 2 {
        return false;
    }
    let mut i: usize = 0;
    while i < s.len() - 1
        invariant
            2 <= s@.len(),
            i <= s@.len() - 1,
            forall|j: int| 0 <= j < i ==> !(#[trigger] s@[j] == 13 && s@[j + 1] == 10),
        decreases s@.len() - i,
    {
        if s[i] == 13 && s[i + 1] == 10 {
            return true;
        }
        i += 1;
    }
    false
}

/// One line read off the front of a text: where the next line starts, and
/// how long the line is without its ending.
pub struct LineSpan {
    pub next: usize,
    pub len: usize,
}

/// Reads the line of `s` that starts at `from`.
pub fn read_line(s: &[u8], from: usize) -> (r: LineSpan)
    requires
        from < s@.len(),
    ensures
        r.next == from + line_len(s@.skip(from as int)),
        from < r.next <= s@.len(),
        r.len == content_len(s@.skip(from as int).take(line_len(s@.skip(from as int)) as int)),
        r.len <= r.next - from <= r.len + 2,
        r.next - from == r.len + 2 ==> contains_crlf(s@),
        lines(s@.skip(from as int)) == seq![s@.subrange(from as int, from + r.len)] + lines(
            s@.skip(r.next as int),
        ),
{
    let n = s.len();
    let ghost rest = s@.skip(from as int);
    let nl = find_byte(s, from, n, 10);
    proof {
        lemma_index_of(rest, 10u8);
    }
    let next: usize = if nl < n {
        nl + 1
    } else {
        n
    };
    let ghost first = rest.take(next - from);
    let len: usize = if nl < n {
        if nl > from && s[nl - 1] == 13 {
            nl - 1 - from
        } else {
            nl - from
        }
    } else {
        n - from
    };
    proof {
        assert(first.take(len as int) =~= s@.subrange(from as int, from + len));
        assert(rest.skip(next - from) =~= s@.skip(next as int));
    }
    LineSpan { next, len }
}

/// Whether `s` begins with `prefix`.
pub fn starts_with(s: &[char], prefix: &[char]) -> (r: bool)
    ensures
        r == prefix@.is_prefix_of(s@),
{
    if prefix.len() > s.len() {
        return false;
    }
    let mut i: usize = 0;
    while i < prefix.len()
        invariant
            i <= prefix@.len() <= s@.len(),
            forall|j: int| 0 <= j < i ==> s@[j] == prefix@[j],
        decreases prefix@.len() - i,
    {
        if s[i] != prefix[i] {
            return false;
        }
        i += 1;
    }
    true
}

/// Whether the text `s` begins with the text `prefix`.
pub fn str_starts_with(s: &str, prefix: &str) -> (r: bool)
    ensures
        r == prefix@.is_prefix_of(s@),
{
    let s_chars = chars_of(s);
    let prefix_chars = chars_of(prefix);
    starts_with(s_chars.as_slice(), prefix_chars.as_slice())
}

/// The pieces of `s` between the occurrences of `sep`. There is always at
/// least one piece, and a piece may be empty.
pub open spec fn split(s: Seq<char>, sep: char) -> Seq<Seq<char>>
    decreases s.len(),
{
    let n = index_of(s, sep);
    if n >= s.len() {
        seq![s]
    } else {
        seq![s.take(n as int)] + split(s.skip(n as int + 1), sep)
    }
}

/// Cuts `line` into the pieces between its occurrences of `sep`.
pub fn split_at_char(line: &str, sep: char) -> (r: Vec<String>)
    ensures
        texts(r@) == split(line@, sep),
{
    let chars = chars_of(line);
    let n = chars.len();
    let mut pieces: Vec<String> = Vec::new();
    let mut start: usize = 0;
    let mut i: usize = 0;
    assert(line@.skip(0) =~= line@);
    while i < n
        invariant
            start <= i <= n == chars@.len(),
            chars@ == line@,
            split(line@, sep) == texts(pieces@) + split(line@.skip(start as int), sep),
            forall|j: int| start <= j < i ==> line@[j] != sep,
        decreases n - i,
    {
        if chars[i] == sep {
            let ghost rest = line@.skip(start as int);
            proof {
                lemma_index_of_at(rest, sep, i - start);
                assert(rest.take(i - start) =~= line@.subrange(start as int, i as int));
                assert(rest.skip(i - start + 1) =~= line@.skip(i + 1));
            }
            let piece = line.substring_char(start, i);
            pieces.push(String::from_str(piece));
            start = i + 1;
        }
        i += 1;
    }
    let ghost rest = line@.skip(start as int);
    proof {
        lemma_index_of_at(rest, sep, n - start);
    }
    let piece = line.substring_char(start, n);
    pieces.push(String::from_str(piece));
    pieces
}

/// `piece`, `count` times over.
pub open spec fn repeated(piece: Seq<char>, count: nat) -> Seq<char>
    decreases count,
{
    if count == 0 {
        Seq::empty()
    } else {
        repeated(piece, (count - 1) as nat) + piece
    }
}

/// `count` spaces.
pub open spec fn spaces(count: nat) -> Seq<char> {
    repeated(" "@, count)
}

/// Appends `piece` to `out`, `count` times over.
pub fn push_repeated(out: &mut String, piece: &str, count: usize)
    ensures
        final(out)@ == old(out)@ + repeated(piece@, count as nat),
{
    let mut i: usize = 0;
    while i < count
        invariant
            i <= count,
            out@ == old(out)@ + repeated(piece@, i as nat),
        decreases count - i,
    {
        out.append(piece);
        i += 1;
    }
}

/// Appends `count` spaces to `out`.
pub fn push_spaces(out: &mut String, count: usize)
    ensures
        final(out)@ == old(out)@ + spaces(count as nat),
{
    push_repeated(out, " ", count);
}

/// A text as `Debug` writes a string: between double quotes, and with the
/// characters escaped that cannot stand there as they are.
pub uninterp spec fn quoted(s: Seq<char>) -> Seq<char>;

/// `format!` with `{:?}` on a string slice, which is the `Debug` form of
/// `str`.
#[verifier::external_body]
pub(crate) fn debug_str(s: &str) -> (r: String)
    ensures
        r@ == quoted(s@),
{
    format!("{:?}", s)
}

} // verus!
