use vstd::prelude::*;
use vstd::string::{StringExecFns, StrSliceExecFns};
use vstd::utf8::encode_utf8;
use crate::text::{chars_of, push_repeated, push_spaces, repeated, spaces};

verus! {

/// A row of a result: for each column its name and its value, as text.
#[derive(Debug, Clone, PartialEq, Eq)]
pub struct DbRow {
    /// Columns and their values in this row.
    pub columns: Vec<(String, String)>,
}

/// The number of bytes that a text takes.
pub open spec fn byte_len(text: Seq<char>) -> nat {
    encode_utf8(text).len()
}

/// Whether no row has more columns than the first one, which gives the
/// table its header.
pub open spec fn fits_header(rows: Seq<DbRow>) -> bool {
    forall|r: int|
        0 <= r < rows.len() ==> (#[trigger] rows[r]).columns@.len() <= rows[0].columns@.len()
}

/// The width of a column when the header and the first `count` rows are
/// taken into account: the greatest number of bytes of the name and of
/// the values in it.
pub open spec fn width_after(rows: Seq<DbRow>, column: int, count: nat) -> nat
    decreases count,
{
    if count == 0 {
        byte_len(rows[0].columns@[column].0@)
    } else {
        let before = width_after(rows, column, (count - 1) as nat);
        let row = rows[count - 1];
        if column < row.columns@.len() && byte_len(row.columns@[column].1@) > before {
            byte_len(row.columns@[column].1@)
        } else {
            before
        }
    }
}

/// The widths of the columns of the table.
pub open spec fn widths(rows: Seq<DbRow>) -> Seq<nat> {
    Seq::new(rows[0].columns@.len(), |column: int| width_after(rows, column, rows.len()))
}

/// A value as it stands in a column of the given width: between two
/// spaces, and filled up with spaces to the width in characters.
pub open spec fn cell(value: Seq<char>, width: nat) -> Seq<char> {
    " "@ + value + spaces(
        if value.len() < width {
            (width - value.len()) as nat
        } else {
            0
        },
    ) + " "@
}

/// The cells of a line, with a bar between each two.
pub open spec fn cells(values: Seq<Seq<char>>, widths: Seq<nat>) -> Seq<char>
    decreases values.len(),
{
    if values.len() == 0 {
        Seq::empty()
    } else if values.len() == 1 {
        cell(values[0], widths[0])
    } else {
        cells(values.drop_last(), widths) + "|"@ + cell(values.last(), widths[values.len() - 1])
    }
}

/// The line under the header: dashes under every column, two more than it
/// is wide, with a plus sign between each two columns.
pub open spec fn separator(widths: Seq<nat>) -> Seq<char>
    decreases widths.len(),
{
    if widths.len() == 0 {
        Seq::empty()
    } else if widths.len() == 1 {
        repeated("-"@, widths[0] + 2)
    } else {
        separator(widths.drop_last()) + "+"@ + repeated("-"@, widths.last() + 2)
    }
}

/// The names of the columns of a row.
pub open spec fn names(row: DbRow) -> Seq<Seq<char>> {
    Seq::new(row.columns@.len(), |column: int| row.columns@[column].0@)
}

/// The values of a row.
pub open spec fn values(row: DbRow) -> Seq<Seq<char>> {
    Seq::new(row.columns@.len(), |column: int| row.columns@[column].1@)
}

/// The lines of the first `count` rows, each behind a line feed.
pub open spec fn body(rows: Seq<DbRow>, widths: Seq<nat>, count: nat) -> Seq<char>
    decreases count,
{
    if count == 0 {
        Seq::empty()
    } else {
        body(rows, widths, (count - 1) as nat) + "\n"@ + cells(values(rows[count - 1]), widths)
    }
}

/// The table for `rows`: the names of the columns, the separator, and one
/// line for every row.
pub open spec fn table(rows: Seq<DbRow>) -> Seq<char> {
    cells(names(rows[0]), widths(rows)) + "\n"@ + separator(widths(rows)) + body(
        rows,
        widths(rows),
        rows.len(),
    )
}

/// The widths in `v` as numbers.
pub open spec fn as_nats(v: Seq<usize>) -> Seq<nat> {
    Seq::new(v.len(), |i: int| v[i] as nat)
}

proof fn lemma_repeated_sum(piece: Seq<char>, a: nat, b: nat)
    ensures
        repeated(piece, a) + repeated(piece, b) == repeated(piece, a + b),
    decreases b,
{
    if b > 0 {
        lemma_repeated_sum(piece, a, (b - 1) as nat);
        assert(repeated(piece, a) + repeated(piece, b) =~= repeated(piece, a) + repeated(
            piece,
            (b - 1) as nat,
        ) + piece);
    }
}

fn column_widths(rows: &Vec<DbRow>) -> (r: Vec<usize>)
    requires
        rows@.len() > 0,
        fits_header(rows@),
    ensures
        as_nats(r@) == widths(rows@),
        r@.len() == rows@[0].columns@.len(),
{
    let header = &rows[0];
    let columns = header.columns.len();
    let mut found: Vec<usize> = Vec::new();
    let mut c: usize = 0;
    while c < columns
        invariant
            c <= columns == rows@[0].columns@.len(),
            header == &rows@[0],
            found@.len() == c,
            forall|k: int| 0 <= k < c ==> found@[k] == width_after(rows@, k, 0),
        decreases columns - c,
    {
        found.push(header.columns[c].0.as_str().as_bytes().len());
        c += 1;
    }
    let mut r: usize = 0;
    while r < rows.len()
        invariant
            r <= rows@.len(),
            rows@.len() > 0,
            fits_header(rows@),
            found@.len() == columns == rows@[0].columns@.len(),
            forall|k: int| 0 <= k < columns ==> found@[k] == width_after(rows@, k, r as nat),
        decreases rows@.len() - r,
    {
        let row = &rows[r];
        let mut c: usize = 0;
        while c < row.columns.len()
            invariant
                r < rows@.len(),
                row == &rows@[r as int],
                c <= row.columns@.len() <= columns,
                found@.len() == columns == rows@[0].columns@.len(),
                forall|k: int| 0 <= k < c ==> found@[k] == width_after(rows@, k, (r + 1) as nat),
                forall|k: int| c <= k < columns ==> found@[k] == width_after(rows@, k, r as nat),
            decreases row.columns@.len() - c,
        {
            let len = row.columns[c].1.as_str().as_bytes().len();
            if len > found[c] {
                found.set(c, len);
            }
            c += 1;
        }
        r += 1;
    }
    found
}

fn push_cell(out: &mut String, value: &str, width: usize)
    ensures
        final(out)@ == old(out)@ + cell(value@, width as nat),
{
    let shown = value.unicode_len();
    out.append(" ");
    out.append(value);
    let fill: usize = if shown < width {
        width - shown
    } else {
        0
    };
    push_spaces(out, fill);
    out.append(" ");
}

fn push_cells(out: &mut String, row: &DbRow, header: bool, widths: &Vec<usize>)
    requires
        row.columns@.len() <= widths@.len(),
    ensures
        final(out)@ == old(out)@ + cells(
            if header {
                names(*row)
            } else {
                values(*row)
            },
            as_nats(widths@),
        ),
{
    let ghost texts = if header {
        names(*row)
    } else {
        values(*row)
    };
    let mut c: usize = 0;
    while c < row.columns.len()
        invariant
            c <= row.columns@.len() <= widths@.len(),
            texts == if header {
                names(*row)
            } else {
                values(*row)
            },
            out@ == old(out)@ + cells(texts.take(c as int), as_nats(widths@)),
        decreases row.columns@.len() - c,
    {
        let ghost now = texts.take(c + 1);
        assert(now.drop_last() =~= texts.take(c as int));
        if c > 0 {
            out.append("|");
        }
        let value = if header {
            row.columns[c].0.as_str()
        } else {
            row.columns[c].1.as_str()
        };
        push_cell(out, value, widths[c]);
        c += 1;
    }
    assert(texts.take(c as int) =~= texts);
}

fn push_separator(out: &mut String, widths: &Vec<usize>)
    ensures
        final(out)@ == old(out)@ + separator(as_nats(widths@)),
{
    let ghost all = as_nats(widths@);
    let mut c: usize = 0;
    while c < widths.len()
        invariant
            c <= widths@.len(),
            all == as_nats(widths@),
            out@ == old(out)@ + separator(all.take(c as int)),
        decreases widths@.len() - c,
    {
        let ghost now = all.take(c + 1);
        assert(now.drop_last() =~= all.take(c as int));
        if c > 0 {
            out.append("+");
        }
        push_repeated(out, "-", widths[c]);
        push_repeated(out, "-", 2);
        proof {
            lemma_repeated_sum("-"@, widths@[c as int] as nat, 2);
        }
        c += 1;
    }
    assert(all.take(c as int) =~= all);
}

/// Draws the rows of a result as a table: a header with the names of the
/// columns of the first row, a separator, and a line for each row. Every
/// column is as wide as the longest text in it, counted in bytes. There
/// is no table without rows.
pub fn format_table(rows: &Vec<DbRow>) -> (r: Option<String>)
    requires
        fits_header(rows@),
    ensures
        match r {
            Some(drawn) => rows@.len() > 0 && drawn@ == table(rows@),
            None => rows@.len() == 0,
        },
{
    if rows.len() == 0 {
        return None;
    }
    let widths = column_widths(rows);
    let ghost w = as_nats(widths@);
    let mut out = String::new();
    push_cells(&mut out, &rows[0], true, &widths);
    out.append("\n");
    push_separator(&mut out, &widths);
    let ghost head = out@;
    let mut r: usize = 0;
    while r < rows.len()
        invariant
            r <= rows@.len(),
            fits_header(rows@),
            w == as_nats(widths@),
            widths@.len() == rows@[0].columns@.len(),
            out@ == head + body(rows@, w, r as nat),
        decreases rows@.len() - r,
    {
        out.append("\n");
        push_cells(&mut out, &rows[r], false, &widths);
        r += 1;
    }
    Some(out)
}


/// `s` without the double quotes at its start.
pub open spec fn without_leading_quotes(s: Seq<char>) -> Seq<char>
    decreases s.len(),
{
    if s.len() > 0 && s[0] == '"' {
        without_leading_quotes(s.drop_first())
    } else {
        s
    }
}

/// `s` without the double quotes at its end.
pub open spec fn without_trailing_quotes(s: Seq<char>) -> Seq<char>
    decreases s.len(),
{
    if s.len() > 0 && s.last() == '"' {
        without_trailing_quotes(s.drop_last())
    } else {
        s
    }
}

/// A value as it is shown in a table: the text that the driver gives for
/// it, without the double quotes around it.
pub fn unquote(text: &str) -> (r: String)
    ensures
        r@ == without_trailing_quotes(without_leading_quotes(text@)),
{
    let chars = chars_of(text);
    let n = chars.len();
    let mut lo: usize = 0;
    assert(text@.subrange(0, n as int) =~= text@);
    while lo < n && chars[lo] == '"'
        invariant
            lo <= n == chars@.len(),
            chars@ == text@,
            without_leading_quotes(text@) == without_leading_quotes(
                text@.subrange(lo as int, n as int),
            ),
        decreases n - lo,
    {
        assert(text@.subrange(lo as int, n as int).drop_first() =~= text@.subrange(
            lo + 1,
            n as int,
        ));
        lo += 1;
    }
    let mut hi: usize = n;
    while hi > lo && chars[hi - 1] == '"'
        invariant
            lo <= hi <= n == chars@.len(),
            chars@ == text@,
            without_trailing_quotes(text@.subrange(lo as int, n as int))
                == without_trailing_quotes(text@.subrange(lo as int, hi as int)),
        decreases hi - lo,
    {
        assert(text@.subrange(lo as int, hi as int).drop_last() =~= text@.subrange(
            lo as int,
            hi - 1,
        ));
        hi -= 1;
    }
    String::from_str(text.substring_char(lo, hi))
}

} // verus!
