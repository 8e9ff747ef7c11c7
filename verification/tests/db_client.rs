use sqlfriend_core::db_client::{format_table, unquote, DbRow};

fn row(cells: &[(&str, &str)]) -> DbRow {
    DbRow {
        columns: cells
            .iter()
            .map(|(name, value)| (name.to_string(), value.to_string()))
            .collect(),
    }
}

#[test]
fn no_rows_no_table() {
    assert_eq!(format_table(&vec![]), None);
}

#[test]
fn table_is_as_wide_as_its_longest_cells() {
    let rows = vec![
        row(&[("id", "1"), ("name", "Alice")]),
        row(&[("id", "22"), ("name", "Bob")]),
    ];
    assert_eq!(
        format_table(&rows),
        Some(
            " id | name  \n\
             ----+-------\n \
             1  | Alice \n \
             22 | Bob   "
                .to_string()
        )
    );
}

#[test]
fn table_of_one_cell() {
    assert_eq!(
        format_table(&vec![row(&[("count", "3")])]),
        Some(" count \n-------\n 3     ".to_string())
    );
    assert_eq!(
        format_table(&vec![row(&[("n", "<NULL>")])]),
        Some(" n      \n--------\n <NULL> ".to_string())
    );
}

#[test]
fn table_without_columns() {
    assert_eq!(
        format_table(&vec![row(&[]), row(&[])]),
        Some("\n\n\n".to_string())
    );
}

#[test]
fn shorter_rows_are_drawn_as_they_are() {
    let rows = vec![row(&[("a", "1"), ("b", "2")]), row(&[("a", "333")])];
    assert_eq!(
        format_table(&rows),
        Some(" a   | b \n-----+---\n 1   | 2 \n 333 ".to_string())
    );
}

#[test]
fn widths_count_bytes_and_padding_counts_characters() {
    // "é" is one character in two bytes: the column is two wide, and the
    // value is filled up by one space.
    assert_eq!(
        format_table(&vec![row(&[("c", "é")])]),
        Some(" c  \n----\n é  ".to_string())
    );
}

#[test]
fn values_are_shown_without_quotes_around_them() {
    assert_eq!(unquote("\"Alice\""), "Alice");
    assert_eq!(unquote("42"), "42");
    assert_eq!(unquote(""), "");
    assert_eq!(unquote("\""), "");
    assert_eq!(unquote("\"\"\""), "");
    assert_eq!(unquote("\"\"a\"b\"\"\""), "a\"b");
    assert_eq!(unquote("é\""), "é");
    for text in ["\"x", "x\"", "a\"b", "\"\"", " \"x\" "] {
        assert_eq!(unquote(text), text.trim_matches('"'));
    }
}
