use sqlfriend_core::lsp::completer::{find_sql_token_start, row_and_col_from_offset};

#[test]
fn can_find_word_start_with_empty_line() {
    assert_eq!(find_sql_token_start(" ", 0), 0);
}

#[test]
fn can_find_word_start_at_end() {
    assert_eq!(find_sql_token_start("CREATE", 6), 0);
}

#[test]
fn can_find_word_start_at_new_word() {
    assert_eq!(find_sql_token_start("CREATE ", 7), 7);
}

#[test]
fn can_find_word_start_with_dot() {
    assert_eq!(find_sql_token_start("public.", 7), 7);
}

#[test]
fn can_compute_row_and_col_with_lf() {
    assert_eq!(row_and_col_from_offset("foo\nbar\nbaz", 4), Some((1, 0)));
    assert_eq!(row_and_col_from_offset("foo\nbar\nbaz", 10), Some((2, 2)));
    assert_eq!(row_and_col_from_offset("foo\nbar\nbaz", 30), None);
}

#[test]
fn can_compute_row_and_col_with_crlf() {
    assert_eq!(
        row_and_col_from_offset("foo\r\nbar\r\nbaz", 5),
        Some((1, 0))
    );
    assert_eq!(
        row_and_col_from_offset("foo\r\nbar\r\nbaz", 12),
        Some((2, 2))
    );
    assert_eq!(
        row_and_col_from_offset("foo\r\nbar\r\nbaz", 13),
        Some((2, 3))
    );
    assert_eq!(row_and_col_from_offset("foo\r\nbar\r\nbaz", 30), None);
}
