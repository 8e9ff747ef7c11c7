use sqlfriend_core::lsp::notification_handler::compute_byte_offset;

#[test]
fn can_compute_byte_offset_with_lf() {
    assert_eq!(compute_byte_offset("foo\nbar\nbaz", 1, 0), 4);
    assert_eq!(compute_byte_offset("foo\nbar\nbaz", 2, 2), 10);
    assert_eq!(compute_byte_offset("foo\nbar\nbaz", 7, 7), 10);
}

#[test]
fn can_compute_byte_offset_with_crlf() {
    assert_eq!(compute_byte_offset("foo\r\nbar\r\nbaz", 1, 0), 5);
    assert_eq!(compute_byte_offset("foo\r\nbar\r\nbaz", 2, 2), 12);
    assert_eq!(compute_byte_offset("foo\r\nbar\r\nbaz", 7, 7), 12);
}
