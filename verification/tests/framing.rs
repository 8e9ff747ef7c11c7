use sqlfriend_core::lsp::payload::frame;
use sqlfriend_core::lsp::response::{
    parse_header, parse_header_line, read_body, Frame, FramingError, FramingErrorKind, HeaderLine,
    HeaderReader,
};

#[test]
fn read_body_recovers_the_body() {
    let input = b"Content-Length: 5\r\n\r\nhello";
    assert_eq!(
        read_body(input),
        Ok(Frame {
            body: b"hello".to_vec(),
            consumed: input.len()
        })
    );
}

#[test]
fn read_body_keeps_newlines_in_the_body() {
    let body = b"{\n\"a\":\r\n1}\n\n";
    let mut input = format!("Content-Length: {}\r\n\r\n", body.len()).into_bytes();
    input.extend_from_slice(body);
    let header_len = input.len() - body.len();
    input.extend_from_slice(b"Content-Length: 2\r\n\r\n{}");
    let frame = read_body(&input).unwrap();
    assert_eq!(frame.body, body.to_vec());
    assert_eq!(frame.consumed, header_len + body.len());
    // What follows is the next message.
    let next = read_body(&input[frame.consumed..]).unwrap();
    assert_eq!(next.body, b"{}".to_vec());
}

#[test]
fn read_body_takes_arbitrary_bytes() {
    let body: Vec<u8> = vec![0, 255, 10, 13, 10, 58, 128];
    let mut input = b"Content-Length: 7\r\n\r\n".to_vec();
    input.extend_from_slice(&body);
    assert_eq!(read_body(&input).unwrap().body, body);
}

#[test]
fn header_name_is_case_insensitive() {
    assert_eq!(parse_header(b"content-length: 3\r\n\r\n"), Ok((3, 21)));
    assert_eq!(parse_header(b"CONTENT-LENGTH:3\n\n"), Ok((3, 18)));
    assert_eq!(parse_header(b"  Content-Length  :  3  \r\n\r\n"), Ok((3, 28)));
}

#[test]
fn other_headers_are_skipped() {
    let input = b"Content-Type: application/vscode-jsonrpc; charset=utf-8\r\nContent-Length: 2\r\n\r\n{}";
    let frame = read_body(input).unwrap();
    assert_eq!(frame.body, b"{}".to_vec());
    assert_eq!(frame.consumed, input.len());
}

#[test]
fn later_content_length_wins() {
    assert_eq!(
        parse_header(b"Content-Length: 1\r\nContent-Length: 4\r\n\r\n"),
        Ok((4, 40))
    );
}

#[test]
fn missing_content_length_fails_without_consuming_body() {
    let header = b"Content-Type: x\r\n\r\n";
    let mut input = header.to_vec();
    input.extend_from_slice(b"{\"body\":1}");
    assert_eq!(
        read_body(&input),
        Err(FramingError {
            kind: FramingErrorKind::MissingContentLength,
            consumed: header.len()
        })
    );
}

#[test]
fn empty_stream_has_no_content_length() {
    assert_eq!(
        read_body(b""),
        Err(FramingError {
            kind: FramingErrorKind::MissingContentLength,
            consumed: 0
        })
    );
}

#[test]
fn header_line_without_colon_fails() {
    assert_eq!(
        read_body(b"Content-Length 5\r\n\r\nhello"),
        Err(FramingError {
            kind: FramingErrorKind::MissingSeparator,
            consumed: 18
        })
    );
}

#[test]
fn unparsable_content_length_fails() {
    for value in ["abc", "", "-1", "1.5", "0x10", "5 5", "99999999999999999999999999"] {
        let input = format!("Content-Length: {value}\r\n\r\n");
        assert_eq!(
            read_body(input.as_bytes()),
            Err(FramingError {
                kind: FramingErrorKind::InvalidContentLength,
                consumed: input.len() - 2
            }),
            "{value}"
        );
    }
}

#[test]
fn content_length_may_carry_a_plus_sign_and_zeros() {
    assert_eq!(parse_header(b"Content-Length: +007\r\n\r\n"), Ok((7, 24)));
}

#[test]
fn short_body_is_unexpected_eof() {
    let input = b"Content-Length: 10\r\n\r\nhello";
    assert_eq!(
        read_body(input),
        Err(FramingError {
            kind: FramingErrorKind::UnexpectedEof,
            consumed: input.len()
        })
    );
}

#[test]
fn end_of_stream_ends_the_header() {
    // A stream that ends inside the header block is read like a blank line.
    assert_eq!(parse_header(b"Content-Length: 0"), Ok((0, 17)));
    assert_eq!(
        read_body(b"Content-Length: 0").unwrap().body,
        Vec::<u8>::new()
    );
}

#[test]
fn parse_header_line_sorts_lines() {
    assert_eq!(parse_header_line(b"\r\n"), Ok(HeaderLine::Blank));
    assert_eq!(parse_header_line(b""), Ok(HeaderLine::Blank));
    assert_eq!(parse_header_line(b" \t \n"), Ok(HeaderLine::Blank));
    assert_eq!(
        parse_header_line(b"Content-Length: 42\r\n"),
        Ok(HeaderLine::ContentLength(42))
    );
    assert_eq!(parse_header_line(b"X-Other: 1\r\n"), Ok(HeaderLine::Other));
    assert_eq!(
        parse_header_line(b"Content-Length-X: 1\r\n"),
        Ok(HeaderLine::Other)
    );
    assert_eq!(
        parse_header_line(b"nonsense\r\n"),
        Err(FramingErrorKind::MissingSeparator)
    );
    assert_eq!(
        parse_header_line(b"Content-Length: x\r\n"),
        Err(FramingErrorKind::InvalidContentLength)
    );
}

#[test]
fn header_reader_takes_lines_one_by_one() {
    let mut reader = HeaderReader::new();
    assert_eq!(reader.feed(b"Content-Type: x\r\n"), Ok(None));
    assert_eq!(reader.feed(b"Content-Length: 12\r\n"), Ok(None));
    assert_eq!(reader.seen, Some(12));
    assert_eq!(reader.feed(b"\r\n"), Ok(Some(12)));

    let mut reader = HeaderReader::new();
    assert_eq!(
        reader.feed(b"\r\n"),
        Err(FramingErrorKind::MissingContentLength)
    );
    assert_eq!(
        reader.feed(b"oops\r\n"),
        Err(FramingErrorKind::MissingSeparator)
    );
}

#[test]
fn frame_writes_the_header() {
    assert_eq!(frame("{}"), "Content-Length: 2\r\n\r\n{}");
    assert_eq!(frame(""), "Content-Length: 0\r\n\r\n");
    assert_eq!(
        frame("0123456789abcdef"),
        "Content-Length: 16\r\n\r\n0123456789abcdef"
    );
}

#[test]
fn frame_counts_bytes_not_characters() {
    assert_eq!(frame("né"), "Content-Length: 3\r\n\r\nné");
}

#[test]
fn framing_reads_back_what_frame_wrote() {
    for content in ["", "{}", "a\nb\r\n\r\nc", "{\"text\":\"grüße\"}"] {
        let mut stream = frame(content).into_bytes();
        let length = stream.len();
        stream.extend_from_slice(b"Content-Length: 1\r\n\r\nx");
        assert_eq!(
            read_body(&stream),
            Ok(Frame {
                body: content.as_bytes().to_vec(),
                consumed: length
            })
        );
    }
}
