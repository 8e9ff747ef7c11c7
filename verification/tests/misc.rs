use sqlfriend_core::config::LspServerType;
use sqlfriend_core::error::{LspError, SqlFriendError};
use sqlfriend_core::logging::{PrintFilter, PrintPayload, Verbosity};
use sqlfriend_core::lsp::response::{FramingError, FramingErrorKind};
use sqlfriend_core::readline::{chain_validation, get_prompt, validate_statement, Validation};
use sqlfriend_core::text::{
    bytes_eq, chars_of, find_byte, has_crlf, parse_decimal_range, read_line,
    split_at_char, starts_with, str_eq, str_starts_with,
};

const LEVELS: [Verbosity; 4] = [
    Verbosity::Error,
    Verbosity::Warn,
    Verbosity::Standard,
    Verbosity::Debug,
];

#[test]
fn verbosity_shows_what_is_at_most_as_verbose() {
    for (i, set) in LEVELS.iter().enumerate() {
        for (j, message) in LEVELS.iter().enumerate() {
            assert_eq!(set.should_print(message), j <= i, "{set:?} {message:?}");
        }
    }
}

#[test]
fn verbosity_labels() {
    assert_eq!(Verbosity::Error.as_str(), "ERROR:");
    assert_eq!(Verbosity::Warn.as_str(), "WARN:");
    assert_eq!(Verbosity::Standard.as_str(), "");
    assert_eq!(Verbosity::Debug.as_str(), "DEBUG:");
}

#[test]
fn payloads_by_verbosity() {
    assert_eq!(
        PrintPayload::standard("m"),
        PrintPayload::Output(Verbosity::Standard, "m".to_string())
    );
    assert_eq!(
        PrintPayload::error("m"),
        PrintPayload::Output(Verbosity::Error, "m".to_string())
    );
    assert_eq!(
        PrintPayload::warn("m"),
        PrintPayload::Output(Verbosity::Warn, "m".to_string())
    );
    assert_eq!(
        PrintPayload::debug("m"),
        PrintPayload::Output(Verbosity::Debug, "m".to_string())
    );
}

#[test]
fn print_filter_prints_by_level() {
    let mut filter = PrintFilter::new(Verbosity::Standard);
    assert_eq!(
        filter.on_payload(PrintPayload::standard("hello")),
        Some("hello\n".to_string())
    );
    assert_eq!(
        filter.on_payload(PrintPayload::error("bad")),
        Some("ERROR: bad\n".to_string())
    );
    assert_eq!(
        filter.on_payload(PrintPayload::warn("hm")),
        Some("WARN: hm\n".to_string())
    );
    assert_eq!(filter.on_payload(PrintPayload::debug("detail")), None);
    assert_eq!(
        filter.on_payload(PrintPayload::SetVerbosity(Verbosity::Debug)),
        None
    );
    assert_eq!(filter.verbosity, Verbosity::Debug);
    assert_eq!(
        filter.on_payload(PrintPayload::debug("detail")),
        Some("DEBUG: detail\n".to_string())
    );
    assert_eq!(
        filter.on_payload(PrintPayload::SetVerbosity(Verbosity::Error)),
        None
    );
    assert_eq!(filter.on_payload(PrintPayload::standard("hello")), None);
}

#[test]
fn error_messages() {
    assert_eq!(
        SqlFriendError::InvalidConnectionName("x".to_string()).message(),
        "invalid connection name: `x`"
    );
    assert_eq!(
        SqlFriendError::InvalidCommandUsage("/use <connection_name>".to_string()).message(),
        "invalid command usage: `/use <connection_name>`"
    );
    assert_eq!(
        SqlFriendError::InvalidCommand("/quit".to_string()).message(),
        "invalid command: `/quit`"
    );
    assert_eq!(
        SqlFriendError::InvalidLspServer("vim".to_string(), LspServerType::values()).message(),
        "invalid LSP server: `vim`, expected one of [Sqls, SqlLs, PgTools]"
    );
    assert_eq!(
        SqlFriendError::InvalidLspServer("vim".to_string(), vec![]).message(),
        "invalid LSP server: `vim`, expected one of []"
    );
    assert_eq!(SqlFriendError::Unknown("what".to_string()).message(), "what");
}

#[test]
fn lsp_error_messages() {
    let framing = LspError::Framing(FramingError {
        kind: FramingErrorKind::MissingSeparator,
        consumed: 3,
    });
    assert_eq!(
        framing.message(),
        "failed to parse response header: colon missing in LSP response header"
    );
    assert_eq!(
        LspError::RequestTimeout("payload".to_string(), 5).message(),
        "received no response for blocking request: payload"
    );
    assert_eq!(
        LspError::ProcessSpawn("reason".to_string()).message(),
        "failed to spawn LSP server: reason"
    );
    assert_eq!(LspError::ChannelClosed.message(), "channel closed");
    assert_eq!(
        LspError::HandshakeFailure("r".to_string()).message(),
        "handshake failed: r"
    );
    assert_eq!(LspError::Encode("e".to_string()).message(), "e");
    assert_eq!(LspError::Decode("d".to_string()).message(), "d");
    assert_eq!(LspError::Report("r".to_string()).message(), "r");
    assert_eq!(LspError::Position("p".to_string()).message(), "p");
    assert_eq!(LspError::ErrorResponse("x".to_string()).message(), "x");
    assert_eq!(
        LspError::Settings(SqlFriendError::Unknown("invalid port: x".to_string())).message(),
        "invalid port: x"
    );
    for kind in [
        FramingErrorKind::InvalidContentLength,
        FramingErrorKind::MissingContentLength,
        FramingErrorKind::UnexpectedEof,
    ] {
        assert!(kind.as_str().contains("LSP response"));
    }
}

#[test]
fn only_framing_and_channel_errors_end_the_session() {
    assert!(LspError::ChannelClosed.fatal());
    assert!(LspError::Framing(FramingError {
        kind: FramingErrorKind::UnexpectedEof,
        consumed: 0
    })
    .fatal());
    for error in [
        LspError::RequestTimeout("p".to_string(), 5),
        LspError::HandshakeFailure("h".to_string()),
        LspError::Report("m".to_string()),
        LspError::ProcessSpawn("s".to_string()),
        LspError::Decode("d".to_string()),
    ] {
        assert!(!error.fatal(), "{error:?}");
    }
}

#[test]
fn statements_end_with_a_semicolon() {
    assert_eq!(validate_statement("SELECT 1;"), Validation::Valid);
    assert_eq!(validate_statement(";"), Validation::Valid);
    assert_eq!(validate_statement("SELECT 1"), Validation::Incomplete);
    assert_eq!(validate_statement("SELECT 1; "), Validation::Incomplete);
    assert_eq!(validate_statement(""), Validation::Incomplete);
    assert_eq!(validate_statement("/help"), Validation::Valid);
    assert_eq!(validate_statement("/"), Validation::Valid);
}

#[test]
fn second_validation_counts_if_the_first_is_valid() {
    let valid = Validation::Valid;
    let incomplete = Validation::Incomplete;
    assert_eq!(chain_validation(valid, valid), valid);
    assert_eq!(chain_validation(valid, incomplete), incomplete);
    assert_eq!(chain_validation(incomplete, valid), incomplete);
    assert_eq!(chain_validation(incomplete, incomplete), incomplete);
}

#[test]
fn prompt_shows_the_connection() {
    assert_eq!(get_prompt(None), "sqlfriend> ");
    assert_eq!(get_prompt(Some("prod")), "prod> ");
}

#[test]
fn text_helpers_compare() {
    assert!(str_eq("", ""));
    assert!(str_eq("añb", "añb"));
    assert!(!str_eq("a", "A"));
    assert!(!str_eq("a", "ab"));
    assert!(bytes_eq(b"ab", b"ab"));
    assert!(!bytes_eq(b"ab", b"ac"));
    assert!(str_starts_with("/delete x", "/delete "));
    assert!(!str_starts_with("/delet", "/delete "));
    assert!(starts_with(&['a', 'b'], &['a']));
    assert!(!starts_with(&['a', 'b'], &['b']));
    assert_eq!(chars_of("aé"), vec!['a', 'é']);
}

#[test]
fn text_helpers_split() {
    let pieces = |line: &str| -> Vec<String> { split_at_char(line, ' ') };
    assert_eq!(pieces(""), vec![""]);
    assert_eq!(pieces("a"), vec!["a"]);
    assert_eq!(pieces("a b"), vec!["a", "b"]);
    assert_eq!(pieces(" a  b "), vec!["", "a", "", "b", ""]);
    for line in ["", " ", "a b c", "  x", "é è"] {
        let expected: Vec<String> = line.split(' ').map(|s| s.to_string()).collect();
        assert_eq!(pieces(line), expected);
    }
}

#[test]
fn text_helpers_read_numbers_and_lines() {
    assert_eq!(parse_decimal_range(b"x123y", 1, 4), Some(123));
    assert_eq!(parse_decimal_range(b"x123y", 1, 5), None);
    assert_eq!(parse_decimal_range(b"+", 0, 1), None);
    assert_eq!(parse_decimal_range(b"", 0, 0), None);
    assert_eq!(
        parse_decimal_range(b"18446744073709551615", 0, 20),
        Some(18446744073709551615)
    );
    assert_eq!(parse_decimal_range(b"18446744073709551616", 0, 20), None);
    assert_eq!(find_byte(b"a:b:c", 0, 5, b':'), 1);
    assert_eq!(find_byte(b"a:b:c", 2, 5, b':'), 3);
    assert_eq!(find_byte(b"a:b:c", 4, 5, b':'), 5);
    assert!(has_crlf(b"a\r\nb"));
    assert!(!has_crlf(b"a\rb\n"));
    assert!(!has_crlf(b"\r"));
    let span = read_line(b"ab\r\ncd", 0);
    assert_eq!((span.next, span.len), (4, 2));
    let span = read_line(b"ab\r\ncd", 4);
    assert_eq!((span.next, span.len), (6, 2));
    let span = read_line(b"\n", 0);
    assert_eq!((span.next, span.len), (1, 0));
}
