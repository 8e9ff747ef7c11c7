use sqlfriend_core::config::{Connection, ConnectionSettings, LspServerType};
use sqlfriend_core::error::{LspError, SqlFriendError};
use sqlfriend_core::lsp::client::{
    check_initialize_result, fallback_labels, first_success, parse_completion, LspClient,
    PendingRequest, RequestEvent, RequestStep, REQUEST_TIMEOUT_SECS,
};
use sqlfriend_core::lsp::response::read_body;
use sqlfriend_core::state::State;

fn json(text: &str) -> serde_json::Value {
    serde_json::from_str(text).unwrap()
}

fn content(payload: &str) -> serde_json::Value {
    let frame = read_body(payload.as_bytes()).unwrap();
    assert_eq!(frame.consumed, payload.len());
    serde_json::from_slice(&frame.body).unwrap()
}

fn pending(id: &str) -> PendingRequest {
    PendingRequest {
        id: id.to_string(),
        payload: format!("payload of {id}"),
    }
}

fn message(text: &str) -> RequestEvent {
    RequestEvent::Message(text.as_bytes().to_vec())
}

/// Feeds the events to the request until it is done.
fn run(request: &PendingRequest, events: &[RequestEvent]) -> Option<Result<serde_json::Value, LspError>> {
    for event in events {
        if let RequestStep::Done(result) = request.on_event(event.clone()) {
            return Some(result);
        }
    }
    None
}

#[test]
fn matching_response_ends_the_request() {
    assert_eq!(
        pending("a").on_event(message(r#"{"jsonrpc":"2.0","id":"a","result":{"x":1}}"#)),
        RequestStep::Done(Ok(json(r#"{"x":1}"#)))
    );
}

#[test]
fn response_without_version_is_taken_too() {
    assert_eq!(
        pending("a").on_event(message(r#"{"id":"a","result":null}"#)),
        RequestStep::Done(Ok(json("null")))
    );
}

#[test]
fn other_ids_are_passed_over() {
    for text in [
        r#"{"jsonrpc":"2.0","id":"b","result":1}"#,
        r#"{"jsonrpc":"2.0","id":7,"result":1}"#,
        r#"{"jsonrpc":"2.0","id":null,"result":1}"#,
        r#"{"jsonrpc":"2.0","id":"A","result":1}"#,
    ] {
        assert_eq!(pending("a").on_event(message(text)), RequestStep::Wait, "{text}");
    }
}

#[test]
fn what_is_no_response_is_passed_over() {
    for text in [
        "",
        "not json",
        r#"{"jsonrpc":"2.0","method":"x","params":{}}"#,
        r#"{"jsonrpc":"2.0","id":"a"}"#,
        r#"{"jsonrpc":"2.0","id":"a","result":1,"error":{"code":1,"message":"m"}}"#,
    ] {
        assert_eq!(pending("a").on_event(message(text)), RequestStep::Wait, "{text}");
    }
}

#[test]
fn error_response_ends_the_request_with_an_error() {
    let step = pending("a").on_event(message(
        r#"{"jsonrpc":"2.0","id":"a","error":{"code":-32601,"message":"no such method"}}"#,
    ));
    match step {
        RequestStep::Done(Err(LspError::ErrorResponse(text))) => {
            assert!(text.contains("no such method"), "{text}");
        }
        other => panic!("{other:?}"),
    }
}

#[test]
fn timeout_ends_the_request() {
    assert_eq!(REQUEST_TIMEOUT_SECS, 5);
    assert_eq!(
        pending("a").on_event(RequestEvent::TimedOut),
        RequestStep::Done(Err(LspError::RequestTimeout(
            "payload of a".to_string(),
            5
        )))
    );
}

#[test]
fn unanswered_request_times_out() {
    let events = [
        message(r#"{"jsonrpc":"2.0","id":"b","result":1}"#),
        message("garbage"),
        RequestEvent::TimedOut,
        message(r#"{"jsonrpc":"2.0","id":"a","result":2}"#),
    ];
    assert_eq!(
        run(&pending("a"), &events),
        Some(Err(LspError::RequestTimeout("payload of a".to_string(), 5)))
    );
}

#[test]
fn closed_channel_ends_the_request() {
    assert_eq!(
        pending("a").on_event(RequestEvent::Closed),
        RequestStep::Done(Err(LspError::ChannelClosed))
    );
}

#[test]
fn each_request_gets_its_own_answer() {
    let interleaved = [
        message(r#"{"jsonrpc":"2.0","method":"note","params":[]}"#),
        message(r#"{"jsonrpc":"2.0","id":"second","result":"for second"}"#),
        message(r#"{"jsonrpc":"2.0","id":"third","result":"for third"}"#),
        message(r#"{"jsonrpc":"2.0","id":"first","result":"for first"}"#),
        message(r#"{"jsonrpc":"2.0","id":"first","result":"too late"}"#),
    ];
    for id in ["first", "second", "third"] {
        assert_eq!(
            run(&pending(id), &interleaved),
            Some(Ok(json(&format!("\"for {id}\"")))),
            "{id}"
        );
    }
    assert_eq!(run(&pending("fourth"), &interleaved), None);
}

#[test]
fn completion_in_the_shape_of_the_protocol() {
    assert_eq!(
        parse_completion(&json(
            r#"[{"label":"SELECT","kind":14},{"label":"FROM","detail":"keyword"}]"#
        )),
        Ok(vec!["SELECT".to_string(), "FROM".to_string()])
    );
    assert_eq!(
        parse_completion(&json(
            r#"{"isIncomplete":false,"items":[{"label":"users"},{"label":"orders"}]}"#
        )),
        Ok(vec!["users".to_string(), "orders".to_string()])
    );
    assert_eq!(parse_completion(&json("[]")), Ok(vec![]));
}

#[test]
fn completion_falls_back_to_labels() {
    // `kind` would have to be a number: only the loose reading takes this.
    let response = json(r#"[{"label":"SELECT","kind":"keyword"},{"label":"FROM","kind":[]}]"#);
    assert_eq!(
        parse_completion(&response),
        Ok(vec!["SELECT".to_string(), "FROM".to_string()])
    );
    assert_eq!(
        fallback_labels(&response),
        Some(vec!["SELECT".to_string(), "FROM".to_string()])
    );
}

#[test]
fn fallback_reads_an_array_of_labelled_objects() {
    assert_eq!(
        fallback_labels(&json(r#"[{"label":"SELECT"},{"label":"FROM"}]"#)),
        Some(vec!["SELECT".to_string(), "FROM".to_string()])
    );
    assert_eq!(fallback_labels(&json("[]")), Some(vec![]));
    for text in [
        r#"{"label":"SELECT"}"#,
        r#"[{"label":"SELECT"},{"name":"FROM"}]"#,
        r#"[{"label":"SELECT"},{"label":5}]"#,
        r#"[{"label":"SELECT"},"FROM"]"#,
        r#""SELECT""#,
        "null",
        "3",
    ] {
        assert_eq!(fallback_labels(&json(text)), None, "{text}");
    }
}

#[test]
fn completion_that_nothing_reads_is_an_error() {
    for text in [r#"[{"label":1}]"#, r#"{"items":3}"#, "17", r#"[["label"]]"#] {
        match parse_completion(&json(text)) {
            Err(LspError::Decode(reason)) => {
                assert!(
                    reason.starts_with("failed parsing completion response: "),
                    "{reason}"
                );
            }
            other => panic!("{text}: {other:?}"),
        }
    }
    assert_eq!(
        parse_completion(&json("17")),
        Err(LspError::Decode(
            "failed parsing completion response: Number(17)".to_string()
        ))
    );
}

#[test]
fn first_success_wins() {
    let strict = vec!["a".to_string()];
    let loose = vec!["b".to_string()];
    assert_eq!(
        first_success(Some(strict.clone()), Some(loose.clone()), "r".to_string()),
        Ok(strict.clone())
    );
    assert_eq!(
        first_success(Some(strict.clone()), None, "r".to_string()),
        Ok(strict)
    );
    assert_eq!(
        first_success(None, Some(loose.clone()), "r".to_string()),
        Ok(loose)
    );
    assert_eq!(
        first_success(None, None, "r".to_string()),
        Err(LspError::Decode("r".to_string()))
    );
}

#[test]
fn initialize_result_is_checked() {
    assert_eq!(
        check_initialize_result(&json(r#"{"capabilities":{}}"#)),
        Ok(())
    );
    assert_eq!(
        check_initialize_result(&json(
            r#"{"capabilities":{"completionProvider":{}},"serverInfo":{"name":"sqls"}}"#
        )),
        Ok(())
    );
    for text in ["null", "[]", r#"{"capabilities":3}"#, "{}"] {
        assert_eq!(
            check_initialize_result(&json(text)),
            Err(LspError::Decode(
                "failed to deserialize server response".to_string()
            )),
            "{text}"
        );
    }
}

#[test]
fn client_starts_uninitialized() {
    let mut client = LspClient::new();
    assert_eq!(client.document_uri, "repl:///repl");
    assert!(!client.is_initialized());
    client.mark_initialized();
    assert!(client.is_initialized());
    assert_eq!(client.document_uri, "repl:///repl");
    // A new session starts without the flag of the old one.
    client.forget_session();
    assert!(!client.is_initialized());
    assert_eq!(client.document_uri, "repl:///repl");
}

#[test]
fn on_change_overwrites_the_document() {
    let client = LspClient::new();
    let mut state = State::default();
    assert_eq!(state.lsp_text, "");
    let payload = client.on_change(&mut state, "SELECT 1").unwrap();
    assert_eq!(state.lsp_text, "SELECT 1");
    assert_eq!(
        content(&payload),
        json(
            r#"{"jsonrpc":"2.0","method":"textDocument/didChange","params":{
                "textDocument":{"uri":"repl:///repl","version":1},
                "contentChanges":[{"text":"SELECT 1"}]}}"#
        )
    );
    client.on_change(&mut state, "x").unwrap();
    assert_eq!(state.lsp_text, "x");
}

#[test]
fn on_change_leaves_the_document_where_it_cannot_write() {
    let client = LspClient {
        document_uri: "no url".to_string(),
        initialized: true,
    };
    let mut state = State {
        lsp_text: "before".to_string(),
    };
    assert!(matches!(
        client.on_change(&mut state, "after"),
        Err(LspError::Encode(_))
    ));
    assert_eq!(state.lsp_text, "before");
}

#[test]
fn request_completion_builds_a_waiting_request() {
    let client = LspClient::new();
    let pending = client.request_completion(2, 5).unwrap();
    let message = content(&pending.payload);
    assert_eq!(message["id"], pending.id.as_str());
    assert_eq!(message["method"], "textDocument/completion");
    assert_eq!(
        message["params"],
        json(r#"{"textDocument":{"uri":"repl:///repl"},"position":{"line":2,"character":5}}"#)
    );
    // The answer under this id ends the request.
    let answer = format!(r#"{{"jsonrpc":"2.0","id":"{}","result":[]}}"#, pending.id);
    assert_eq!(
        pending.on_event(message_of(&answer)),
        RequestStep::Done(Ok(json("[]")))
    );
}

fn message_of(text: &str) -> RequestEvent {
    RequestEvent::Message(text.as_bytes().to_vec())
}

#[test]
fn handshake_starts_with_initialize() {
    let client = LspClient::new();
    let connection = Connection {
        name: "local".to_string(),
        settings: ConnectionSettings::Sqlite {
            filename: "db".to_string(),
        },
    };
    let pending = client
        .init_lsp_server(&LspServerType::Sqls, connection.clone())
        .unwrap();
    let message = content(&pending.payload);
    assert_eq!(message["id"], pending.id.as_str());
    assert_eq!(message["method"], "initialize");
    assert_eq!(
        message["params"]["initializationOptions"],
        json(r#"{"connectionConfig":{"driver":"sqlite3","dataSourceName":"file:db"}}"#)
    );

    let pending = client
        .init_lsp_server(&LspServerType::PgTools, connection)
        .unwrap();
    assert_eq!(
        content(&pending.payload)["params"].get("initializationOptions"),
        None
    );
}

#[test]
fn handshake_fails_on_unusable_settings() {
    let connection = Connection {
        name: "my".to_string(),
        settings: ConnectionSettings::MySql {
            host: "h".to_string(),
            port: Some("port".to_string()),
            user: None,
            password: None,
            database: None,
        },
    };
    assert_eq!(
        LspClient::new().init_lsp_server(&LspServerType::SqlLs, connection),
        Err(LspError::Settings(SqlFriendError::Unknown(
            "invalid port: port".to_string()
        )))
    );
}

#[test]
fn handshake_goes_on_with_initialized_and_did_open() {
    let client = LspClient::new();
    let payloads = client
        .handshake_notifications(&json(r#"{"capabilities":{}}"#))
        .unwrap();
    assert_eq!(payloads.len(), 2);
    assert_eq!(
        payloads[0],
        "Content-Length: 52\r\n\r\n{\"jsonrpc\":\"2.0\",\"method\":\"initialized\",\"params\":{}}"
    );
    assert_eq!(
        content(&payloads[1]),
        json(
            r#"{"jsonrpc":"2.0","method":"textDocument/didOpen","params":{"textDocument":
                {"uri":"repl:///repl","languageId":"sql","version":1,"text":""}}}"#
        )
    );
    // The flag is set by the last step only.
    assert!(!client.is_initialized());
}

#[test]
fn handshake_stops_on_a_bad_answer() {
    assert_eq!(
        LspClient::new().handshake_notifications(&json("[1,2]")),
        Err(LspError::Decode(
            "failed to deserialize server response".to_string()
        ))
    );
}
