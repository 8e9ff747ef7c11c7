use sqlfriend_core::error::LspError;
use sqlfriend_core::lsp::payload::{
    completion, create_notification, create_request, did_change, did_open, initialize,
    initialized, LspPayload, Notification, Request,
};
use sqlfriend_core::lsp::response::read_body;

fn json(text: &str) -> serde_json::Value {
    serde_json::from_str(text).unwrap()
}

/// The JSON document inside a payload.
fn content(payload: &str) -> serde_json::Value {
    let frame = read_body(payload.as_bytes()).unwrap();
    assert_eq!(frame.consumed, payload.len());
    serde_json::from_slice(&frame.body).unwrap()
}

#[test]
fn request_payload_is_framed_json_rpc() {
    let request = Request {
        id: "abc".to_string(),
        method: "some/method".to_string(),
        params: r#"{"k":[1,2]}"#.to_string(),
    };
    assert_eq!(
        request.to_payload(),
        Ok(
            "Content-Length: 72\r\n\r\n{\"jsonrpc\":\"2.0\",\"id\":\"abc\",\"method\":\"some/method\",\"params\":{\"k\":[1,2]}}"
                .to_string()
        )
    );
}

#[test]
fn notification_payload_is_framed_json_rpc() {
    let notification = Notification {
        method: "note".to_string(),
        params: "{}".to_string(),
    };
    assert_eq!(
        notification.to_payload(),
        Ok("Content-Length: 45\r\n\r\n{\"jsonrpc\":\"2.0\",\"method\":\"note\",\"params\":{}}".to_string())
    );
}

#[test]
fn payload_refuses_params_that_are_not_json() {
    let request = Request {
        id: "abc".to_string(),
        method: "m".to_string(),
        params: "{not json".to_string(),
    };
    assert!(matches!(request.to_payload(), Err(LspError::Encode(_))));
    let notification = Notification {
        method: "m".to_string(),
        params: "".to_string(),
    };
    assert!(matches!(notification.to_payload(), Err(LspError::Encode(_))));
}

#[test]
fn requests_get_fresh_ids() {
    let first = create_request("m", "{}".to_string());
    let second = create_request("m", "{}".to_string());
    assert_eq!(first.method, "m");
    assert_eq!(first.params, "{}");
    assert_eq!(first.id.len(), 36);
    assert_eq!(second.id.len(), 36);
    assert_ne!(first.id, second.id);
    assert_eq!(
        create_notification("n", "[]".to_string()),
        Notification {
            method: "n".to_string(),
            params: "[]".to_string()
        }
    );
}

#[test]
fn initialize_carries_the_options() {
    let options = json(r#"{"connectionConfig":{"driver":"sqlite3"}}"#);
    let request = initialize(Some(options.clone())).unwrap();
    assert_eq!(request.method, "initialize");
    let params = json(&request.params);
    assert_eq!(params["initializationOptions"], options);
    assert_eq!(params["capabilities"], json("{}"));

    let message = content(&request.to_payload().unwrap());
    assert_eq!(message["jsonrpc"], "2.0");
    assert_eq!(message["id"], request.id.as_str());
    assert_eq!(message["method"], "initialize");
    assert_eq!(message["params"], params);
}

#[test]
fn initialize_without_options_leaves_them_out() {
    let request = initialize(None).unwrap();
    let params = json(&request.params);
    assert_eq!(params.get("initializationOptions"), None);
}

#[test]
fn initialized_has_empty_params() {
    assert_eq!(
        initialized(),
        Ok(Notification {
            method: "initialized".to_string(),
            params: "{}".to_string()
        })
    );
}

#[test]
fn did_open_opens_an_sql_document() {
    let notification = did_open("repl:///repl", "SELECT 1;").unwrap();
    assert_eq!(notification.method, "textDocument/didOpen");
    assert_eq!(
        json(&notification.params),
        json(
            r#"{"textDocument":{"uri":"repl:///repl","languageId":"sql","version":1,"text":"SELECT 1;"}}"#
        )
    );
}

#[test]
fn did_change_sends_the_whole_text() {
    let notification = did_change("repl:///repl", 1, "SELECT *\nFROM t").unwrap();
    assert_eq!(notification.method, "textDocument/didChange");
    assert_eq!(
        json(&notification.params),
        json(
            r#"{"textDocument":{"uri":"repl:///repl","version":1},"contentChanges":[{"text":"SELECT *\nFROM t"}]}"#
        )
    );
}

#[test]
fn completion_asks_at_a_position() {
    let request = completion("repl:///repl", 3, 14).unwrap();
    assert_eq!(request.method, "textDocument/completion");
    assert_eq!(
        json(&request.params),
        json(r#"{"textDocument":{"uri":"repl:///repl"},"position":{"line":3,"character":14}}"#)
    );
}

#[test]
fn builders_refuse_what_is_no_url() {
    assert!(matches!(did_open("no url", ""), Err(LspError::Encode(_))));
    assert!(matches!(did_change("", 1, ""), Err(LspError::Encode(_))));
    assert!(matches!(completion("::", 0, 0), Err(LspError::Encode(_))));
}
