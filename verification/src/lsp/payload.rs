use vstd::prelude::*;
use vstd::string::StringExecFns;
use vstd::utf8::{encode_utf8, is_ascii_chars, is_ascii_chars_encode_utf8};
use crate::error::LspError;
use crate::json::{json_of, Json};
use crate::lsp::response::{
    declared_length, framed, header_line, is_blank, is_content_length, is_space,
    is_terminated_line, join_lines, lemma_framing_recovers_body, trim, trim_end, trim_start,
    FramingErrorKind, HeaderLine,
};
use crate::text::{
    all_digits, decimal_text, digit_char, digits_value, is_digit, lemma_index_of_at,
    unsigned_digits,
};

verus! {

/// `Content-Length: `, the start of the one header line that is written.
pub open spec fn header_prefix() -> Seq<char> {
    seq!['C', 'o', 'n', 't', 'e', 'n', 't', '-', 'L', 'e', 'n', 'g', 't', 'h', ':', ' ']
}

/// The end of a line: carriage return, line feed.
pub open spec fn line_break() -> Seq<char> {
    seq!['\r', '\n']
}

/// The text that goes over the wire for a message with the given content:
/// a `Content-Length` line with the number of bytes of the content in UTF-8,
/// a blank line, then the content itself.
pub open spec fn payload_text(content: Seq<char>) -> Seq<char> {
    header_prefix() + decimal_text(encode_utf8(content).len()) + line_break() + line_break()
        + content
}

fn digit_str(d: usize) -> (r: &'static str)
    requires
        d < 10,
    ensures
        r@ == seq![digit_char(d as nat)],
{
    proof {
        reveal_strlit("0");
        reveal_strlit("1");
        reveal_strlit("2");
        reveal_strlit("3");
        reveal_strlit("4");
        reveal_strlit("5");
        reveal_strlit("6");
        reveal_strlit("7");
        reveal_strlit("8");
        reveal_strlit("9");
    }
    if d == 0 {
        "0"
    } else if d == 1 {
        "1"
    } else if d == 2 {
        "2"
    } else if d == 3 {
        "3"
    } else if d == 4 {
        "4"
    } else if d == 5 {
        "5"
    } else if d == 6 {
        "6"
    } else if d == 7 {
        "7"
    } else if d == 8 {
        "8"
    } else {
        "9"
    }
}

/// Appends the decimal digits of `n` to `out`.
pub fn push_decimal(out: &mut String, n: usize)
    ensures
        final(out)@ == old(out)@ + decimal_text(n as nat),
    decreases n,
{
    if n >= 10 {
        push_decimal(out, n / 10);
    }
    out.append(digit_str(n % 10));
}

/// Puts the framing header in front of `content`.
pub fn frame(content: &str) -> (r: String)
    ensures
        r@ == payload_text(content@),
{
    proof {
        reveal_strlit("Content-Length: ");
        reveal_strlit("\r\n\r\n");
    }
    let mut out = String::from_str("Content-Length: ");
    let n = content.as_bytes().len();
    push_decimal(&mut out, n);
    out.append("\r\n\r\n");
    out.append(content);
    out
}

/// The UTF-8 encoding of a text is that of its parts, one after the other.
pub proof fn lemma_encode_concat(a: Seq<char>, b: Seq<char>)
    ensures
        encode_utf8(a + b) == encode_utf8(a) + encode_utf8(b),
    decreases a.len(),
{
    if a.len() > 0 {
        assert((a + b).drop_first() =~= a.drop_first() + b);
        lemma_encode_concat(a.drop_first(), b);
    }
}

proof fn lemma_decimal_text_digits(n: nat)
    ensures
        decimal_text(n).len() >= 1,
        forall|i: int|
            0 <= i < decimal_text(n).len() ==> 48 <= (#[trigger] decimal_text(n)[i]) as u8 <= 57,
        is_ascii_chars(decimal_text(n)),
    decreases n,
{
    if n >= 10 {
        lemma_decimal_text_digits(n / 10);
    }
}

proof fn lemma_decimal_value(n: nat)
    ensures
        digits_value(encode_utf8(decimal_text(n))) == n,
        all_digits(encode_utf8(decimal_text(n))),
        encode_utf8(decimal_text(n)).len() == decimal_text(n).len(),
    decreases n,
{
    let text = decimal_text(n);
    let bytes = encode_utf8(text);
    lemma_decimal_text_digits(n);
    is_ascii_chars_encode_utf8(text);
    assert forall|i: int| 0 <= i < bytes.len() implies is_digit(#[trigger] bytes[i]) by {}
    if n < 10 {
        assert(digits_value(bytes.drop_last()) == 0);
    } else {
        let shorter = decimal_text(n / 10);
        lemma_decimal_value(n / 10);
        lemma_decimal_text_digits(n / 10);
        is_ascii_chars_encode_utf8(shorter);
        assert(bytes.drop_last() =~= encode_utf8(shorter)) by {
            assert forall|i: int| 0 <= i < shorter.len() implies bytes.drop_last()[i]
                == encode_utf8(shorter)[i] by {}
        }
    }
}

/// The header line that `frame` writes is read as a `Content-Length` field
/// with the value that was written.
proof fn lemma_content_length_line(n: nat)
    requires
        n <= usize::MAX,
    ensures
        is_terminated_line(encode_utf8(header_prefix() + decimal_text(n) + line_break())),
        header_line(encode_utf8(header_prefix() + decimal_text(n) + line_break())) == Ok::<
            HeaderLine,
            FramingErrorKind,
        >(HeaderLine::ContentLength(n as usize)),
{
    let digits_text = decimal_text(n);
    let text = header_prefix() + digits_text + line_break();
    let line = encode_utf8(text);
    let k = digits_text.len() as int;
    lemma_decimal_text_digits(n);
    lemma_decimal_value(n);
    let digits = encode_utf8(digits_text);
    is_ascii_chars_encode_utf8(digits_text);
    is_ascii_chars_encode_utf8(text);
    assert forall|i: int| 0 <= i < line.len() implies #[trigger] line[i] == text[i] as u8 by {}
    assert(line[0] == 67 && line[1] == 111 && line[2] == 110 && line[3] == 116 && line[4] == 101
        && line[5] == 110 && line[6] == 116 && line[7] == 45);
    assert(line[8] == 76 && line[9] == 101 && line[10] == 110 && line[11] == 103 && line[12]
        == 116 && line[13] == 104 && line[14] == 58 && line[15] == 32);
    assert forall|i: int| 0 <= i < k implies #[trigger] line[16 + i] == digits[i] by {}
    assert forall|j: int| 0 <= j < 17 + k implies line[j] != 10 by {}
    lemma_index_of_at(line, 10u8, 17 + k);
    lemma_index_of_at(line, 58u8, 14);
    // The key.
    let key = line.subrange(0, 14);
    assert(is_content_length(key)) by {
        assert(key[0] == 67 && key[1] == 111 && key[2] == 110 && key[3] == 116 && key[4] == 101
            && key[5] == 110 && key[6] == 116 && key[7] == 45);
        assert(key[8] == 76 && key[9] == 101 && key[10] == 110 && key[11] == 103 && key[12]
            == 116 && key[13] == 104);
    }
    // The value.
    let value = line.subrange(15, line.len() as int);
    let unpadded = value.drop_first();
    assert(trim_start(unpadded) == unpadded);
    let without_lf = unpadded.drop_last();
    let without_cr = without_lf.drop_last();
    assert(without_cr =~= digits);
    assert(trim_end(without_cr) == without_cr);
    assert(trim_end(without_lf) == without_cr);
}

/// What `frame` writes, framing reads back: the first message of the
/// encoded payload, whatever follows it, is the encoded content.
pub proof fn lemma_frame_round_trip(content: Seq<char>, rest: Seq<u8>)
    requires
        encode_utf8(content).len() <= usize::MAX,
    ensures
        framed(encode_utf8(payload_text(content)) + rest) == Ok::<
            (Seq<u8>, int),
            (FramingErrorKind, int),
        >((encode_utf8(content), encode_utf8(payload_text(content)).len() as int)),
{
    let body = encode_utf8(content);
    let n = body.len();
    let line_text = header_prefix() + decimal_text(n) + line_break();
    let line = encode_utf8(line_text);
    let blank = encode_utf8(line_break());
    lemma_content_length_line(n);
    is_ascii_chars_encode_utf8(line_break());
    lemma_index_of_at(blank, 10u8, 1);
    lemma_encode_concat(line_text, line_break());
    lemma_encode_concat(line_text + line_break(), content);
    let fields = seq![line];
    assert(join_lines(fields.drop_first()) =~= Seq::<u8>::empty());
    assert(declared_length(fields.drop_first(), Some(n as usize)) == Some(n as usize));
    lemma_framing_recovers_body(fields, blank, body, rest);
}

/// A request: it carries an id under which the answer will come.
#[derive(Debug, Clone, PartialEq, Eq)]
pub struct Request {
    pub id: String,
    pub method: String,
    /// The parameters, as JSON text.
    pub params: String,
}

/// A notification: it is sent and not answered.
#[derive(Debug, Clone, PartialEq, Eq)]
pub struct Notification {
    pub method: String,
    /// The parameters, as JSON text.
    pub params: String,
}

/// The JSON text of a JSON-RPC request with a string id, or `None` where
/// `params` is not JSON.
pub uninterp spec fn request_json(id: Seq<char>, method: Seq<char>, params: Seq<char>) -> Option<
    Seq<char>,
>;

/// The JSON text of a JSON-RPC notification, or `None` where `params` is not
/// JSON.
pub uninterp spec fn notification_json(method: Seq<char>, params: Seq<char>) -> Option<Seq<char>>;

/// The JSON text of the parameters of `initialize` with the given options.
pub uninterp spec fn initialize_params(options: Option<Json>) -> Option<Seq<char>>;

/// The JSON text of the parameters of `textDocument/didOpen`, or `None`
/// where `uri` is no URL.
pub uninterp spec fn did_open_params(
    uri: Seq<char>,
    language_id: Seq<char>,
    version: i32,
    text: Seq<char>,
) -> Option<Seq<char>>;

/// The JSON text of the parameters of `textDocument/didChange` for a change
/// of the whole document, or `None` where `uri` is no URL.
pub uninterp spec fn did_change_params(uri: Seq<char>, version: i32, text: Seq<char>) -> Option<
    Seq<char>,
>;

/// The JSON text of the parameters of `textDocument/completion`, or `None`
/// where `uri` is no URL.
pub uninterp spec fn completion_params(uri: Seq<char>, line: u32, character: u32) -> Option<
    Seq<char>,
>;

/// `uuid::Uuid::new_v4`, written out by its `Display`: a fresh random
/// identifier, in the hyphenated form of 36 characters. Nothing else is
/// known of it.
#[verifier::external_body]
fn generate_uuid() -> (id: String)
    ensures
        id@.len() == 36,
{
    uuid::Uuid::new_v4().to_string()
}

/// `serde_json::to_string` of a `jsonrpsee_types::RequestSer` made by
/// `RequestSer::owned` with a string id and the parameters as raw JSON
/// (`RawValue::from_string`, which refuses text that is not JSON).
#[verifier::external_body]
fn request_text(id: &str, method: &str, params: &str) -> (r: Result<String, String>)
    ensures
        match request_json(id@, method@, params@) {
            Some(text) => r matches Ok(s) && s@ == text,
            None => r is Err,
        },
{
    let raw = serde_json::value::RawValue::from_string(params.to_string()).map_err(
        |e| e.to_string(),
    )?;
    let id = jsonrpsee_types::Id::Str(std::borrow::Cow::from(id));
    let request = jsonrpsee_types::RequestSer::owned(id, method, Some(raw));
    serde_json::to_string(&request).map_err(|e| e.to_string())
}

/// `serde_json::to_string` of a `jsonrpsee_types::NotificationSer` made by
/// `NotificationSer::owned` with the parameters as raw JSON.
#[verifier::external_body]
fn notification_text(method: &str, params: &str) -> (r: Result<String, String>)
    ensures
        match notification_json(method@, params@) {
            Some(text) => r matches Ok(s) && s@ == text,
            None => r is Err,
        },
{
    let raw = serde_json::value::RawValue::from_string(params.to_string()).map_err(
        |e| e.to_string(),
    )?;
    let notification = jsonrpsee_types::NotificationSer::owned(method, Some(raw));
    serde_json::to_string(&notification).map_err(|e| e.to_string())
}

/// `serde_json::to_string` of an `lsp_types::InitializeParams` that holds
/// the given initialization options and is otherwise the default.
#[verifier::external_body]
fn initialize_params_text(options: Option<serde_json::Value>) -> (r: Result<String, String>)
    ensures
        match initialize_params(option_json(options)) {
            Some(text) => r matches Ok(s) && s@ == text,
            None => r is Err,
        },
{
    let params = lsp_types::InitializeParams {
        initialization_options: options,
        ..Default::default()
    };
    serde_json::to_string(&params).map_err(|e| e.to_string())
}

/// `serde_json::to_string` of an `lsp_types::InitializedParams`, which has
/// no fields: the empty object. Writing a value without fields into a
/// string has nothing to fail on.
#[verifier::external_body]
fn initialized_params_text() -> (r: Result<String, String>)
    ensures
        r is Ok,
        r->Ok_0@ == "{}"@,
{
    serde_json::to_string(&lsp_types::InitializedParams {}).map_err(|e| e.to_string())
}

/// `serde_json::to_string` of an `lsp_types::DidOpenTextDocumentParams` for
/// the document at `uri` (read by `Url::parse`).
#[verifier::external_body]
fn did_open_params_text(uri: &str, language_id: &str, version: i32, text: &str) -> (r: Result<
    String,
    String,
>)
    ensures
        match did_open_params(uri@, language_id@, version, text@) {
            Some(text) => r matches Ok(s) && s@ == text,
            None => r is Err,
        },
{
    let uri = lsp_types::Url::parse(uri).map_err(|e| e.to_string())?;
    let text_document = lsp_types::TextDocumentItem {
        uri,
        language_id: language_id.to_string(),
        version,
        text: text.to_string(),
    };
    let params = lsp_types::DidOpenTextDocumentParams { text_document };
    serde_json::to_string(&params).map_err(|e| e.to_string())
}

/// `serde_json::to_string` of an `lsp_types::DidChangeTextDocumentParams`
/// with one change that has no range: `text` is the whole document.
#[verifier::external_body]
fn did_change_params_text(uri: &str, version: i32, text: &str) -> (r: Result<String, String>)
    ensures
        match did_change_params(uri@, version, text@) {
            Some(text) => r matches Ok(s) && s@ == text,
            None => r is Err,
        },
{
    let uri = lsp_types::Url::parse(uri).map_err(|e| e.to_string())?;
    let text_document = lsp_types::VersionedTextDocumentIdentifier { uri, version };
    let change = lsp_types::TextDocumentContentChangeEvent {
        range: None,
        range_length: None,
        text: text.to_string(),
    };
    let params = lsp_types::DidChangeTextDocumentParams {
        text_document,
        content_changes: vec![change],
    };
    serde_json::to_string(&params).map_err(|e| e.to_string())
}

/// `serde_json::to_string` of an `lsp_types::CompletionParams` for the
/// given position, without a context and with default progress parameters.
#[verifier::external_body]
fn completion_params_text(uri: &str, line: u32, character: u32) -> (r: Result<String, String>)
    ensures
        match completion_params(uri@, line, character) {
            Some(text) => r matches Ok(s) && s@ == text,
            None => r is Err,
        },
{
    let uri = lsp_types::Url::parse(uri).map_err(|e| e.to_string())?;
    let params = lsp_types::CompletionParams {
        text_document_position: lsp_types::TextDocumentPositionParams {
            text_document: lsp_types::TextDocumentIdentifier { uri },
            position: lsp_types::Position { line, character },
        },
        work_done_progress_params: Default::default(),
        partial_result_params: Default::default(),
        context: None,
    };
    serde_json::to_string(&params).map_err(|e| e.to_string())
}

/// The document that an optional JSON value holds.
pub open spec fn option_json(v: Option<serde_json::Value>) -> Option<Json> {
    match v {
        Some(v) => Some(json_of(v)),
        None => None,
    }
}

/// A message that can be written to the server.
pub trait LspPayload {
    /// The JSON text of the message, or `None` where it cannot be written.
    spec fn json(&self) -> Option<Seq<char>>;

    /// The message as it goes over the wire: its JSON text behind the
    /// framing header.
    fn to_payload(&self) -> (r: Result<String, LspError>)
        ensures
            match self.json() {
                Some(content) => r matches Ok(payload) && payload@ == payload_text(content),
                None => r matches Err(LspError::Encode(_)),
            },
    ;
}

impl LspPayload for Request {
    open spec fn json(&self) -> Option<Seq<char>> {
        request_json(self.id@, self.method@, self.params@)
    }

    fn to_payload(&self) -> (r: Result<String, LspError>) {
        match request_text(self.id.as_str(), self.method.as_str(), self.params.as_str()) {
            Ok(content) => Ok(frame(content.as_str())),
            Err(reason) => Err(LspError::Encode(reason)),
        }
    }
}

impl LspPayload for Notification {
    open spec fn json(&self) -> Option<Seq<char>> {
        notification_json(self.method@, self.params@)
    }

    fn to_payload(&self) -> (r: Result<String, LspError>) {
        match notification_text(self.method.as_str(), self.params.as_str()) {
            Ok(content) => Ok(frame(content.as_str())),
            Err(reason) => Err(LspError::Encode(reason)),
        }
    }
}

/// Makes a request for `method` under a fresh id.
pub fn create_request(method: &str, params: String) -> (r: Request)
    ensures
        r.method@ == method@,
        r.params == params,
        r.id@.len() == 36,
{
    Request { id: generate_uuid(), method: String::from_str(method), params }
}

/// Makes a notification for `method`.
pub fn create_notification(method: &str, params: String) -> (r: Notification)
    ensures
        r.method@ == method@,
        r.params == params,
{
    Notification { method: String::from_str(method), params }
}

/// Create an `initialize` request with the given initialization options.
pub fn initialize(options: Option<serde_json::Value>) -> (r: Result<Request, LspError>)
    ensures
        match initialize_params(option_json(options)) {
            Some(params) => r matches Ok(request) && request.method@ == "initialize"@
                && request.params@ == params && request.id@.len() == 36,
            None => r matches Err(LspError::Encode(_)),
        },
{
    match initialize_params_text(options) {
        Ok(params) => Ok(create_request("initialize", params)),
        Err(reason) => Err(LspError::Encode(reason)),
    }
}

/// Create an `initialized` notification. Its parameters are the empty
/// object.
pub fn initialized() -> (r: Result<Notification, LspError>)
    ensures
        r matches Ok(notification) && notification.method@ == "initialized"@
            && notification.params@ == "{}"@,
{
    match initialized_params_text() {
        Ok(params) => Ok(create_notification("initialized", params)),
        Err(reason) => Err(LspError::Encode(reason)),
    }
}

/// The language of every document that is opened.
pub open spec fn language_id() -> Seq<char> {
    "sql"@
}

/// The version under which a document is opened.
pub const INITIAL_VERSION: i32 = 1;

/// Create a `textDocument/didOpen` notification for an SQL document in its
/// first version.
pub fn did_open(uri: &str, text: &str) -> (r: Result<Notification, LspError>)
    ensures
        match did_open_params(uri@, language_id(), INITIAL_VERSION, text@) {
            Some(params) => r matches Ok(notification) && notification.method@
                == "textDocument/didOpen"@ && notification.params@ == params,
            None => r matches Err(LspError::Encode(_)),
        },
{
    match did_open_params_text(uri, "sql", INITIAL_VERSION, text) {
        Ok(params) => Ok(create_notification("textDocument/didOpen", params)),
        Err(reason) => Err(LspError::Encode(reason)),
    }
}

/// Create a `textDocument/didChange` notification. `text` is all the text
/// of the document: no ranges are sent.
pub fn did_change(uri: &str, version: i32, text: &str) -> (r: Result<Notification, LspError>)
    ensures
        match did_change_params(uri@, version, text@) {
            Some(params) => r matches Ok(notification) && notification.method@
                == "textDocument/didChange"@ && notification.params@ == params,
            None => r matches Err(LspError::Encode(_)),
        },
{
    match did_change_params_text(uri, version, text) {
        Ok(params) => Ok(create_notification("textDocument/didChange", params)),
        Err(reason) => Err(LspError::Encode(reason)),
    }
}

/// Create a `textDocument/completion` request for a position, line and
/// column counted from zero.
pub fn completion(uri: &str, line: u32, offset: u32) -> (r: Result<Request, LspError>)
    ensures
        match completion_params(uri@, line, offset) {
            Some(params) => r matches Ok(request) && request.method@
                == "textDocument/completion"@ && request.params@ == params && request.id@.len()
                == 36,
            None => r matches Err(LspError::Encode(_)),
        },
{
    match completion_params_text(uri, line, offset) {
        Ok(params) => Ok(create_request("textDocument/completion", params)),
        Err(reason) => Err(LspError::Encode(reason)),
    }
}

} // verus!
