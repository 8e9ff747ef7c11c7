use vstd::prelude::*;
use vstd::string::StringExecFns;
use crate::config::{Connection, LspServerType};
use crate::error::LspError;
use crate::json::{
    json_debug, json_debug_text, json_items, json_member, json_of, json_text, jsons_of, Json,
};
use crate::lsp::payload::{
    completion, completion_params, did_change, did_change_params, did_open, did_open_params,
    initialize, initialize_params, initialized, language_id, notification_json, payload_text,
    request_json, INITIAL_VERSION, LspPayload, Request,
};
use crate::state::State;
use crate::text::{str_eq, texts};

verus! {

/// The id that a response carries.
#[derive(Debug, Clone, PartialEq, Eq)]
pub enum ResponseId {
    Null,
    Number(u64),
    Str(String),
}

/// A response of the server, read but not yet matched with a request: its
/// id, and the result or else the error that it reports.
#[derive(Debug, PartialEq, Eq)]
pub struct RawResponse {
    pub id: ResponseId,
    pub payload: Result<serde_json::Value, String>,
}

/// What a `ResponseId` holds.
pub enum IdModel {
    Null,
    Number(u64),
    Str(Seq<char>),
}

/// What a `RawResponse` holds.
pub struct ResponseModel {
    pub id: IdModel,
    pub payload: Result<Json, Seq<char>>,
}

impl ResponseId {
    pub open spec fn model(self) -> IdModel {
        match self {
            ResponseId::Null => IdModel::Null,
            ResponseId::Number(n) => IdModel::Number(n),
            ResponseId::Str(s) => IdModel::Str(s@),
        }
    }
}

impl RawResponse {
    pub open spec fn model(self) -> ResponseModel {
        ResponseModel {
            id: self.id.model(),
            payload: match self.payload {
                Ok(v) => Ok(json_of(v)),
                Err(e) => Err(e@),
            },
        }
    }
}

/// The response that the message body `body` is, or `None` where it is
/// none: no JSON, no `id`, or neither or both of `result` and `error`.
pub uninterp spec fn response_of(body: Seq<u8>) -> Option<ResponseModel>;

/// `serde_json::from_slice` into a `jsonrpsee_types::Response` with a
/// `serde_json::Value` as its result, taken apart: the id by its three
/// variants, and by `Success::try_from` the result, or else the error
/// object as its `Display` writes it.
#[verifier::external_body]
pub(crate) fn parse_response(body: &[u8]) -> (r: Option<RawResponse>)
    ensures
        match response_of(body@) {
            Some(model) => r matches Some(response) && response.model() == model,
            None => r is None,
        },
{
    let response = serde_json::from_slice::<jsonrpsee_types::Response<serde_json::Value>>(
        body,
    ).ok()?;
    let id = match response.id.clone() {
        jsonrpsee_types::Id::Null => ResponseId::Null,
        jsonrpsee_types::Id::Number(n) => ResponseId::Number(n),
        jsonrpsee_types::Id::Str(s) => ResponseId::Str(s.into_owned()),
    };
    let payload = match jsonrpsee_types::response::Success::try_from(response) {
        Ok(success) => Ok(success.result),
        Err(e) => Err(e.to_string()),
    };
    Some(RawResponse { id, payload })
}

/// How long a request waits for its answer, in seconds.
pub const REQUEST_TIMEOUT_SECS: u64 = 5;

/// A request that has been sent and waits for its answer.
#[derive(Debug, Clone, PartialEq, Eq)]
pub struct PendingRequest {
    /// The id under which the answer will come.
    pub id: String,
    /// The request as it went over the wire.
    pub payload: String,
}

/// What can happen to a waiting request.
#[derive(Debug, Clone, PartialEq, Eq)]
pub enum RequestEvent {
    /// The server sent a response: to this request or to another.
    Message(Vec<u8>),
    /// The time to wait is over.
    TimedOut,
    /// The channel of responses is closed.
    Closed,
}

/// What a waiting request does next.
#[derive(Debug, PartialEq, Eq)]
pub enum RequestStep {
    /// Go on waiting.
    Wait,
    /// The request is over, with the result of the server or an error.
    Done(Result<serde_json::Value, LspError>),
}

/// What a `RequestEvent` holds.
pub enum EventModel {
    Message(Seq<u8>),
    TimedOut,
    Closed,
}

/// How a request ends.
pub enum Outcome {
    /// The server answered with a result.
    Answer(Json),
    /// The server answered with an error.
    ErrorResponse(Seq<char>),
    TimedOut,
    Closed,
}

impl RequestEvent {
    pub open spec fn model(self) -> EventModel {
        match self {
            RequestEvent::Message(body) => EventModel::Message(body@),
            RequestEvent::TimedOut => EventModel::TimedOut,
            RequestEvent::Closed => EventModel::Closed,
        }
    }
}

/// Whether `body` is a response to the request that was sent under `id`.
pub open spec fn answers(body: Seq<u8>, id: Seq<char>) -> bool {
    response_of(body) matches Some(response) && response.id == IdModel::Str(id)
}

/// How a response ends the request that it answers.
pub open spec fn answer_of(body: Seq<u8>) -> Outcome
    recommends
        response_of(body) is Some,
{
    match response_of(body)->0.payload {
        Ok(result) => Outcome::Answer(result),
        Err(error) => Outcome::ErrorResponse(error),
    }
}

/// What one event does to the request sent under `id`: `None` to go on
/// waiting. Only a response with the same id, the end of the waiting time
/// or the end of the channel ends the request.
pub open spec fn step(id: Seq<char>, event: EventModel) -> Option<Outcome> {
    match event {
        EventModel::Message(body) => if answers(body, id) {
            Some(answer_of(body))
        } else {
            None
        },
        EventModel::TimedOut => Some(Outcome::TimedOut),
        EventModel::Closed => Some(Outcome::Closed),
    }
}

/// How the request sent under `id` ends when `events` happen in this
/// order, or `None` where it is still waiting after them.
pub open spec fn outcome(id: Seq<char>, events: Seq<EventModel>) -> Option<Outcome>
    decreases events.len(),
{
    if events.len() == 0 {
        None
    } else {
        match step(id, events[0]) {
            Some(end) => Some(end),
            None => outcome(id, events.drop_first()),
        }
    }
}

/// The responses `bodies` as the events that a waiting request sees.
pub open spec fn arrivals(bodies: Seq<Seq<u8>>) -> Seq<EventModel> {
    bodies.map_values(|body: Seq<u8>| EventModel::Message(body))
}

/// Whether the response at `at` is the first of `bodies` that answers `id`.
pub open spec fn is_first_answer(id: Seq<char>, bodies: Seq<Seq<u8>>, at: int) -> bool {
    &&& 0 <= at < bodies.len()
    &&& answers(bodies[at], id)
    &&& forall|k: int| 0 <= k < at ==> !answers(#[trigger] bodies[k], id)
}

/// A request gets the first response that carries its id, whatever other
/// responses arrive before and after it.
pub proof fn lemma_request_gets_its_answer(id: Seq<char>, bodies: Seq<Seq<u8>>, at: int)
    requires
        is_first_answer(id, bodies, at),
    ensures
        outcome(id, arrivals(bodies)) == Some(answer_of(bodies[at])),
    decreases bodies.len(),
{
    let events = arrivals(bodies);
    if at > 0 {
        let rest = bodies.drop_first();
        assert forall|k: int| 0 <= k < at - 1 implies !answers(#[trigger] rest[k], id) by {}
        lemma_request_gets_its_answer(id, rest, at - 1);
        assert(events.drop_first() =~= arrivals(rest));
    }
}

/// Of two requests that wait on the same stream of responses under
/// different ids, each gets its own answer, in whichever order the two
/// answers arrive and whatever arrives between them.
pub proof fn lemma_requests_get_their_own_answers(
    a: Seq<char>,
    b: Seq<char>,
    bodies: Seq<Seq<u8>>,
    i: int,
    j: int,
)
    requires
        a != b,
        is_first_answer(a, bodies, i),
        is_first_answer(b, bodies, j),
    ensures
        i != j,
        outcome(a, arrivals(bodies)) == Some(answer_of(bodies[i])),
        outcome(b, arrivals(bodies)) == Some(answer_of(bodies[j])),
{
    lemma_request_gets_its_answer(a, bodies, i);
    lemma_request_gets_its_answer(b, bodies, j);
}

/// A request that sees no response with its id before the waiting time is
/// over ends with a timeout.
pub proof fn lemma_unanswered_request_times_out(
    id: Seq<char>,
    bodies: Seq<Seq<u8>>,
    later: Seq<EventModel>,
)
    requires
        forall|k: int| 0 <= k < bodies.len() ==> !answers(#[trigger] bodies[k], id),
    ensures
        outcome(id, arrivals(bodies) + seq![EventModel::TimedOut] + later) == Some(
            Outcome::TimedOut,
        ),
    decreases bodies.len(),
{
    let events = arrivals(bodies) + seq![EventModel::TimedOut] + later;
    if bodies.len() > 0 {
        let rest = bodies.drop_first();
        assert forall|k: int| 0 <= k < rest.len() implies !answers(#[trigger] rest[k], id) by {}
        lemma_unanswered_request_times_out(id, rest, later);
        assert(events.drop_first() =~= arrivals(rest) + seq![EventModel::TimedOut] + later);
    }
}

impl PendingRequest {
    /// Whether the result `r` of a step is what `end` says, for a request
    /// with this payload.
    pub open spec fn reports(self, r: Result<serde_json::Value, LspError>, end: Outcome) -> bool {
        match end {
            Outcome::Answer(result) => r matches Ok(v) && json_of(v) == result,
            Outcome::ErrorResponse(error) => r matches Err(LspError::ErrorResponse(m)) && m@
                == error,
            Outcome::TimedOut => r matches Err(LspError::RequestTimeout(request, seconds))
                && request@ == self.payload@ && seconds == REQUEST_TIMEOUT_SECS,
            Outcome::Closed => r matches Err(LspError::ChannelClosed),
        }
    }

    /// Takes the next event. A response under another id, and a message
    /// that is no response, are passed over.
    pub fn on_event(&self, event: RequestEvent) -> (r: RequestStep)
        ensures
            match step(self.id@, event.model()) {
                Some(end) => r matches RequestStep::Done(result) && self.reports(result, end),
                None => r matches RequestStep::Wait,
            },
    {
        match event {
            RequestEvent::Message(body) => {
                match parse_response(body.as_slice()) {
                    Some(response) => {
                        let matches = match &response.id {
                            ResponseId::Str(id) => str_eq(id.as_str(), self.id.as_str()),
                            _ => false,
                        };
                        if matches {
                            match response.payload {
                                Ok(result) => RequestStep::Done(Ok(result)),
                                Err(error) => RequestStep::Done(
                                    Err(LspError::ErrorResponse(error)),
                                ),
                            }
                        } else {
                            RequestStep::Wait
                        }
                    },
                    None => RequestStep::Wait,
                }
            },
            RequestEvent::TimedOut => RequestStep::Done(
                Err(LspError::RequestTimeout(self.payload.clone(), REQUEST_TIMEOUT_SECS)),
            ),
            RequestEvent::Closed => RequestStep::Done(Err(LspError::ChannelClosed)),
        }
    }
}

/// The labels of a completion response that has the shape the protocol
/// prescribes: a list of completion items, bare or wrapped. `None` for
/// any other shape.
pub uninterp spec fn strict_labels(result: Json) -> Option<Seq<Seq<char>>>;

/// Whether a result has the shape of the result of `initialize`.
pub uninterp spec fn is_initialize_result(result: Json) -> bool;

/// `serde_json::from_value` into an `lsp_types::CompletionResponse`, and
/// of each item of either variant its `label`.
#[verifier::external_body]
fn strict_completion_labels(result: &serde_json::Value) -> (r: Option<Vec<String>>)
    ensures
        match strict_labels(json_of(*result)) {
            Some(labels) => r matches Some(found) && texts(found@) == labels,
            None => r is None,
        },
{
    let response = serde_json::from_value::<lsp_types::CompletionResponse>(result.clone()).ok()?;
    let items = match response {
        lsp_types::CompletionResponse::Array(items) => items,
        lsp_types::CompletionResponse::List(list) => list.items,
    };
    Some(items.into_iter().map(|item| item.label).collect())
}

/// Whether `serde_json::from_value` into an `lsp_types::InitializeResult`
/// succeeds.
#[verifier::external_body]
fn has_initialize_result_shape(result: &serde_json::Value) -> (r: bool)
    ensures
        r == is_initialize_result(json_of(*result)),
{
    serde_json::from_value::<lsp_types::InitializeResult>(result.clone()).is_ok()
}

/// The label of a completion item read loosely: the text of the member
/// `label` of an object.
pub open spec fn loose_label(item: Json) -> Option<Seq<char>> {
    match item {
        Json::Object(members) => if members.contains_key("label"@) {
            match members["label"@] {
                Json::String(text) => Some(text),
                _ => None,
            }
        } else {
            None
        },
        _ => None,
    }
}

/// The labels of a completion response read loosely: those of the elements
/// of an array, if every element has one.
pub open spec fn loose_labels(result: Json) -> Option<Seq<Seq<char>>> {
    match result {
        Json::Array(items) => if forall|i: int|
            0 <= i < items.len() ==> loose_label(#[trigger] items[i]) is Some {
            Some(Seq::new(items.len(), |i: int| loose_label(items[i])->0))
        } else {
            None
        },
        _ => None,
    }
}

fn item_label(item: &serde_json::Value) -> (r: Option<String>)
    ensures
        match loose_label(json_of(*item)) {
            Some(label) => r matches Some(found) && found@ == label,
            None => r is None,
        },
{
    match json_member(item, "label") {
        Some(member) => json_text(&member),
        None => None,
    }
}

/// Reads a completion response loosely, for servers that do not keep to
/// the protocol: an array of objects, each with a `label` that is a
/// string.
pub fn fallback_labels(result: &serde_json::Value) -> (r: Option<Vec<String>>)
    ensures
        match loose_labels(json_of(*result)) {
            Some(labels) => r matches Some(found) && texts(found@) == labels,
            None => r is None,
        },
{
    let items = match json_items(result) {
        Some(items) => items,
        None => {
            return None;
        },
    };
    let ghost models = jsons_of(items@);
    let mut labels: Vec<String> = Vec::new();
    let mut i: usize = 0;
    while i < items.len()
        invariant
            i <= items@.len(),
            models == jsons_of(items@),
            json_of(*result) == Json::Array(models),
            labels@.len() == i,
            forall|j: int| 0 <= j < i ==> loose_label(#[trigger] models[j]) == Some(labels@[j]@),
        decreases items@.len() - i,
    {
        assert(models[i as int] == json_of(items@[i as int]));
        match item_label(&items[i]) {
            Some(label) => {
                labels.push(label);
            },
            None => {
                return None;
            },
        }
        i += 1;
    }
    Some(labels)
}

/// The message for a completion response that no reading makes sense of.
pub open spec fn unreadable_completion(result: Json) -> Seq<char> {
    "failed parsing completion response: "@ + json_debug(result)
}

/// The labels of a completion response, given what each reading of it
/// yields: the strict one counts first, the loose one second.
pub open spec fn first_labels(
    strict: Option<Seq<Seq<char>>>,
    loose: Option<Seq<Seq<char>>>,
) -> Option<Seq<Seq<char>>> {
    match strict {
        Some(labels) => Some(labels),
        None => loose,
    }
}

/// Picks the first reading of a completion response that succeeded. That
/// none did is an error of its own, which carries `reason`.
pub fn first_success(
    strict: Option<Vec<String>>,
    loose: Option<Vec<String>>,
    reason: String,
) -> (r: Result<Vec<String>, LspError>)
    ensures
        match strict {
            Some(labels) => r == Ok::<Vec<String>, LspError>(labels),
            None => match loose {
                Some(labels) => r == Ok::<Vec<String>, LspError>(labels),
                None => r == Err::<Vec<String>, LspError>(LspError::Decode(reason)),
            },
        },
{
    match strict {
        Some(labels) => Ok(labels),
        None => match loose {
            Some(labels) => Ok(labels),
            None => Err(LspError::Decode(reason)),
        },
    }
}

/// Reads the candidates out of a completion response: first as the
/// protocol prescribes; if that fails, loosely. It fails only if both do.
pub fn parse_completion(result: &serde_json::Value) -> (r: Result<Vec<String>, LspError>)
    ensures
        match first_labels(strict_labels(json_of(*result)), loose_labels(json_of(*result))) {
            Some(labels) => r matches Ok(found) && texts(found@) == labels,
            None => r matches Err(LspError::Decode(m)) && m@ == unreadable_completion(
                json_of(*result),
            ),
        },
{
    match strict_completion_labels(result) {
        Some(labels) => Ok(labels),
        None => {
            let mut reason = String::from_str("failed parsing completion response: ");
            reason.append(json_debug_text(result).as_str());
            first_success(None, fallback_labels(result), reason)
        },
    }
}

/// The message for a result of `initialize` that has not the shape of one.
pub open spec fn unreadable_result() -> Seq<char> {
    "failed to deserialize server response"@
}

/// Checks that the server answered `initialize` with a result of the
/// expected shape.
pub fn check_initialize_result(result: &serde_json::Value) -> (r: Result<(), LspError>)
    ensures
        if is_initialize_result(json_of(*result)) {
            r is Ok
        } else {
            r matches Err(LspError::Decode(m)) && m@ == unreadable_result()
        },
{
    if has_initialize_result_shape(result) {
        Ok(())
    } else {
        Err(LspError::Decode(String::from_str("failed to deserialize server response")))
    }
}

impl Request {
    /// The request as one that waits for its answer, with the payload to
    /// send.
    pub fn into_pending(self) -> (r: Result<PendingRequest, LspError>)
        ensures
            match self.json() {
                Some(content) => r matches Ok(pending) && pending.id == self.id
                    && pending.payload@ == payload_text(content),
                None => r matches Err(LspError::Encode(_)),
            },
    {
        match self.to_payload() {
            Ok(payload) => Ok(PendingRequest { id: self.id, payload }),
            Err(e) => Err(e),
        }
    }
}

/// The placeholder under which the one document, the input of the user, is
/// known to the server.
pub open spec fn document_uri() -> Seq<char> {
    "repl:///repl"@
}

/// The version that every change of the document is sent under. The whole
/// text is sent each time, so the server has no use for a count.
pub const DOCUMENT_VERSION: i32 = 1;

/// The client's side of a session: the document it speaks of, and whether
/// the handshake is done.
#[derive(Debug, Clone, PartialEq, Eq)]
pub struct LspClient {
    pub document_uri: String,
    pub initialized: bool,
}

impl LspClient {
    pub fn new() -> (r: Self)
        ensures
            r.document_uri@ == document_uri(),
            !r.initialized,
    {
        LspClient { document_uri: String::from_str("repl:///repl"), initialized: false }
    }

    /// True once the handshake is done. Only then do completions go to the
    /// server.
    pub fn is_initialized(&self) -> (r: bool)
        ensures
            r == self.initialized,
    {
        self.initialized
    }

    /// The payload of the `textDocument/didChange` for `text`, for this
    /// client's document.
    pub open spec fn change_payload(self, text: Seq<char>) -> Option<Seq<char>> {
        match did_change_params(self.document_uri@, DOCUMENT_VERSION, text) {
            Some(params) => match notification_json("textDocument/didChange"@, params) {
                Some(content) => Some(payload_text(content)),
                None => None,
            },
            None => None,
        }
    }

    /// Inform the LSP server that the document (the input of the user)
    /// changed: the text in `state` is overwritten with `text`, and the
    /// payload to send comes back. Where the payload cannot be written,
    /// `state` is left as it was.
    pub fn on_change(&self, state: &mut State, text: &str) -> (r: Result<String, LspError>)
        ensures
            match self.change_payload(text@) {
                Some(payload) => r matches Ok(sent) && sent@ == payload && final(state).lsp_text@
                    == text@,
                None => r matches Err(LspError::Encode(_)) && *final(state) == *old(state),
            },
    {
        let notification = match did_change(self.document_uri.as_str(), DOCUMENT_VERSION, text) {
            Ok(notification) => notification,
            Err(e) => {
                return Err(e);
            },
        };
        let payload = match notification.to_payload() {
            Ok(payload) => payload,
            Err(e) => {
                return Err(e);
            },
        };
        state.lsp_text = String::from_str(text);
        Ok(payload)
    }

    /// The request for completion at a position, line and column counted
    /// from zero, ready to be sent and waited for.
    pub fn request_completion(&self, line: u32, offset: u32) -> (r: Result<PendingRequest, LspError>)
        ensures
            match completion_params(self.document_uri@, line, offset) {
                Some(params) => match r {
                    Ok(pending) => request_json(pending.id@, "textDocument/completion"@, params)
                        matches Some(content) && pending.payload@ == payload_text(content),
                    Err(e) => e is Encode,
                },
                None => r matches Err(LspError::Encode(_)),
            },
    {
        match completion(self.document_uri.as_str(), line, offset) {
            Ok(request) => request.into_pending(),
            Err(e) => Err(e),
        }
    }

    /// First step of the handshake: the `initialize` request for a server
    /// of the given type and a connection, ready to be sent and waited
    /// for. It fails where the settings of the connection are unusable.
    pub fn init_lsp_server(&self, server_type: &LspServerType, connection: Connection) -> (r:
        Result<PendingRequest, LspError>)
        ensures
            match server_type.initialization_options(connection) {
                Some(options) => match initialize_params(options) {
                    Some(params) => match r {
                        Ok(pending) => request_json(pending.id@, "initialize"@, params)
                            matches Some(content) && pending.payload@ == payload_text(content),
                        Err(e) => e is Encode,
                    },
                    None => r matches Err(LspError::Encode(_)),
                },
                None => r matches Err(LspError::Settings(_)),
            },
    {
        let options = match server_type.to_initialization_options(connection) {
            Ok(options) => options,
            Err(e) => {
                return Err(LspError::Settings(e));
            },
        };
        match initialize(options) {
            Ok(request) => request.into_pending(),
            Err(e) => Err(e),
        }
    }

    /// The payloads that follow a good answer to `initialize`, in the order
    /// in which they are sent: `initialized`, then `textDocument/didOpen`
    /// for this client's document with no text in it.
    pub open spec fn opening_payloads(self) -> Option<Seq<Seq<char>>> {
        match (
            notification_json("initialized"@, "{}"@),
            did_open_params(self.document_uri@, language_id(), INITIAL_VERSION, Seq::empty()),
        ) {
            (Some(first), Some(params)) => match notification_json(
                "textDocument/didOpen"@,
                params,
            ) {
                Some(second) => Some(seq![payload_text(first), payload_text(second)]),
                None => None,
            },
            _ => None,
        }
    }

    /// Second step of the handshake, given the answer of the server to
    /// `initialize`: the payloads to send next, in their order. It fails
    /// where the answer has not the shape of a result of `initialize`, and
    /// where a payload cannot be written.
    pub fn handshake_notifications(&self, result: &serde_json::Value) -> (r: Result<
        Vec<String>,
        LspError,
    >)
        ensures
            if is_initialize_result(json_of(*result)) {
                match self.opening_payloads() {
                    Some(payloads) => r matches Ok(sent) && texts(sent@) == payloads,
                    None => r matches Err(LspError::Encode(_)),
                }
            } else {
                r matches Err(LspError::Decode(m)) && m@ == unreadable_result()
            },
    {
        match check_initialize_result(result) {
            Ok(()) => {},
            Err(e) => {
                return Err(e);
            },
        }
        let first = match initialized() {
            Ok(notification) => match notification.to_payload() {
                Ok(payload) => payload,
                Err(e) => {
                    return Err(e);
                },
            },
            Err(e) => {
                return Err(e);
            },
        };
        proof {
            reveal_strlit("");
            assert(""@ =~= Seq::<char>::empty());
        }
        let second = match did_open(self.document_uri.as_str(), "") {
            Ok(notification) => match notification.to_payload() {
                Ok(payload) => payload,
                Err(e) => {
                    return Err(e);
                },
            },
            Err(e) => {
                return Err(e);
            },
        };
        let mut payloads: Vec<String> = Vec::new();
        payloads.push(first);
        payloads.push(second);
        assert(texts(payloads@) =~= self.opening_payloads()->0);
        Ok(payloads)
    }

    /// Forgets the session that was: a new session is not initialized until
    /// its own handshake is done.
    pub fn forget_session(&mut self)
        ensures
            !final(self).initialized,
            final(self).document_uri == old(self).document_uri,
    {
        self.initialized = false;
    }

    /// Last step of the handshake, when all its payloads are sent.
    pub fn mark_initialized(&mut self)
        ensures
            final(self).initialized,
            final(self).document_uri == old(self).document_uri,
    {
        self.initialized = true;
    }
}

} // verus!
