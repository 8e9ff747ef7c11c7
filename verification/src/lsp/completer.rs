use vstd::prelude::*;
use vstd::string::{StringExecFns, StrSliceExecFns};
use vstd::utf8::encode_utf8;
use crate::command::{
    command_prefix, connection_line, describe_connection, is_maybe_command, CommandName,
};
use crate::config::{Config, Connection};
use crate::error::LspError;
use crate::logging::{PrintPayload, Verbosity};
use crate::lsp::client::{LspClient, PendingRequest};
use crate::lsp::payload::{completion_params, payload_text, request_json};
use crate::state::State;
use crate::text::{
    chars_of, has_crlf, line_ending_len, line_start, lines, read_line, str_starts_with,
};

verus! {

/// Completion candidate pair.
#[derive(Debug, Clone, PartialEq, Eq)]
pub struct CandidatePair {
    /// Text to display when listing alternatives.
    pub display: String,
    /// Text to insert in line.
    pub replacement: String,
}

/// Whether `c` is white space in the sense of `char::is_whitespace`.
pub uninterp spec fn is_whitespace(c: char) -> bool;

/// `char::is_whitespace`: whether `c` has the Unicode property White_Space.
#[verifier::external_body]
fn char_is_whitespace(c: char) -> (r: bool)
    ensures
        r == is_whitespace(c),
{
    c.is_whitespace()
}

/// What separates one SQL token from the next: white space, or the dot
/// between a schema and an identifier.
pub open spec fn is_separator(c: char) -> bool {
    is_whitespace(c) || c == '.'
}

/// Where the token begins that ends at character `pos` of `line`: behind
/// the last separator before `pos`, or at 0 if there is none. A `pos`
/// behind the end of the line counts as the end.
pub open spec fn token_start(line: Seq<char>, pos: nat) -> nat
    decreases pos,
{
    if pos == 0 {
        0
    } else if pos > line.len() {
        token_start(line, line.len())
    } else if is_separator(line[pos - 1]) {
        pos
    } else {
        token_start(line, (pos - 1) as nat)
    }
}

/// Find the beginning of the token at pos (even if the word only consists
/// of an empty string). Positions count characters.
pub fn find_sql_token_start(line: &str, pos: usize) -> (r: usize)
    ensures
        r == token_start(line@, pos as nat),
{
    let chars = chars_of(line);
    let mut i: usize = if pos > chars.len() {
        chars.len()
    } else {
        pos
    };
    while i > 0
        invariant
            i <= chars@.len(),
            chars@ == line@,
            token_start(line@, pos as nat) == token_start(line@, i as nat),
        decreases i,
    {
        let c = chars[i - 1];
        if char_is_whitespace(c) || c == '.' {
            return i;
        }
        i -= 1;
    }
    0
}

/// The first row from `from` on whose line reaches up to `offset`, every
/// line ending being taken to have `ending` bytes; the number of lines if
/// there is no such row.
pub open spec fn reaching_row(all: Seq<Seq<u8>>, ending: nat, offset: nat, from: nat) -> nat
    decreases all.len() - from,
{
    if from >= all.len() {
        all.len()
    } else if offset <= line_start(all, from, ending) + all[from as int].len() {
        from
    } else {
        reaching_row(all, ending, offset, from + 1)
    }
}

/// The row and the column at which byte `offset` of `text` lies, every line
/// ending being taken to have the same length. `None` for an offset behind
/// the text, behind its last line, or inside a line ending.
pub open spec fn row_and_col(text: Seq<u8>, offset: nat) -> Option<(nat, nat)> {
    let all = lines(text);
    let ending = line_ending_len(text);
    let row = reaching_row(all, ending, offset, 0);
    if offset <= text.len() && row < all.len() && line_start(all, row, ending) <= offset {
        Some((row, (offset - line_start(all, row, ending)) as nat))
    } else {
        None
    }
}

/// Compute the row and col based on the byte index of text.
pub fn row_and_col_from_offset(text: &str, offset: usize) -> (r: Option<(usize, usize)>)
    ensures
        match row_and_col(encode_utf8(text@), offset as nat) {
            Some((row, col)) => row <= usize::MAX && col <= usize::MAX && r == Some(
                (row as usize, col as usize),
            ),
            None => r is None,
        },
{
    let bytes = text.as_bytes();
    let n = bytes.len();
    if offset > n {
        return None;
    }
    let ending: u128 = if has_crlf(bytes) {
        2
    } else {
        1
    };
    let ghost all = lines(bytes@);
    let mut p: usize = 0;
    let mut k: usize = 0;
    let mut start: u128 = 0;
    assert(bytes@.skip(0) =~= bytes@);
    while p < n
        invariant
            n == bytes@.len(),
            offset <= n,
            p <= n,
            k <= p,
            bytes@ == encode_utf8(text@),
            all == lines(bytes@),
            ending == line_ending_len(bytes@),
            k <= all.len(),
            lines(bytes@.skip(p as int)) == all.skip(k as int),
            start == line_start(all, k as nat, ending as nat),
            start <= 3 * p,
            reaching_row(all, ending as nat, offset as nat, 0) == reaching_row(
                all,
                ending as nat,
                offset as nat,
                k as nat,
            ),
        decreases n - p,
    {
        let span = read_line(bytes, p);
        proof {
            assert(lines(bytes@.skip(p as int)).len() >= 1);
            assert(all.skip(k as int)[0] == all[k as int]);
            assert(lines(bytes@.skip(p as int)).drop_first() =~= lines(
                bytes@.skip(span.next as int),
            ));
        }
        let len: u128 = span.len as u128;
        if offset as u128 <= start + len {
            return if start <= offset as u128 {
                Some((k, (offset as u128 - start) as usize))
            } else {
                None
            };
        }
        start = start + len + ending;
        p = span.next;
        k = k + 1;
    }
    None
}

/// Where the candidates for a line come from.
#[derive(Debug, Clone, Copy, PartialEq, Eq, Structural)]
pub enum CompletionSource {
    /// From the commands and the names of the stored connections.
    Command,
    /// From the language server.
    Lsp,
}

/// Decides where the candidates for `line` come from: a line that looks
/// like a command is completed as one; any other line goes to the server
/// once the handshake is done, and is treated as a command before that.
pub fn complete(line: &str, initialized: bool) -> (r: CompletionSource)
    ensures
        r == if !command_prefix().is_prefix_of(line@) && initialized {
            CompletionSource::Lsp
        } else {
            CompletionSource::Command
        },
{
    if is_maybe_command(line) {
        CompletionSource::Command
    } else if initialized {
        CompletionSource::Lsp
    } else {
        CompletionSource::Command
    }
}

/// The candidates for the labels that the server proposed: each label is
/// shown and inserted as it is.
pub fn candidates(labels: Vec<String>) -> (r: Vec<CandidatePair>)
    ensures
        r@.len() == labels@.len(),
        forall|i: int|
            0 <= i < r@.len() ==> (#[trigger] r@[i]).display == labels@[i] && r@[i].replacement
                == labels@[i],
{
    let mut pairs: Vec<CandidatePair> = Vec::new();
    let mut i: usize = 0;
    while i < labels.len()
        invariant
            i <= labels@.len(),
            pairs@.len() == i,
            forall|j: int|
                0 <= j < i ==> (#[trigger] pairs@[j]).display == labels@[j] && pairs@[j].replacement
                    == labels@[j],
        decreases labels@.len() - i,
    {
        pairs.push(CandidatePair { display: labels[i].clone(), replacement: labels[i].clone() });
        i += 1;
    }
    pairs
}

/// What asking the server for candidates takes: the change of the document
/// to send first, and then, unless the position cannot be sent, the request
/// to send and wait for, with the place where the candidates go in.
#[derive(Debug, PartialEq, Eq)]
pub struct LspCompletion {
    /// The payload that tells the server the text of the line.
    pub change: String,
    /// The request for candidates and the character at which the token to
    /// complete begins.
    pub request: Result<(PendingRequest, usize), LspError>,
}

/// The text that the server is told for a line: the line itself, but one
/// space for an empty line.
pub open spec fn sent_text(line: Seq<char>) -> Seq<char> {
    if line.len() == 0 {
        " "@
    } else {
        line
    }
}

/// Prepares a completion by the server for `line` with the cursor at byte
/// `pos`. The document in `state` takes the text of the line. It fails
/// where the change of the document cannot be written; the request for
/// candidates fails on its own where the position lies outside the line,
/// its row or column does not fit the protocol, or it cannot be written.
/// Else it asks at the row and column of the cursor, and the candidates go
/// in where the token at the cursor begins.
pub fn complete_lsp(client: &LspClient, state: &mut State, line: &str, pos: usize) -> (r: Result<
    LspCompletion,
    LspError,
>)
    ensures
        match client.change_payload(sent_text(line@)) {
            Some(payload) => {
                &&& final(state).lsp_text@ == sent_text(line@)
                &&& r matches Ok(plan) && plan.change@ == payload && match row_and_col(
                    encode_utf8(sent_text(line@)),
                    pos as nat,
                ) {
                    Some((row, col)) => if row <= u32::MAX && col <= u32::MAX {
                        match completion_params(client.document_uri@, row as u32, col as u32) {
                            Some(params) => match plan.request {
                                Ok((pending, start)) => {
                                    &&& start == token_start(sent_text(line@), pos as nat)
                                    &&& request_json(
                                        pending.id@,
                                        "textDocument/completion"@,
                                        params,
                                    ) matches Some(content) && pending.payload@ == payload_text(
                                        content,
                                    )
                                },
                                Err(e) => e is Encode,
                            },
                            None => plan.request matches Err(LspError::Encode(_)),
                        }
                    } else {
                        plan.request matches Err(LspError::Position(_))
                    },
                    None => plan.request matches Err(LspError::Position(m)) && m@
                        == "pos out of bounds"@,
                }
            },
            None => r matches Err(LspError::Encode(_)) && *final(state) == *old(state),
        },
{
    let line = if line.is_empty() {
        " "
    } else {
        line
    };
    let change = match client.on_change(state, line) {
        Ok(change) => change,
        Err(e) => {
            return Err(e);
        },
    };
    let request = match row_and_col_from_offset(line, pos) {
        Some((row, col)) => {
            if row <= 0xffff_ffff && col <= 0xffff_ffff {
                match client.request_completion(row as u32, col as u32) {
                    Ok(pending) => Ok((pending, find_sql_token_start(line, pos))),
                    Err(e) => Err(e),
                }
            } else {
                Err(
                    LspError::Position(
                        String::from_str("out of range integral type conversion attempted"),
                    ),
                )
            }
        },
        None => Err(LspError::Position(String::from_str("pos out of bounds"))),
    };
    Ok(LspCompletion { change, request })
}

/// The command as it is typed: its word behind the prefix.
pub open spec fn typed(name: CommandName) -> Seq<char> {
    command_prefix() + name.word()
}

/// Those of `names` whose typed form begins with `line`, in their order.
pub open spec fn matching(names: Seq<CommandName>, line: Seq<char>) -> Seq<CommandName>
    decreases names.len(),
{
    if names.len() == 0 {
        Seq::empty()
    } else {
        let before = matching(names.drop_last(), line);
        if line.is_prefix_of(typed(names.last())) {
            before.push(names.last())
        } else {
            before
        }
    }
}

/// Those of `connections` whose name begins with `start`, in their order.
pub open spec fn named_like(connections: Seq<Connection>, start: Seq<char>) -> Seq<Connection>
    decreases connections.len(),
{
    if connections.len() == 0 {
        Seq::empty()
    } else {
        let before = named_like(connections.drop_last(), start);
        if start.is_prefix_of(connections.last().name@) {
            before.push(connections.last())
        } else {
            before
        }
    }
}

/// What completing a command line comes to.
#[derive(Debug, Clone, PartialEq, Eq)]
pub enum CommandCompletion {
    /// These candidates, which replace the line from the given character
    /// on.
    Candidates(usize, Vec<CandidatePair>),
    /// The names of the stored connections that begin with the given text,
    /// which replace the line from the given character on.
    ConnectionNames(String, usize),
}

/// What a command line is completed to, as a model.
pub enum CompletionModel {
    Commands(Seq<CommandName>),
    ConnectionNames(Seq<char>, nat),
    Nothing,
}

/// How a command line is completed: by the commands that begin with it;
/// if there are none, by the names of connections where the line is a
/// `delete` or a `use` with the beginning of a name; else not at all.
pub open spec fn command_completion(line: Seq<char>) -> CompletionModel {
    let found = matching(CommandName::every(), line);
    if found.len() > 0 {
        CompletionModel::Commands(found)
    } else if "/delete "@.is_prefix_of(line) {
        CompletionModel::ConnectionNames(line.skip("/delete "@.len() as int), "/delete "@.len())
    } else if "/use "@.is_prefix_of(line) {
        CompletionModel::ConnectionNames(line.skip("/use "@.len() as int), "/use "@.len())
    } else {
        CompletionModel::Nothing
    }
}

fn matching_commands(line: &str) -> (r: Vec<CandidatePair>)
    ensures
        r@.len() == matching(CommandName::every(), line@).len(),
        forall|i: int|
            0 <= i < r@.len() ==> (#[trigger] r@[i]).display@ == typed(
                matching(CommandName::every(), line@)[i],
            ) && r@[i].replacement@ == r@[i].display@,
{
    let names = CommandName::all();
    let mut pairs: Vec<CandidatePair> = Vec::new();
    let mut i: usize = 0;
    while i < names.len()
        invariant
            i <= names@.len(),
            names@ == CommandName::every(),
            pairs@.len() == matching(names@.take(i as int), line@).len(),
            forall|j: int|
                0 <= j < pairs@.len() ==> (#[trigger] pairs@[j]).display@ == typed(
                    matching(names@.take(i as int), line@)[j],
                ) && pairs@[j].replacement@ == pairs@[j].display@,
        decreases names@.len() - i,
    {
        let ghost now = names@.take(i + 1);
        assert(now.drop_last() =~= names@.take(i as int));
        let mut full = String::from_str("/");
        full.append(names[i].as_str());
        if str_starts_with(full.as_str(), line) {
            pairs.push(CandidatePair { display: full.clone(), replacement: full });
        }
        i += 1;
    }
    assert(names@.take(i as int) =~= names@);
    pairs
}

/// Whether `r` is the completion that `model` describes.
pub open spec fn completes(r: CommandCompletion, model: CompletionModel) -> bool {
    match model {
        CompletionModel::Commands(found) => r matches CommandCompletion::Candidates(at, pairs)
            && at == 0 && pairs@.len() == found.len() && forall|i: int|
            0 <= i < pairs@.len() ==> (#[trigger] pairs@[i]).display@ == typed(found[i])
                && pairs@[i].replacement@ == typed(found[i]),
        CompletionModel::ConnectionNames(start, at) => r matches CommandCompletion::ConnectionNames(
            s,
            a,
        ) && s@ == start && a == at,
        CompletionModel::Nothing => r matches CommandCompletion::Candidates(at, pairs) && at == 0
            && pairs@.len() == 0,
    }
}

/// Perform command completion.
pub fn complete_command(line: &str) -> (r: CommandCompletion)
    ensures
        completes(r, command_completion(line@)),
{
    let found = matching_commands(line);
    if found.len() > 0 {
        return CommandCompletion::Candidates(0, found);
    }
    proof {
        reveal_strlit("/delete ");
        reveal_strlit("/use ");
    }
    let length = line.unicode_len();
    if str_starts_with(line, "/delete ") {
        let start = line.substring_char(8, length);
        return CommandCompletion::ConnectionNames(String::from_str(start), 8);
    }
    if str_starts_with(line, "/use ") {
        let start = line.substring_char(5, length);
        return CommandCompletion::ConnectionNames(String::from_str(start), 5);
    }
    CommandCompletion::Candidates(0, found)
}

/// The candidates for the name of a connection that begins with `arg`:
/// every such connection of `config`, in the order in which they are
/// stored, shown with its settings and inserted by its name at `offset`.
pub fn complete_connection_names(config: &Config, arg: &str, offset: usize) -> (r: (
    usize,
    Vec<CandidatePair>,
))
    ensures
        r.0 == offset,
        r.1@.len() == named_like(config.connections@, arg@).len(),
        forall|i: int|
            0 <= i < r.1@.len() ==> (#[trigger] r.1@[i]).replacement@ == named_like(
                config.connections@,
                arg@,
            )[i].name@ && r.1@[i].display@ == connection_line(
                named_like(config.connections@, arg@)[i],
            ),
{
    let connections = config.get_connections();
    let mut pairs: Vec<CandidatePair> = Vec::new();
    let mut i: usize = 0;
    while i < connections.len()
        invariant
            i <= connections@.len(),
            pairs@.len() == named_like(connections@.take(i as int), arg@).len(),
            forall|j: int|
                0 <= j < pairs@.len() ==> (#[trigger] pairs@[j]).replacement@ == named_like(
                    connections@.take(i as int),
                    arg@,
                )[j].name@ && pairs@[j].display@ == connection_line(
                    named_like(connections@.take(i as int), arg@)[j],
                ),
        decreases connections@.len() - i,
    {
        let ghost now = connections@.take(i + 1);
        assert(now.drop_last() =~= connections@.take(i as int));
        if str_starts_with(connections[i].name.as_str(), arg) {
            pairs.push(
                CandidatePair {
                    display: describe_connection(&connections[i]),
                    replacement: connections[i].name.clone(),
                },
            );
        }
        i += 1;
    }
    assert(connections@.take(i as int) =~= connections@);
    (offset, pairs)
}

/// Ends a completion: a failure is turned into no candidates at all, and
/// comes back beside them as an error to log.
pub fn complete_with_logging(completed: Result<(usize, Vec<CandidatePair>), String>) -> (r: (
    (usize, Vec<CandidatePair>),
    Option<PrintPayload>,
))
    ensures
        match completed {
            Ok(found) => r.0 == found && r.1 is None,
            Err(reason) => r.0.0 == 0 && r.0.1@.len() == 0 && r.1 == Some(
                PrintPayload::Output(Verbosity::Error, reason),
            ),
        },
{
    match completed {
        Ok(found) => (found, None),
        Err(reason) => ((0, Vec::new()), Some(PrintPayload::Output(Verbosity::Error, reason))),
    }
}

} // verus!
