use vstd::prelude::*;
use vstd::string::StringExecFns;
use crate::config::LspServerType;
use crate::lsp::response::{FramingError, FramingErrorKind};

verus! {

/// What can go wrong with a command of the user or with the stored
/// configuration.
#[derive(Debug, Clone, PartialEq, Eq)]
pub enum SqlFriendError {
    /// No connection of that name is stored.
    InvalidConnectionName(String),
    /// A command was given the wrong arguments; holds its usage line.
    InvalidCommandUsage(String),
    /// No such command.
    InvalidCommand(String),
    /// Not the name of a language server; holds the servers that exist.
    InvalidLspServer(String, Vec<LspServerType>),
    /// Anything else, as a message.
    Unknown(String),
}

/// The names of `types` as a list is printed: separated by a comma and a
/// space.
pub open spec fn server_names(types: Seq<LspServerType>) -> Seq<char>
    decreases types.len(),
{
    if types.len() == 0 {
        Seq::empty()
    } else if types.len() == 1 {
        types[0].name()
    } else {
        server_names(types.drop_last()) + ", "@ + types.last().name()
    }
}

fn push_server_names(out: &mut String, types: &Vec<LspServerType>)
    ensures
        final(out)@ == old(out)@ + server_names(types@),
{
    let mut i: usize = 0;
    while i < types.len()
        invariant
            i <= types@.len(),
            out@ == old(out)@ + server_names(types@.take(i as int)),
        decreases types@.len() - i,
    {
        let ghost before = types@.take(i as int);
        let ghost now = types@.take(i + 1);
        assert(now.drop_last() =~= before);
        if i > 0 {
            out.append(", ");
        }
        out.append(types[i].as_str());
        i += 1;
    }
    assert(types@.take(i as int) =~= types@);
}

impl SqlFriendError {
    /// The one line that is shown to the user for this error.
    pub open spec fn text(self) -> Seq<char> {
        match self {
            SqlFriendError::InvalidConnectionName(name) => "invalid connection name: `"@ + name@
                + "`"@,
            SqlFriendError::InvalidCommandUsage(usage) => "invalid command usage: `"@ + usage@
                + "`"@,
            SqlFriendError::InvalidCommand(command) => "invalid command: `"@ + command@ + "`"@,
            SqlFriendError::InvalidLspServer(given, known) => "invalid LSP server: `"@ + given@
                + "`, expected one of ["@ + server_names(known@) + "]"@,
            SqlFriendError::Unknown(message) => message@,
        }
    }

    pub fn message(&self) -> (r: String)
        ensures
            r@ == self.text(),
    {
        match self {
            SqlFriendError::InvalidConnectionName(name) => {
                let mut out = String::from_str("invalid connection name: `");
                out.append(name.as_str());
                out.append("`");
                out
            },
            SqlFriendError::InvalidCommandUsage(usage) => {
                let mut out = String::from_str("invalid command usage: `");
                out.append(usage.as_str());
                out.append("`");
                out
            },
            SqlFriendError::InvalidCommand(command) => {
                let mut out = String::from_str("invalid command: `");
                out.append(command.as_str());
                out.append("`");
                out
            },
            SqlFriendError::InvalidLspServer(given, known) => {
                let mut out = String::from_str("invalid LSP server: `");
                out.append(given.as_str());
                out.append("`, expected one of [");
                push_server_names(&mut out, known);
                out.append("]");
                out
            },
            SqlFriendError::Unknown(message) => message.clone(),
        }
    }
}

/// What can go wrong between the client and a language server.
#[derive(Debug, Clone, PartialEq, Eq)]
pub enum LspError {
    /// The byte stream of the server could not be cut into messages. The
    /// session cannot go on.
    Framing(FramingError),
    /// The server's binary could not be started; holds the reason.
    ProcessSpawn(String),
    /// No answer came in time. Holds the payload of the request and the
    /// number of seconds that were waited. The session goes on.
    RequestTimeout(String, u64),
    /// The other end of a channel is gone. The session cannot go on.
    ChannelClosed,
    /// A step of the handshake failed; holds the reason.
    HandshakeFailure(String),
    /// A message could not be written as JSON; holds the reason.
    Encode(String),
    /// The server answered a request with an error; holds its message.
    ErrorResponse(String),
    /// The answer of the server does not have the expected shape.
    Decode(String),
    /// The report about a diagnostic could not be drawn; holds the reason.
    Report(String),
    /// A position does not lie in the document, or cannot be sent.
    Position(String),
    /// The settings of the connection cannot be used.
    Settings(SqlFriendError),
}

impl LspError {
    /// Whether the session has to be torn down after this error. A timeout
    /// and a failed handshake leave it running.
    pub open spec fn is_fatal(self) -> bool {
        self is Framing || self is ChannelClosed
    }

    /// Whether the session has to be torn down after this error.
    pub fn fatal(&self) -> (r: bool)
        ensures
            r == self.is_fatal(),
    {
        match self {
            LspError::Framing(_) => true,
            LspError::ChannelClosed => true,
            _ => false,
        }
    }
}

impl FramingErrorKind {
    /// What is wrong with the stream, in words.
    pub open spec fn text(self) -> Seq<char> {
        match self {
            FramingErrorKind::MissingSeparator => "colon missing in LSP response header"@,
            FramingErrorKind::InvalidContentLength => "invalid content length in LSP response header"@,
            FramingErrorKind::MissingContentLength => "content length missing in LSP response header"@,
            FramingErrorKind::UnexpectedEof => "LSP response ended before its declared length"@,
        }
    }

    pub fn as_str(&self) -> (r: &'static str)
        ensures
            r@ == self.text(),
    {
        match self {
            FramingErrorKind::MissingSeparator => "colon missing in LSP response header",
            FramingErrorKind::InvalidContentLength => "invalid content length in LSP response header",
            FramingErrorKind::MissingContentLength => "content length missing in LSP response header",
            FramingErrorKind::UnexpectedEof => "LSP response ended before its declared length",
        }
    }
}

impl LspError {
    /// The one line that is shown to the user for this error.
    pub open spec fn text(self) -> Seq<char> {
        match self {
            LspError::Framing(e) => "failed to parse response header: "@ + e.kind.text(),
            LspError::ProcessSpawn(reason) => "failed to spawn LSP server: "@ + reason@,
            LspError::RequestTimeout(request, _) => "received no response for blocking request: "@
                + request@,
            LspError::ChannelClosed => "channel closed"@,
            LspError::HandshakeFailure(reason) => "handshake failed: "@ + reason@,
            LspError::Encode(reason) => reason@,
            LspError::ErrorResponse(reason) => reason@,
            LspError::Decode(reason) => reason@,
            LspError::Report(reason) => reason@,
            LspError::Position(reason) => reason@,
            LspError::Settings(e) => e.text(),
        }
    }

    pub fn message(&self) -> (r: String)
        ensures
            r@ == self.text(),
    {
        match self {
            LspError::Framing(e) => {
                let mut out = String::from_str("failed to parse response header: ");
                out.append(e.kind.as_str());
                out
            },
            LspError::ProcessSpawn(reason) => {
                let mut out = String::from_str("failed to spawn LSP server: ");
                out.append(reason.as_str());
                out
            },
            LspError::RequestTimeout(request, _) => {
                let mut out = String::from_str("received no response for blocking request: ");
                out.append(request.as_str());
                out
            },
            LspError::ChannelClosed => String::from_str("channel closed"),
            LspError::HandshakeFailure(reason) => {
                let mut out = String::from_str("handshake failed: ");
                out.append(reason.as_str());
                out
            },
            LspError::Encode(reason) => reason.clone(),
            LspError::ErrorResponse(reason) => reason.clone(),
            LspError::Decode(reason) => reason.clone(),
            LspError::Report(reason) => reason.clone(),
            LspError::Position(reason) => reason.clone(),
            LspError::Settings(e) => e.message(),
        }
    }
}

} // verus!
