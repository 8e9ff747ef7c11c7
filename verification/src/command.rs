use vstd::prelude::*;
use vstd::string::{StringExecFns, StrSliceExecFns};
use crate::config::{first_named, Config, Connection, ConnectionSettings, LspServerType};
use crate::error::SqlFriendError;
use crate::text::{push_spaces, spaces, split, split_at_char, str_eq, str_starts_with, texts};

verus! {

/// A command of the prompt: what it does and how it is called.
#[derive(Debug, Clone, Copy, PartialEq, Eq)]
pub struct Command<'a> {
    pub description: &'a str,
    pub usage: &'a str,
}

/// The commands that there are.
#[derive(Debug, Clone, Copy, PartialEq, Eq, Structural)]
pub enum CommandName {
    Add,
    Delete,
    Help,
    List,
    SetLspServer,
    Use,
}

/// What every command line begins with.
pub open spec fn command_prefix() -> Seq<char> {
    "/"@
}

/// Returns true if the given string looks like a command.
pub fn is_maybe_command(line: &str) -> (r: bool)
    ensures
        r == command_prefix().is_prefix_of(line@),
{
    str_starts_with(line, "/")
}

impl CommandName {
    /// The word after the prefix that calls the command.
    pub open spec fn word(self) -> Seq<char> {
        match self {
            CommandName::Add => "add"@,
            CommandName::Delete => "delete"@,
            CommandName::Help => "help"@,
            CommandName::List => "list"@,
            CommandName::SetLspServer => "set_lsp_server"@,
            CommandName::Use => "use"@,
        }
    }

    /// How the command is called.
    pub open spec fn usage(self) -> Seq<char> {
        match self {
            CommandName::Add => "/add"@,
            CommandName::Delete => "/delete <connection_name>"@,
            CommandName::Help => "/help"@,
            CommandName::List => "/list"@,
            CommandName::SetLspServer => "/set_lsp_server <lsp_server>"@,
            CommandName::Use => "/use <connection_name>"@,
        }
    }

    /// What the command does.
    pub open spec fn description(self) -> Seq<char> {
        match self {
            CommandName::Add => "Add a new connection."@,
            CommandName::Delete => "Delete a saved connection."@,
            CommandName::Help => "Display a list of available commands."@,
            CommandName::List => "List all saved connections."@,
            CommandName::SetLspServer => "Set the LSP server (Sqls, SqlLs, or PgTools). Should be available in $PATH."@,
            CommandName::Use => "Change the active connection."@,
        }
    }

    pub fn as_str(&self) -> (r: &'static str)
        ensures
            r@ == self.word(),
    {
        match self {
            CommandName::Add => "add",
            CommandName::Delete => "delete",
            CommandName::Help => "help",
            CommandName::List => "list",
            CommandName::SetLspServer => "set_lsp_server",
            CommandName::Use => "use",
        }
    }

    /// The entry of the command in the table of commands.
    pub fn command(&self) -> (r: Command<'static>)
        ensures
            r.usage@ == self.usage(),
            r.description@ == self.description(),
    {
        match self {
            CommandName::Add => Command { description: "Add a new connection.", usage: "/add" },
            CommandName::Delete => Command {
                description: "Delete a saved connection.",
                usage: "/delete <connection_name>",
            },
            CommandName::Help => Command {
                description: "Display a list of available commands.",
                usage: "/help",
            },
            CommandName::List => Command {
                description: "List all saved connections.",
                usage: "/list",
            },
            CommandName::SetLspServer => Command {
                description: "Set the LSP server (Sqls, SqlLs, or PgTools). Should be available in $PATH.",
                usage: "/set_lsp_server <lsp_server>",
            },
            CommandName::Use => Command {
                description: "Change the active connection.",
                usage: "/use <connection_name>",
            },
        }
    }

    /// Every command, in the order in which help lists them.
    pub open spec fn every() -> Seq<CommandName> {
        seq![
            CommandName::Add,
            CommandName::Delete,
            CommandName::Help,
            CommandName::List,
            CommandName::SetLspServer,
            CommandName::Use,
        ]
    }

    pub fn all() -> (r: Vec<CommandName>)
        ensures
            r@ == CommandName::every(),
    {
        let mut all: Vec<CommandName> = Vec::new();
        all.push(CommandName::Add);
        all.push(CommandName::Delete);
        all.push(CommandName::Help);
        all.push(CommandName::List);
        all.push(CommandName::SetLspServer);
        all.push(CommandName::Use);
        all
    }

    /// The command that `word` calls, if it calls one.
    pub open spec fn called_by(word: Seq<char>) -> Option<CommandName> {
        if word == CommandName::Add.word() {
            Some(CommandName::Add)
        } else if word == CommandName::Delete.word() {
            Some(CommandName::Delete)
        } else if word == CommandName::Help.word() {
            Some(CommandName::Help)
        } else if word == CommandName::List.word() {
            Some(CommandName::List)
        } else if word == CommandName::SetLspServer.word() {
            Some(CommandName::SetLspServer)
        } else if word == CommandName::Use.word() {
            Some(CommandName::Use)
        } else {
            None
        }
    }

    /// The command that `word` calls, if it calls one.
    pub fn find(word: &str) -> (r: Option<CommandName>)
        ensures
            r == CommandName::called_by(word@),
    {
        if str_eq(word, "add") {
            Some(CommandName::Add)
        } else if str_eq(word, "delete") {
            Some(CommandName::Delete)
        } else if str_eq(word, "help") {
            Some(CommandName::Help)
        } else if str_eq(word, "list") {
            Some(CommandName::List)
        } else if str_eq(word, "set_lsp_server") {
            Some(CommandName::SetLspServer)
        } else if str_eq(word, "use") {
            Some(CommandName::Use)
        } else {
            None
        }
    }
}

/// The lower-case form of a text, as `str::to_lowercase` gives it.
pub uninterp spec fn lowercase(s: Seq<char>) -> Seq<char>;

/// `str::to_lowercase`: the text with every character that has a
/// lower-case form replaced by it.
#[verifier::external_body]
fn to_lowercase(s: &str) -> (r: String)
    ensures
        r@ == lowercase(s@),
{
    s.to_lowercase()
}

/// The server type that a name in lower case stands for.
pub open spec fn server_named(lowered: Seq<char>) -> Option<LspServerType> {
    if lowered == "sqls"@ {
        Some(LspServerType::Sqls)
    } else if lowered == "sqlls"@ {
        Some(LspServerType::SqlLs)
    } else if lowered == "pgtools"@ {
        Some(LspServerType::PgTools)
    } else {
        None
    }
}

/// The server type that a name in lower case stands for.
pub fn server_by_name(lowered: &str) -> (r: Option<LspServerType>)
    ensures
        r == server_named(lowered@),
{
    if str_eq(lowered, "sqls") {
        Some(LspServerType::Sqls)
    } else if str_eq(lowered, "sqlls") {
        Some(LspServerType::SqlLs)
    } else if str_eq(lowered, "pgtools") {
        Some(LspServerType::PgTools)
    } else {
        None
    }
}

/// Reads the name of a language server, in whatever case it is written.
/// Any other name comes back as an error that lists the servers there
/// are.
pub fn parse_lsp_server(name: &str) -> (r: Result<LspServerType, SqlFriendError>)
    ensures
        match server_named(lowercase(name@)) {
            Some(server) => r == Ok::<LspServerType, SqlFriendError>(server),
            None => r matches Err(SqlFriendError::InvalidLspServer(given, known)) && given@
                == name@ && known@ == seq![
                LspServerType::Sqls,
                LspServerType::SqlLs,
                LspServerType::PgTools,
            ],
        },
{
    match server_by_name(to_lowercase(name).as_str()) {
        Some(server) => Ok(server),
        None => Err(SqlFriendError::InvalidLspServer(String::from_str(name), LspServerType::values())),
    }
}

/// What a command line asks for.
#[derive(Debug, Clone, PartialEq, Eq)]
pub enum CommandCall {
    Help,
    List,
    Add,
    /// Change to the connection of this name.
    Use(String),
    /// Delete the connection of this name.
    Delete(String),
    SetLspServer(LspServerType),
}

/// What a command line means: a call, or what is wrong with it.
pub enum LineModel {
    Help,
    List,
    Add,
    Use(Seq<char>),
    Delete(Seq<char>),
    SetLspServer(LspServerType),
    /// The line does not begin with the prefix.
    NotACommand,
    /// The first word, given here with its prefix, calls no command.
    UnknownCommand(Seq<char>),
    /// The command was given the wrong number of arguments.
    Usage(CommandName),
    /// The argument is not the name of a language server.
    UnknownServer(Seq<char>),
}

/// What the command `name` means with the arguments `args`. `help` and
/// `list` pass over their arguments, `add` takes none, and every other
/// command takes one.
pub open spec fn call_of(name: CommandName, args: Seq<Seq<char>>) -> LineModel {
    match name {
        CommandName::Help => LineModel::Help,
        CommandName::List => LineModel::List,
        CommandName::Add => if args.len() == 0 {
            LineModel::Add
        } else {
            LineModel::Usage(name)
        },
        CommandName::Use => if args.len() == 1 {
            LineModel::Use(args[0])
        } else {
            LineModel::Usage(name)
        },
        CommandName::Delete => if args.len() == 1 {
            LineModel::Delete(args[0])
        } else {
            LineModel::Usage(name)
        },
        CommandName::SetLspServer => if args.len() == 1 {
            match server_named(lowercase(args[0])) {
                Some(server) => LineModel::SetLspServer(server),
                None => LineModel::UnknownServer(args[0]),
            }
        } else {
            LineModel::Usage(name)
        },
    }
}

/// What the line `line` means. It is cut at every space; the first piece
/// is the command with its prefix, the others are its arguments.
pub open spec fn line_meaning(line: Seq<char>) -> LineModel {
    let pieces = split(line, ' ');
    let first = pieces[0];
    if !command_prefix().is_prefix_of(first) {
        LineModel::NotACommand
    } else {
        match CommandName::called_by(first.skip(1)) {
            Some(name) => call_of(name, pieces.skip(1)),
            None => LineModel::UnknownCommand(first),
        }
    }
}

/// Whether `r` says what `meaning` says.
pub open spec fn expresses(r: Result<CommandCall, SqlFriendError>, line: Seq<char>, meaning: LineModel) -> bool {
    match meaning {
        LineModel::Help => r matches Ok(CommandCall::Help),
        LineModel::List => r matches Ok(CommandCall::List),
        LineModel::Add => r matches Ok(CommandCall::Add),
        LineModel::Use(name) => r matches Ok(CommandCall::Use(n)) && n@ == name,
        LineModel::Delete(name) => r matches Ok(CommandCall::Delete(n)) && n@ == name,
        LineModel::SetLspServer(server) => r matches Ok(CommandCall::SetLspServer(s)) && s
            == server,
        LineModel::NotACommand => r matches Err(SqlFriendError::Unknown(m)) && m@ == "`"@ + line
            + "` is not a command"@,
        LineModel::UnknownCommand(word) => r matches Err(SqlFriendError::InvalidCommand(w))
            && w@ == word,
        LineModel::Usage(name) => r matches Err(SqlFriendError::InvalidCommandUsage(u)) && u@
            == name.usage(),
        LineModel::UnknownServer(given) => r matches Err(
            SqlFriendError::InvalidLspServer(g, known),
        ) && g@ == given && known@ == seq![
            LspServerType::Sqls,
            LspServerType::SqlLs,
            LspServerType::PgTools,
        ],
    }
}

fn usage_error(name: CommandName) -> (r: SqlFriendError)
    ensures
        r matches SqlFriendError::InvalidCommandUsage(u) && u@ == name.usage(),
{
    SqlFriendError::InvalidCommandUsage(String::from_str(name.command().usage))
}

/// Reads a command line: which command it calls, with which arguments,
/// or why it cannot be carried out.
pub fn handle_command(line: &str) -> (r: Result<CommandCall, SqlFriendError>)
    ensures
        expresses(r, line@, line_meaning(line@)),
{
    let pieces = split_at_char(line, ' ');
    let first = pieces[0].as_str();
    if !str_starts_with(first, "/") {
        let mut message = String::from_str("`");
        message.append(line);
        message.append("` is not a command");
        return Err(SqlFriendError::Unknown(message));
    }
    proof {
        reveal_strlit("/");
    }
    let word = first.substring_char(1, first.unicode_len());
    let name = match CommandName::find(word) {
        Some(name) => name,
        None => {
            return Err(SqlFriendError::InvalidCommand(String::from_str(first)));
        },
    };
    let count = pieces.len() - 1;
    match name {
        CommandName::Help => Ok(CommandCall::Help),
        CommandName::List => Ok(CommandCall::List),
        CommandName::Add => if count == 0 {
            Ok(CommandCall::Add)
        } else {
            Err(usage_error(name))
        },
        CommandName::Use => if count == 1 {
            Ok(CommandCall::Use(pieces[1].clone()))
        } else {
            Err(usage_error(name))
        },
        CommandName::Delete => if count == 1 {
            Ok(CommandCall::Delete(pieces[1].clone()))
        } else {
            Err(usage_error(name))
        },
        CommandName::SetLspServer => if count == 1 {
            match parse_lsp_server(pieces[1].as_str()) {
                Ok(server) => Ok(CommandCall::SetLspServer(server)),
                Err(e) => Err(e),
            }
        } else {
            Err(usage_error(name))
        },
    }
}

/// The width to which the usage of a command is filled up in the help.
pub const USAGE_WIDTH: usize = 35;

/// The number of spaces that fill a usage of `len` characters up.
pub open spec fn padding(len: nat) -> nat {
    if len < USAGE_WIDTH {
        (USAGE_WIDTH - len) as nat
    } else {
        0
    }
}

/// The line of the help for a command: a tab, the usage filled up with
/// spaces to 35 characters, a dash between spaces, and the description.
pub open spec fn help_line(name: CommandName) -> Seq<char> {
    "\t"@ + name.usage() + spaces(padding(name.usage().len())) + " - "@ + name.description()
}

/// The lines of the help for the commands `names`, each but the last
/// followed by a line feed.
pub open spec fn help_lines(names: Seq<CommandName>) -> Seq<char>
    decreases names.len(),
{
    if names.len() == 0 {
        Seq::empty()
    } else if names.len() == 1 {
        help_line(names[0])
    } else {
        help_lines(names.drop_last()) + "\n"@ + help_line(names.last())
    }
}

fn push_help_line(out: &mut String, name: CommandName)
    ensures
        final(out)@ == old(out)@ + help_line(name),
{
    let command = name.command();
    let width = command.usage.unicode_len();
    out.append("\t");
    out.append(command.usage);
    let fill: usize = if width < USAGE_WIDTH {
        USAGE_WIDTH - width
    } else {
        0
    };
    push_spaces(out, fill);
    out.append(" - ");
    out.append(command.description);
}

/// The text of the help: one line for every command.
pub fn handle_help() -> (r: String)
    ensures
        r@ == help_lines(CommandName::every()),
{
    let names = CommandName::all();
    let mut out = String::new();
    let mut i: usize = 0;
    while i < names.len()
        invariant
            i <= names@.len(),
            out@ == help_lines(names@.take(i as int)),
        decreases names@.len() - i,
    {
        let ghost now = names@.take(i + 1);
        assert(now.drop_last() =~= names@.take(i as int));
        if i > 0 {
            out.append("\n");
        }
        push_help_line(&mut out, names[i]);
        i += 1;
    }
    assert(names@.take(i as int) =~= names@);
    out
}

/// The line that shows a connection: its name, a colon, and its settings.
pub open spec fn connection_line(connection: Connection) -> Seq<char> {
    connection.name@ + ": "@ + connection.settings.shown()
}

/// The lines that show `connections`, each but the last followed by a
/// line feed.
pub open spec fn connection_lines(connections: Seq<Connection>) -> Seq<char>
    decreases connections.len(),
{
    if connections.len() == 0 {
        Seq::empty()
    } else if connections.len() == 1 {
        connection_line(connections[0])
    } else {
        connection_lines(connections.drop_last()) + "\n"@ + connection_line(connections.last())
    }
}

/// The line that shows a connection: its name, a colon, and its settings.
pub fn describe_connection(connection: &Connection) -> (r: String)
    ensures
        r@ == connection_line(*connection),
{
    let mut out = connection.name.clone();
    out.append(": ");
    connection.settings.show(&mut out);
    out
}

/// The text that lists the stored connections, one on each line.
pub fn handle_list(config: &Config) -> (r: String)
    ensures
        r@ == connection_lines(config.connections@),
{
    let connections = config.get_connections();
    let mut out = String::new();
    let mut i: usize = 0;
    while i < connections.len()
        invariant
            i <= connections@.len(),
            out@ == connection_lines(connections@.take(i as int)),
        decreases connections@.len() - i,
    {
        let ghost now = connections@.take(i + 1);
        assert(now.drop_last() =~= connections@.take(i as int));
        if i > 0 {
            out.append("\n");
        }
        out.append(describe_connection(&connections[i]).as_str());
        i += 1;
    }
    assert(connections@.take(i as int) =~= connections@);
    out
}

/// Makes the connection called `name` the current one and gives back a
/// copy of it, to connect to. Without such a connection nothing changes.
pub fn handle_use(config: &mut Config, name: &str) -> (r: Result<Connection, SqlFriendError>)
    ensures
        final(config).connections == old(config).connections,
        final(config).lsp_server == old(config).lsp_server,
        ({
            let at = first_named(old(config).connections@, name@);
            if at < old(config).connections@.len() {
                &&& r == Ok::<Connection, SqlFriendError>(old(config).connections@[at])
                &&& final(config).current_connection_name matches Some(n) && n@ == name@
            } else {
                &&& r matches Err(SqlFriendError::InvalidConnectionName(n)) && n@ == name@
                &&& final(config).current_connection_name == old(config).current_connection_name
            }
        }),
{
    match config.set_current_connection(name) {
        Ok(()) => {},
        Err(e) => {
            return Err(e);
        },
    }
    match config.get_current_connection() {
        Some(connection) => Ok(connection.duplicate()),
        None => Err(
            SqlFriendError::Unknown(String::from_str("internal error: current connection not set")),
        ),
    }
}

/// What the user is told when a connection is deleted.
pub open spec fn deleted_text(name: Seq<char>) -> Seq<char> {
    "Deleted "@ + name + "."@
}

/// Deletes the connection called `name` and gives back what to tell the
/// user. Without such a connection nothing changes.
pub fn handle_delete(config: &mut Config, name: &str) -> (r: Result<String, SqlFriendError>)
    ensures
        final(config).current_connection_name == old(config).current_connection_name,
        final(config).lsp_server == old(config).lsp_server,
        ({
            let at = first_named(old(config).connections@, name@);
            if at < old(config).connections@.len() {
                &&& r matches Ok(told) && told@ == deleted_text(name@)
                &&& final(config).connections@ == old(config).connections@.update(
                    at,
                    old(config).connections@.last(),
                ).drop_last()
            } else {
                &&& r matches Err(SqlFriendError::InvalidConnectionName(n)) && n@ == name@
                &&& final(config).connections@ == old(config).connections@
            }
        }),
{
    match config.delete_connection(name) {
        Ok(()) => {
            let mut told = String::from_str("Deleted ");
            told.append(name);
            told.append(".");
            Ok(told)
        },
        Err(e) => Err(e),
    }
}

/// Sets the language server and gives back a copy of the current
/// connection, if there is one, to connect to again.
pub fn handle_set_lsp_server(config: &mut Config, server: LspServerType) -> (r: Option<Connection>)
    ensures
        final(config).lsp_server == Some(server),
        final(config).connections == old(config).connections,
        final(config).current_connection_name == old(config).current_connection_name,
        r == old(config).current_connection(),
{
    let _ = config.set_lsp_server(server);
    match config.get_current_connection() {
        Some(connection) => Some(connection.duplicate()),
        None => None,
    }
}

/// The kinds of database that a connection can be added for.
#[derive(Debug, Clone, Copy, PartialEq, Eq, Structural)]
pub enum DatabaseKind {
    Postgres,
    MySql,
    Sqlite,
}

/// A question that is put to the user when a connection is added.
#[derive(Debug, Clone, Copy, PartialEq, Eq)]
pub struct Prompt {
    pub label: &'static str,
    /// Whether the answer may be left empty, which then counts as none.
    pub optional: bool,
}

impl DatabaseKind {
    /// The name under which the kind is offered to the user.
    pub fn as_str(&self) -> (r: &'static str)
        ensures
            r@ == match self {
                DatabaseKind::Postgres => "postgres"@,
                DatabaseKind::MySql => "mysql"@,
                DatabaseKind::Sqlite => "sqlite"@,
            },
    {
        match self {
            DatabaseKind::Postgres => "postgres",
            DatabaseKind::MySql => "mysql",
            DatabaseKind::Sqlite => "sqlite",
        }
    }

    /// The kinds in the order in which they are offered.
    pub fn all() -> (r: Vec<DatabaseKind>)
        ensures
            r@ == seq![DatabaseKind::Postgres, DatabaseKind::MySql, DatabaseKind::Sqlite],
    {
        let mut all: Vec<DatabaseKind> = Vec::new();
        all.push(DatabaseKind::Postgres);
        all.push(DatabaseKind::MySql);
        all.push(DatabaseKind::Sqlite);
        all
    }

    /// The number of questions that are asked for a database of this kind,
    /// after its name.
    pub open spec fn questions(self) -> nat {
        match self {
            DatabaseKind::Sqlite => 1,
            _ => 5,
        }
    }

    /// The questions for a database of this kind, in the order in which
    /// they are asked: for a file its path; for a server the host, and then
    /// the port, the user, the password and the database, each of which
    /// may be left out.
    pub fn prompts(&self) -> (r: Vec<Prompt>)
        ensures
            r@.len() == self.questions(),
            forall|i: int| 0 <= i < r@.len() ==> (#[trigger] r@[i]).optional == (i > 0),
    {
        let mut prompts: Vec<Prompt> = Vec::new();
        match self {
            DatabaseKind::Sqlite => {
                prompts.push(Prompt { label: "Path to database file", optional: false });
            },
            _ => {
                prompts.push(Prompt { label: "Hostname", optional: false });
                prompts.push(Prompt { label: "Port (leave empty if none)", optional: true });
                prompts.push(Prompt { label: "Username (leave empty if none)", optional: true });
                prompts.push(Prompt { label: "Password (leave empty if none)", optional: true });
                prompts.push(Prompt { label: "Database (leave empty if none)", optional: true });
            },
        }
        prompts
    }
}

/// An answer that may be left out: an empty one counts as none.
pub open spec fn optional_answer(answer: String) -> Option<String> {
    if answer@.len() == 0 {
        None
    } else {
        Some(answer)
    }
}

fn optional(answer: &String) -> (r: Option<String>)
    ensures
        r == optional_answer(*answer),
{
    if answer.as_str().is_empty() {
        None
    } else {
        Some(answer.clone())
    }
}

/// The settings that the answers of the user make, for a database of the
/// given kind.
pub open spec fn settings_from(kind: DatabaseKind, answers: Seq<String>) -> ConnectionSettings
    recommends
        answers.len() == kind.questions(),
{
    match kind {
        DatabaseKind::Sqlite => ConnectionSettings::Sqlite { filename: answers[0] },
        DatabaseKind::MySql => ConnectionSettings::MySql {
            host: answers[0],
            port: optional_answer(answers[1]),
            user: optional_answer(answers[2]),
            password: optional_answer(answers[3]),
            database: optional_answer(answers[4]),
        },
        DatabaseKind::Postgres => ConnectionSettings::Postgres {
            host: answers[0],
            port: optional_answer(answers[1]),
            user: optional_answer(answers[2]),
            password: optional_answer(answers[3]),
            database: optional_answer(answers[4]),
        },
    }
}

/// Makes the connection that the user described: `answers` are the
/// answers to the questions of `kind`, in their order. `None` where their
/// number is not that of the questions.
pub fn handle_add(kind: DatabaseKind, name: String, answers: &Vec<String>) -> (r: Option<
    Connection,
>)
    ensures
        if answers@.len() == kind.questions() {
            r == Some(Connection { name, settings: settings_from(kind, answers@) })
        } else {
            r is None
        },
{
    match kind {
        DatabaseKind::Sqlite => {
            if answers.len() != 1 {
                return None;
            }
            Some(
                Connection {
                    name,
                    settings: ConnectionSettings::Sqlite { filename: answers[0].clone() },
                },
            )
        },
        DatabaseKind::MySql => {
            if answers.len() != 5 {
                return None;
            }
            Some(
                Connection {
                    name,
                    settings: ConnectionSettings::MySql {
                        host: answers[0].clone(),
                        port: optional(&answers[1]),
                        user: optional(&answers[2]),
                        password: optional(&answers[3]),
                        database: optional(&answers[4]),
                    },
                },
            )
        },
        DatabaseKind::Postgres => {
            if answers.len() != 5 {
                return None;
            }
            Some(
                Connection {
                    name,
                    settings: ConnectionSettings::Postgres {
                        host: answers[0].clone(),
                        port: optional(&answers[1]),
                        user: optional(&answers[2]),
                        password: optional(&answers[3]),
                        database: optional(&answers[4]),
                    },
                },
            )
        },
    }
}

/// What the user is told when a connection is stored.
pub open spec fn stored(connection: Connection) -> Seq<char> {
    "Stored "@ + connection.name@ + ": "@ + connection.shown() + "."@
}

/// What the user is told when a connection is stored.
pub fn stored_text(connection: &Connection) -> (r: String)
    ensures
        r@ == stored(*connection),
{
    let mut out = String::from_str("Stored ");
    out.append(connection.name.as_str());
    out.append(": ");
    connection.show(&mut out);
    out.append(".");
    out
}

} // verus!
