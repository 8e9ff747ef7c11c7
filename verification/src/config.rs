use vstd::prelude::*;
use vstd::string::StringExecFns;
use vstd::utf8::encode_utf8;
use crate::error::SqlFriendError;
use crate::json::{json_array, json_number, json_object, json_of, json_string, members, Json};
use crate::lsp::server::CommunicationProtocol;
use crate::text::{
    debug_str, decimal_text, parse_decimal, parse_decimal_range, quoted, str_eq, texts,
};

verus! {

/// The language servers that can be started.
#[derive(Debug, Clone, Copy, PartialEq, Eq, Structural)]
pub enum LspServerType {
    /// sqls
    Sqls,
    /// sql-language-server
    SqlLs,
    /// postgrestools/postgres-language-server
    PgTools,
}

impl Default for LspServerType {
    fn default() -> (r: Self)
        ensures
            r == LspServerType::Sqls,
    {
        LspServerType::Sqls
    }
}

impl LspServerType {
    /// Every server type, in the order in which they are listed to the user.
    pub fn values() -> (r: Vec<LspServerType>)
        ensures
            r@ == seq![LspServerType::Sqls, LspServerType::SqlLs, LspServerType::PgTools],
    {
        let mut all = Vec::new();
        all.push(LspServerType::Sqls);
        all.push(LspServerType::SqlLs);
        all.push(LspServerType::PgTools);
        all
    }

    /// The name under which the server type is shown and stored.
    pub open spec fn name(self) -> Seq<char> {
        match self {
            LspServerType::Sqls => "Sqls"@,
            LspServerType::SqlLs => "SqlLs"@,
            LspServerType::PgTools => "PgTools"@,
        }
    }

    pub fn as_str(&self) -> (r: &'static str)
        ensures
            r@ == self.name(),
    {
        match self {
            LspServerType::Sqls => "Sqls",
            LspServerType::SqlLs => "SqlLs",
            LspServerType::PgTools => "PgTools",
        }
    }

    /// The binary that runs the server.
    pub open spec fn command(self) -> Seq<char> {
        match self {
            LspServerType::Sqls => "sqls"@,
            LspServerType::SqlLs => "sql-language-server"@,
            LspServerType::PgTools => "postgrestools"@,
        }
    }

    /// The arguments that the binary is started with. Only `PgTools` takes
    /// the extra ones.
    pub open spec fn arguments(self, extra_args: Seq<Seq<char>>) -> Seq<Seq<char>> {
        match self {
            LspServerType::Sqls => Seq::empty(),
            LspServerType::SqlLs => seq!["up"@, "--method"@, "stdio"@, "-d"@],
            LspServerType::PgTools => seq!["lsp-proxy"@] + extra_args,
        }
    }

    /// Convert into `CommunicationProtocol::Stdio`.
    pub fn to_stdio_cmd(&self, extra_args: Vec<String>) -> (r: CommunicationProtocol)
        ensures
            r matches CommunicationProtocol::Stdio { cmd, args } && cmd@ == self.command()
                && texts(args@) == self.arguments(texts(extra_args@)),
    {
        match self {
            LspServerType::Sqls => {
                let args: Vec<String> = Vec::new();
                CommunicationProtocol::Stdio { cmd: String::from_str("sqls"), args }
            },
            LspServerType::SqlLs => {
                let mut args: Vec<String> = Vec::new();
                args.push(String::from_str("up"));
                args.push(String::from_str("--method"));
                args.push(String::from_str("stdio"));
                args.push(String::from_str("-d"));
                CommunicationProtocol::Stdio { cmd: String::from_str("sql-language-server"), args }
            },
            LspServerType::PgTools => {
                let mut args: Vec<String> = Vec::new();
                args.push(String::from_str("lsp-proxy"));
                let mut extra_args = extra_args;
                args.append(&mut extra_args);
                CommunicationProtocol::Stdio { cmd: String::from_str("postgrestools"), args }
            },
        }
    }
}

/// Where a database is and how to log in to it.
#[derive(Debug, Clone, PartialEq, Eq)]
pub enum ConnectionSettings {
    Sqlite { filename: String },
    MySql {
        host: String,
        port: Option<String>,
        user: Option<String>,
        password: Option<String>,
        database: Option<String>,
    },
    Postgres {
        host: String,
        port: Option<String>,
        user: Option<String>,
        password: Option<String>,
        database: Option<String>,
    },
}

/// A stored connection: its name and its settings.
#[derive(Debug, Clone, PartialEq, Eq)]
pub struct Connection {
    pub name: String,
    pub settings: ConnectionSettings,
}

fn copy_text(text: &Option<String>) -> (r: Option<String>)
    ensures
        r == *text,
{
    match text {
        Some(text) => Some(text.clone()),
        None => None,
    }
}

impl ConnectionSettings {
    /// A copy of the settings.
    pub fn duplicate(&self) -> (r: Self)
        ensures
            r == *self,
    {
        match self {
            ConnectionSettings::Sqlite { filename } => ConnectionSettings::Sqlite {
                filename: filename.clone(),
            },
            ConnectionSettings::MySql {
                host,
                port,
                user,
                password,
                database,
            } => ConnectionSettings::MySql {
                host: host.clone(),
                port: copy_text(port),
                user: copy_text(user),
                password: copy_text(password),
                database: copy_text(database),
            },
            ConnectionSettings::Postgres {
                host,
                port,
                user,
                password,
                database,
            } => ConnectionSettings::Postgres {
                host: host.clone(),
                port: copy_text(port),
                user: copy_text(user),
                password: copy_text(password),
                database: copy_text(database),
            },
        }
    }
}

impl Connection {
    /// A copy of the connection.
    pub fn duplicate(&self) -> (r: Self)
        ensures
            r == *self,
    {
        Connection { name: self.name.clone(), settings: self.settings.duplicate() }
    }
}

/// A text that may be missing, as it is shown: `Some(..)` around the quoted
/// text, or `None`.
pub open spec fn optional_text(value: Option<String>) -> Seq<char> {
    match value {
        Some(text) => "Some("@ + quoted(text@) + ")"@,
        None => "None"@,
    }
}

/// The host and what follows it in the settings of a server, as they are
/// shown between the braces.
pub open spec fn server_fields(
    host: String,
    port: Option<String>,
    user: Option<String>,
    password: Option<String>,
    database: Option<String>,
) -> Seq<char> {
    "host: "@ + quoted(host@) + ", port: "@ + optional_text(port) + ", user: "@ + optional_text(
        user,
    ) + ", password: "@ + optional_text(password) + ", database: "@ + optional_text(database)
}

fn push_optional(out: &mut String, value: &Option<String>)
    ensures
        final(out)@ == old(out)@ + optional_text(*value),
{
    match value {
        Some(text) => {
            out.append("Some(");
            out.append(debug_str(text.as_str()).as_str());
            out.append(")");
        },
        None => {
            out.append("None");
        },
    }
}

fn push_server_fields(
    out: &mut String,
    host: &String,
    port: &Option<String>,
    user: &Option<String>,
    password: &Option<String>,
    database: &Option<String>,
)
    ensures
        final(out)@ == old(out)@ + server_fields(*host, *port, *user, *password, *database),
{
    out.append("host: ");
    out.append(debug_str(host.as_str()).as_str());
    out.append(", port: ");
    push_optional(out, port);
    out.append(", user: ");
    push_optional(out, user);
    out.append(", password: ");
    push_optional(out, password);
    out.append(", database: ");
    push_optional(out, database);
}

impl ConnectionSettings {
    /// The settings as they are shown to the user: the kind of database,
    /// and between braces each setting behind its name.
    pub open spec fn shown(self) -> Seq<char> {
        match self {
            ConnectionSettings::Sqlite { filename } => "Sqlite { filename: "@ + quoted(filename@)
                + " }"@,
            ConnectionSettings::MySql { host, port, user, password, database } => "MySql { "@
                + server_fields(host, port, user, password, database) + " }"@,
            ConnectionSettings::Postgres {
                host,
                port,
                user,
                password,
                database,
            } => "Postgres { "@ + server_fields(host, port, user, password, database) + " }"@,
        }
    }

    /// Appends the settings to `out` as they are shown.
    pub fn show(&self, out: &mut String)
        ensures
            final(out)@ == old(out)@ + self.shown(),
    {
        match self {
            ConnectionSettings::Sqlite { filename } => {
                out.append("Sqlite { filename: ");
                out.append(debug_str(filename.as_str()).as_str());
                out.append(" }");
            },
            ConnectionSettings::MySql { host, port, user, password, database } => {
                out.append("MySql { ");
                push_server_fields(out, host, port, user, password, database);
                out.append(" }");
            },
            ConnectionSettings::Postgres { host, port, user, password, database } => {
                out.append("Postgres { ");
                push_server_fields(out, host, port, user, password, database);
                out.append(" }");
            },
        }
    }
}

impl Connection {
    /// The connection as it is shown in full: its name and its settings
    /// between braces.
    pub open spec fn shown(self) -> Seq<char> {
        "Connection { name: "@ + quoted(self.name@) + ", settings: "@ + self.settings.shown()
            + " }"@
    }

    /// Appends the connection to `out` as it is shown in full.
    pub fn show(&self, out: &mut String)
        ensures
            final(out)@ == old(out)@ + self.shown(),
    {
        out.append("Connection { name: ");
        out.append(debug_str(self.name.as_str()).as_str());
        out.append(", settings: ");
        self.settings.show(out);
        out.append(" }");
    }
}

/// The port number that `s` denotes: a decimal number up to 65535.
pub open spec fn parse_u16(s: Seq<u8>) -> Option<u16> {
    match parse_decimal(s) {
        Some(n) => if n <= u16::MAX {
            Some(n as u16)
        } else {
            None
        },
        None => None,
    }
}

/// The port of a connection as a number: `Some(None)` where none is set,
/// `None` where the text is no port number.
pub open spec fn port_number(port: Option<String>) -> Option<Option<u16>> {
    match port {
        None => Some(None),
        Some(text) => match parse_u16(encode_utf8(text@)) {
            Some(n) => Some(Some(n)),
            None => None,
        },
    }
}

/// `m` with the member `key` set to the JSON string of `value`, if there is
/// one.
pub open spec fn with_text(m: Map<Seq<char>, Json>, key: Seq<char>, value: Option<String>) -> Map<
    Seq<char>,
    Json,
> {
    match value {
        Some(text) => m.insert(key, Json::String(text@)),
        None => m,
    }
}

/// `m` with the member `key` set to the JSON number of `port`, if there is
/// one.
pub open spec fn with_port(m: Map<Seq<char>, Json>, key: Seq<char>, port: Option<u16>) -> Map<
    Seq<char>,
    Json,
> {
    match port {
        Some(n) => m.insert(key, Json::Number(decimal_text(n as nat))),
        None => m,
    }
}

/// A JSON object with the one member `key`.
pub open spec fn wrapped(key: Seq<char>, value: Json) -> Json {
    Json::Object(Map::empty().insert(key, value))
}

fn push_field(fields: &mut Vec<(String, serde_json::Value)>, key: &str, value: serde_json::Value)
    ensures
        members(final(fields)@) == members(old(fields)@).insert(key@, json_of(value)),
{
    fields.push((String::from_str(key), value));
    assert(fields@.drop_last() =~= old(fields)@);
}

fn push_string(fields: &mut Vec<(String, serde_json::Value)>, key: &str, value: &str)
    ensures
        members(final(fields)@) == members(old(fields)@).insert(key@, Json::String(value@)),
{
    push_field(fields, key, json_string(value));
}

fn push_text(fields: &mut Vec<(String, serde_json::Value)>, key: &str, value: &Option<String>)
    ensures
        members(final(fields)@) == with_text(members(old(fields)@), key@, *value),
{
    match value {
        Some(text) => push_string(fields, key, text.as_str()),
        None => {},
    }
}

fn push_port(fields: &mut Vec<(String, serde_json::Value)>, key: &str, port: Option<u16>)
    ensures
        members(final(fields)@) == with_port(members(old(fields)@), key@, port),
{
    match port {
        Some(n) => push_field(fields, key, json_number(n)),
        None => {},
    }
}

fn wrap(key: &str, value: serde_json::Value) -> (r: serde_json::Value)
    ensures
        json_of(r) == wrapped(key@, json_of(value)),
{
    let mut outer: Vec<(String, serde_json::Value)> = Vec::new();
    push_field(&mut outer, key, value);
    json_object(outer)
}

impl ConnectionSettings {
    /// The name that sqls has for the database driver.
    pub open spec fn sqls_driver(self) -> Seq<char> {
        match self {
            ConnectionSettings::Sqlite { .. } => "sqlite3"@,
            ConnectionSettings::MySql { .. } => "mysql"@,
            ConnectionSettings::Postgres { .. } => "postgresql"@,
        }
    }

    /// The name that sql-language-server has for the database adapter.
    pub open spec fn sql_ls_adapter(self) -> Seq<char> {
        match self {
            ConnectionSettings::Sqlite { .. } => "sqlite3"@,
            ConnectionSettings::MySql { .. } => "mysql"@,
            ConnectionSettings::Postgres { .. } => "postgres"@,
        }
    }

    /// The port of a network connection; a file has none.
    pub open spec fn port(self) -> Option<String> {
        match self {
            ConnectionSettings::Sqlite { .. } => None,
            ConnectionSettings::MySql { port, .. } => port,
            ConnectionSettings::Postgres { port, .. } => port,
        }
    }

    /// The members of the `connectionConfig` object for sqls, the port
    /// being given as a number.
    pub open spec fn sqls_members(self, port: Option<u16>) -> Map<Seq<char>, Json> {
        let start = Map::<Seq<char>, Json>::empty().insert(
            "driver"@,
            Json::String(self.sqls_driver()),
        );
        match self {
            ConnectionSettings::Sqlite { filename } => start.insert(
                "dataSourceName"@,
                Json::String("file:"@ + filename@),
            ),
            ConnectionSettings::MySql { host, user, password, database, .. }
            | ConnectionSettings::Postgres { host, user, password, database, .. } => {
                let a = start.insert("host"@, Json::String(host@));
                let b = with_port(a, "port"@, port);
                let c = with_text(b, "user"@, user);
                let d = with_text(c, "passwd"@, password);
                let e = with_text(d, "dbName"@, database);
                e.insert("proto"@, Json::String("tcp"@))
            },
        }
    }

    /// The members of the one entry of `connections` for
    /// sql-language-server, for a connection called `name`.
    pub open spec fn sql_ls_members(self, name: Seq<char>, port: Option<u16>) -> Map<
        Seq<char>,
        Json,
    > {
        let start = Map::<Seq<char>, Json>::empty().insert("name"@, Json::String(name)).insert(
            "adapter"@,
            Json::String(self.sql_ls_adapter()),
        );
        match self {
            ConnectionSettings::Sqlite { filename } => start.insert(
                "filename"@,
                Json::String(filename@),
            ),
            ConnectionSettings::MySql { host, user, password, database, .. }
            | ConnectionSettings::Postgres { host, user, password, database, .. } => {
                let a = start.insert("host"@, Json::String(host@));
                let b = with_port(a, "port"@, port);
                let c = with_text(b, "user"@, user);
                let d = with_text(c, "password"@, password);
                with_text(d, "database"@, database)
            },
        }
    }

    /// The members of the `db` object for postgrestools. Only a Postgres
    /// connection has them.
    pub open spec fn pg_tools_members(self, port: Option<u16>) -> Map<Seq<char>, Json>
        recommends
            self is Postgres,
    {
        match self {
            ConnectionSettings::Postgres { host, user, password, database, .. } => {
                let a = Map::<Seq<char>, Json>::empty().insert("host"@, Json::String(host@));
                let b = with_port(a, "port"@, port);
                let c = with_text(b, "username"@, user);
                let d = with_text(c, "password"@, password);
                with_text(d, "database"@, database)
            },
            _ => Map::empty(),
        }
    }
}

/// The message for a port that is no number.
pub open spec fn invalid_port_text(port: Seq<char>) -> Seq<char> {
    "invalid port: "@ + port
}

/// The message for a server that only works with Postgres.
pub open spec fn not_postgres_text() -> Seq<char> {
    "cant use postgres-language-server with non-postgres database"@
}

impl Connection {
    /// Reads a port number. No port is `Ok(None)`; a text that is not a
    /// decimal number up to 65535 is an error that names the text.
    pub fn parse_port(port: Option<String>) -> (r: Result<Option<u16>, SqlFriendError>)
        ensures
            match port_number(port) {
                Some(n) => r == Ok::<Option<u16>, SqlFriendError>(n),
                None => r matches Err(SqlFriendError::Unknown(m)) && m@ == invalid_port_text(
                    port->0@,
                ),
            },
    {
        match port {
            None => Ok(None),
            Some(text) => {
                let bytes = text.as_str().as_bytes();
                assert(bytes@.subrange(0, bytes@.len() as int) =~= bytes@);
                match parse_decimal_range(bytes, 0, bytes.len()) {
                    Some(n) => if n <= 65535 {
                        Ok(Some(n as u16))
                    } else {
                        Err(invalid_port(text))
                    },
                    None => Err(invalid_port(text)),
                }
            },
        }
    }

    /// The initialization options that sqls takes.
    pub open spec fn sqls_config(self) -> Option<Json> {
        match port_number(self.settings.port()) {
            Some(port) => Some(
                wrapped("connectionConfig"@, Json::Object(self.settings.sqls_members(port))),
            ),
            None => None,
        }
    }

    /// The initialization options that sql-language-server takes.
    pub open spec fn sql_ls_config(self) -> Option<Json> {
        match port_number(self.settings.port()) {
            Some(port) => Some(
                wrapped(
                    "connections"@,
                    Json::Array(seq![Json::Object(self.settings.sql_ls_members(self.name@, port))]),
                ),
            ),
            None => None,
        }
    }

    /// The configuration file that postgrestools takes.
    pub open spec fn pg_tools_config(self) -> Option<Json> {
        match port_number(self.settings.port()) {
            Some(port) => Some(wrapped("db"@, Json::Object(self.settings.pg_tools_members(port)))),
            None => None,
        }
    }

    /// Convert the connection to a `connectionConfig` for sqls. Fails only
    /// where the port is no number.
    pub fn to_sqls_connection_config(self) -> (r: Result<serde_json::Value, SqlFriendError>)
        ensures
            match self.sqls_config() {
                Some(config) => r is Ok && json_of(r->Ok_0) == config,
                None => r matches Err(SqlFriendError::Unknown(m)) && m@ == invalid_port_text(
                    self.settings.port()->0@,
                ),
            },
    {
        let mut fields: Vec<(String, serde_json::Value)> = Vec::new();
        match self.settings {
            ConnectionSettings::Sqlite { filename } => {
                push_string(&mut fields, "driver", "sqlite3");
                let mut source = String::from_str("file:");
                source.append(filename.as_str());
                push_string(&mut fields, "dataSourceName", source.as_str());
            },
            ConnectionSettings::MySql { host, port, user, password, database } => {
                let port = match Connection::parse_port(port) {
                    Ok(port) => port,
                    Err(e) => {
                        return Err(e);
                    },
                };
                push_string(&mut fields, "driver", "mysql");
                push_string(&mut fields, "host", host.as_str());
                push_port(&mut fields, "port", port);
                push_text(&mut fields, "user", &user);
                push_text(&mut fields, "passwd", &password);
                push_text(&mut fields, "dbName", &database);
                push_string(&mut fields, "proto", "tcp");
            },
            ConnectionSettings::Postgres { host, port, user, password, database } => {
                let port = match Connection::parse_port(port) {
                    Ok(port) => port,
                    Err(e) => {
                        return Err(e);
                    },
                };
                push_string(&mut fields, "driver", "postgresql");
                push_string(&mut fields, "host", host.as_str());
                push_port(&mut fields, "port", port);
                push_text(&mut fields, "user", &user);
                push_text(&mut fields, "passwd", &password);
                push_text(&mut fields, "dbName", &database);
                push_string(&mut fields, "proto", "tcp");
            },
        }
        Ok(wrap("connectionConfig", json_object(fields)))
    }
}

impl Connection {
    /// Convert the connection to the `connections` list for
    /// sql-language-server. Fails only where the port is no number.
    pub fn to_sql_ls_connection_config(self) -> (r: Result<serde_json::Value, SqlFriendError>)
        ensures
            match self.sql_ls_config() {
                Some(config) => r is Ok && json_of(r->Ok_0) == config,
                None => r matches Err(SqlFriendError::Unknown(m)) && m@ == invalid_port_text(
                    self.settings.port()->0@,
                ),
            },
    {
        let mut fields: Vec<(String, serde_json::Value)> = Vec::new();
        push_string(&mut fields, "name", self.name.as_str());
        match self.settings {
            ConnectionSettings::Sqlite { filename } => {
                push_string(&mut fields, "adapter", "sqlite3");
                push_string(&mut fields, "filename", filename.as_str());
            },
            ConnectionSettings::MySql { host, port, user, password, database } => {
                let port = match Connection::parse_port(port) {
                    Ok(port) => port,
                    Err(e) => {
                        return Err(e);
                    },
                };
                push_string(&mut fields, "adapter", "mysql");
                push_string(&mut fields, "host", host.as_str());
                push_port(&mut fields, "port", port);
                push_text(&mut fields, "user", &user);
                push_text(&mut fields, "password", &password);
                push_text(&mut fields, "database", &database);
            },
            ConnectionSettings::Postgres { host, port, user, password, database } => {
                let port = match Connection::parse_port(port) {
                    Ok(port) => port,
                    Err(e) => {
                        return Err(e);
                    },
                };
                push_string(&mut fields, "adapter", "postgres");
                push_string(&mut fields, "host", host.as_str());
                push_port(&mut fields, "port", port);
                push_text(&mut fields, "user", &user);
                push_text(&mut fields, "password", &password);
                push_text(&mut fields, "database", &database);
            },
        }
        let mut entries: Vec<serde_json::Value> = Vec::new();
        entries.push(json_object(fields));
        let list = json_array(entries);
        assert(json_of(list)->Array_0 =~= seq![
            Json::Object(self.settings.sql_ls_members(self.name@, port_number(self.settings.port())->0)),
        ]);
        Ok(wrap("connections", list))
    }

    /// The configuration document that postgrestools reads from its
    /// configuration file: the connection under the key `db`. Only a
    /// Postgres connection has one.
    pub fn to_postgres_ls_config_file(self) -> (r: Result<serde_json::Value, SqlFriendError>)
        ensures
            match self.settings {
                ConnectionSettings::Postgres { port, .. } => match self.pg_tools_config() {
                    Some(config) => r is Ok && json_of(r->Ok_0) == config,
                    None => r matches Err(SqlFriendError::Unknown(m)) && m@ == invalid_port_text(
                        port->0@,
                    ),
                },
                _ => r matches Err(SqlFriendError::Unknown(m)) && m@ == not_postgres_text(),
            },
    {
        match self.settings {
            ConnectionSettings::Postgres { host, port, user, password, database } => {
                let port = match Connection::parse_port(port) {
                    Ok(port) => port,
                    Err(e) => {
                        return Err(e);
                    },
                };
                let mut fields: Vec<(String, serde_json::Value)> = Vec::new();
                push_string(&mut fields, "host", host.as_str());
                push_port(&mut fields, "port", port);
                push_text(&mut fields, "username", &user);
                push_text(&mut fields, "password", &password);
                push_text(&mut fields, "database", &database);
                Ok(wrap("db", json_object(fields)))
            },
            _ => Err(
                SqlFriendError::Unknown(
                    String::from_str("cant use postgres-language-server with non-postgres database"),
                ),
            ),
        }
    }
}

impl LspServerType {
    /// The initialization options that a server of this type is given for
    /// `connection`: `None` for `PgTools`, which reads a configuration file
    /// instead.
    pub open spec fn initialization_options(self, connection: Connection) -> Option<Option<Json>> {
        match self {
            LspServerType::Sqls => match connection.sqls_config() {
                Some(config) => Some(Some(config)),
                None => None,
            },
            LspServerType::SqlLs => match connection.sql_ls_config() {
                Some(config) => Some(Some(config)),
                None => None,
            },
            LspServerType::PgTools => Some(None),
        }
    }

    /// Whether a server of this type reads the connection from a
    /// configuration file instead of initialization options.
    pub fn needs_config_file(&self) -> (r: bool)
        ensures
            r == (*self == LspServerType::PgTools),
    {
        match self {
            LspServerType::PgTools => true,
            _ => false,
        }
    }

    /// Convert into LSP initialization options. Fails only where the port
    /// of the connection is read and is no number.
    pub fn to_initialization_options(&self, connection: Connection) -> (r: Result<
        Option<serde_json::Value>,
        SqlFriendError,
    >)
        ensures
            match self.initialization_options(connection) {
                Some(Some(config)) => r matches Ok(Some(v)) && json_of(v) == config,
                Some(None) => r matches Ok(None),
                None => r matches Err(SqlFriendError::Unknown(m)) && m@ == invalid_port_text(
                    connection.settings.port()->0@,
                ),
            },
    {
        match self {
            LspServerType::Sqls => match connection.to_sqls_connection_config() {
                Ok(v) => Ok(Some(v)),
                Err(e) => Err(e),
            },
            LspServerType::SqlLs => match connection.to_sql_ls_connection_config() {
                Ok(v) => Ok(Some(v)),
                Err(e) => Err(e),
            },
            LspServerType::PgTools => Ok(None),
        }
    }
}

fn invalid_port(port: String) -> (r: SqlFriendError)
    ensures
        r matches SqlFriendError::Unknown(m) && m@ == invalid_port_text(port@),
{
    let mut message = String::from_str("invalid port: ");
    message.append(port.as_str());
    SqlFriendError::Unknown(message)
}

/// The stored configuration: the connections, which of them is in use, and
/// the language server to run.
#[derive(Debug, Clone, PartialEq, Eq)]
pub struct Config {
    pub current_connection_name: Option<String>,
    pub lsp_server: Option<LspServerType>,
    pub connections: Vec<Connection>,
}

/// Index of the first connection called `name`, or the number of
/// connections if none is.
pub open spec fn first_named(connections: Seq<Connection>, name: Seq<char>) -> int
    decreases connections.len(),
{
    if connections.len() == 0 {
        0
    } else if connections[0].name@ == name {
        0
    } else {
        1 + first_named(connections.drop_first(), name)
    }
}

proof fn lemma_first_named_at(connections: Seq<Connection>, name: Seq<char>, at: int)
    requires
        0 <= at <= connections.len(),
        forall|j: int| 0 <= j < at ==> (#[trigger] connections[j]).name@ != name,
        at < connections.len() ==> connections[at].name@ == name,
    ensures
        first_named(connections, name) == at,
    decreases connections.len(),
{
    if connections.len() > 0 && at > 0 {
        let rest = connections.drop_first();
        assert forall|j: int| 0 <= j < at - 1 implies (#[trigger] rest[j]).name@ != name by {}
        lemma_first_named_at(rest, name, at - 1);
    }
}

impl Default for Config {
    fn default() -> (r: Self)
        ensures
            r.current_connection_name is None,
            r.lsp_server is None,
            r.connections@.len() == 0,
    {
        Config { current_connection_name: None, lsp_server: None, connections: Vec::new() }
    }
}

impl Config {
    fn find(&self, name: &str) -> (at: usize)
        ensures
            at == first_named(self.connections@, name@),
            at <= self.connections@.len(),
    {
        let mut i: usize = 0;
        while i < self.connections.len() && !str_eq(self.connections[i].name.as_str(), name)
            invariant
                i <= self.connections@.len(),
                forall|j: int| 0 <= j < i ==> (#[trigger] self.connections@[j]).name@ != name@,
            decreases self.connections@.len() - i,
        {
            i += 1;
        }
        proof {
            lemma_first_named_at(self.connections@, name@, i as int);
        }
        i
    }

    /// Stores `connection` behind the ones that are there.
    pub fn add_connection(&mut self, connection: Connection) -> (r: Result<(), SqlFriendError>)
        ensures
            r is Ok,
            final(self).connections@ == old(self).connections@.push(connection),
            final(self).current_connection_name == old(self).current_connection_name,
            final(self).lsp_server == old(self).lsp_server,
    {
        self.connections.push(connection);
        Ok(())
    }

    /// Removes the first connection called `name`; the last connection takes
    /// its place. Without such a connection nothing changes and the name
    /// comes back as an error.
    pub fn delete_connection(&mut self, name: &str) -> (r: Result<(), SqlFriendError>)
        ensures
            final(self).current_connection_name == old(self).current_connection_name,
            final(self).lsp_server == old(self).lsp_server,
            ({
                let at = first_named(old(self).connections@, name@);
                if at < old(self).connections@.len() {
                    r is Ok && final(self).connections@ == old(self).connections@.update(
                        at,
                        old(self).connections@.last(),
                    ).drop_last()
                } else {
                    &&& r matches Err(SqlFriendError::InvalidConnectionName(n)) && n@ == name@
                    &&& final(self).connections@ == old(self).connections@
                }
            }),
    {
        let at = self.find(name);
        if at < self.connections.len() {
            self.connections.swap_remove(at);
            Ok(())
        } else {
            Err(SqlFriendError::InvalidConnectionName(String::from_str(name)))
        }
    }

    pub fn get_connections(&self) -> (r: &Vec<Connection>)
        ensures
            r == &self.connections,
    {
        &self.connections
    }

    /// The connection in use: the first connection that has the current
    /// name.
    pub open spec fn current_connection(self) -> Option<Connection> {
        match self.current_connection_name {
            Some(name) => {
                let at = first_named(self.connections@, name@);
                if at < self.connections@.len() {
                    Some(self.connections@[at])
                } else {
                    None
                }
            },
            None => None,
        }
    }

    pub fn get_current_connection(&self) -> (r: Option<&Connection>)
        ensures
            match self.current_connection() {
                Some(c) => r == Some(&c),
                None => r is None,
            },
    {
        match &self.current_connection_name {
            Some(name) => {
                let at = self.find(name.as_str());
                if at < self.connections.len() {
                    Some(&self.connections[at])
                } else {
                    None
                }
            },
            None => None,
        }
    }

    /// Makes the connection called `name` the one in use. Without such a
    /// connection nothing changes and the name comes back as an error.
    pub fn set_current_connection(&mut self, name: &str) -> (r: Result<(), SqlFriendError>)
        ensures
            final(self).connections == old(self).connections,
            final(self).lsp_server == old(self).lsp_server,
            if first_named(old(self).connections@, name@) < old(self).connections@.len() {
                &&& r is Ok
                &&& final(self).current_connection_name matches Some(n) && n@ == name@
            } else {
                &&& r matches Err(SqlFriendError::InvalidConnectionName(n)) && n@ == name@
                &&& final(self).current_connection_name == old(self).current_connection_name
            },
    {
        let at = self.find(name);
        if at < self.connections.len() {
            self.current_connection_name = Some(String::from_str(name));
            Ok(())
        } else {
            Err(SqlFriendError::InvalidConnectionName(String::from_str(name)))
        }
    }

    pub fn get_lsp_server(&self) -> (r: Option<&LspServerType>)
        ensures
            match self.lsp_server {
                Some(server) => r == Some(&server),
                None => r is None,
            },
    {
        self.lsp_server.as_ref()
    }

    pub fn set_lsp_server(&mut self, lsp_server: LspServerType) -> (r: Result<(), SqlFriendError>)
        ensures
            r is Ok,
            final(self).lsp_server == Some(lsp_server),
            final(self).connections == old(self).connections,
            final(self).current_connection_name == old(self).current_connection_name,
    {
        self.lsp_server = Some(lsp_server);
        Ok(())
    }

    /// The language server to run: the one that is set, or else the default
    /// one, with `true` to say that the default was taken.
    pub fn lsp_server_or_default(&self) -> (r: (LspServerType, bool))
        ensures
            match self.lsp_server {
                Some(server) => r == (server, false),
                None => r == (LspServerType::Sqls, true),
            },
    {
        match self.lsp_server {
            Some(server) => (server, false),
            None => (LspServerType::default(), true),
        }
    }
}

} // verus!
