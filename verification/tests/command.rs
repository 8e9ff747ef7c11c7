use sqlfriend_core::command::{
    describe_connection, handle_add, handle_command, handle_delete, handle_help, handle_list,
    handle_set_lsp_server, handle_use, is_maybe_command, parse_lsp_server, server_by_name,
    stored_text, Command, CommandCall, CommandName, DatabaseKind, Prompt,
};
use sqlfriend_core::config::{Config, Connection, ConnectionSettings, LspServerType};
use sqlfriend_core::error::SqlFriendError;

fn sqlite(name: &str) -> Connection {
    Connection {
        name: name.to_string(),
        settings: ConnectionSettings::Sqlite {
            filename: "f".to_string(),
        },
    }
}

fn config_of(names: &[&str]) -> Config {
    let mut config = Config::default();
    for name in names {
        config.add_connection(sqlite(name)).unwrap();
    }
    config
}

#[test]
fn commands_start_with_a_slash() {
    assert!(is_maybe_command("/help"));
    assert!(is_maybe_command("/"));
    assert!(is_maybe_command("/ x"));
    assert!(!is_maybe_command(""));
    assert!(!is_maybe_command(" /help"));
    assert!(!is_maybe_command("SELECT 1 / 2"));
}

#[test]
fn command_table_is_complete() {
    assert_eq!(
        CommandName::all(),
        vec![
            CommandName::Add,
            CommandName::Delete,
            CommandName::Help,
            CommandName::List,
            CommandName::SetLspServer,
            CommandName::Use
        ]
    );
    assert_eq!(
        CommandName::Use.command(),
        Command {
            description: "Change the active connection.",
            usage: "/use <connection_name>"
        }
    );
    for name in CommandName::all() {
        assert_eq!(CommandName::find(name.as_str()), Some(name));
        assert!(name.command().usage.starts_with(&format!("/{}", name.as_str())));
    }
    assert_eq!(CommandName::find("Help"), None);
    assert_eq!(CommandName::find(""), None);
}

#[test]
fn command_lines_are_read() {
    assert_eq!(handle_command("/help"), Ok(CommandCall::Help));
    assert_eq!(handle_command("/help me please"), Ok(CommandCall::Help));
    assert_eq!(handle_command("/list"), Ok(CommandCall::List));
    assert_eq!(handle_command("/list all"), Ok(CommandCall::List));
    assert_eq!(handle_command("/add"), Ok(CommandCall::Add));
    assert_eq!(
        handle_command("/use prod"),
        Ok(CommandCall::Use("prod".to_string()))
    );
    assert_eq!(
        handle_command("/delete prod"),
        Ok(CommandCall::Delete("prod".to_string()))
    );
    assert_eq!(
        handle_command("/set_lsp_server PgTools"),
        Ok(CommandCall::SetLspServer(LspServerType::PgTools))
    );
    assert_eq!(
        handle_command("/set_lsp_server sqlls"),
        Ok(CommandCall::SetLspServer(LspServerType::SqlLs))
    );
}

#[test]
fn wrong_arguments_give_the_usage() {
    let usage = |text: &str| Err(SqlFriendError::InvalidCommandUsage(text.to_string()));
    assert_eq!(handle_command("/add now"), usage("/add"));
    assert_eq!(handle_command("/add "), usage("/add"));
    assert_eq!(handle_command("/use"), usage("/use <connection_name>"));
    assert_eq!(handle_command("/use a b"), usage("/use <connection_name>"));
    assert_eq!(handle_command("/use  a"), usage("/use <connection_name>"));
    assert_eq!(handle_command("/delete"), usage("/delete <connection_name>"));
    assert_eq!(
        handle_command("/set_lsp_server"),
        usage("/set_lsp_server <lsp_server>")
    );
    // An empty argument is an argument.
    assert_eq!(
        handle_command("/use "),
        Ok(CommandCall::Use(String::new()))
    );
}

#[test]
fn unknown_commands_and_servers_are_errors() {
    assert_eq!(
        handle_command("/quit now"),
        Err(SqlFriendError::InvalidCommand("/quit".to_string()))
    );
    assert_eq!(
        handle_command("/"),
        Err(SqlFriendError::InvalidCommand("/".to_string()))
    );
    assert_eq!(
        handle_command("/HELP"),
        Err(SqlFriendError::InvalidCommand("/HELP".to_string()))
    );
    assert_eq!(
        handle_command("/set_lsp_server vim"),
        Err(SqlFriendError::InvalidLspServer(
            "vim".to_string(),
            vec![
                LspServerType::Sqls,
                LspServerType::SqlLs,
                LspServerType::PgTools
            ]
        ))
    );
}

#[test]
fn what_is_no_command_is_an_error() {
    assert_eq!(
        handle_command("SELECT 1;"),
        Err(SqlFriendError::Unknown(
            "`SELECT 1;` is not a command".to_string()
        ))
    );
    assert_eq!(
        handle_command(""),
        Err(SqlFriendError::Unknown("`` is not a command".to_string()))
    );
}

#[test]
fn server_names_are_read_in_any_case() {
    assert_eq!(parse_lsp_server("sqls"), Ok(LspServerType::Sqls));
    assert_eq!(parse_lsp_server("SQLS"), Ok(LspServerType::Sqls));
    assert_eq!(parse_lsp_server("SqlLs"), Ok(LspServerType::SqlLs));
    assert_eq!(parse_lsp_server("pgTOOLS"), Ok(LspServerType::PgTools));
    assert!(parse_lsp_server("sql-ls").is_err());
    assert_eq!(server_by_name("sqls"), Some(LspServerType::Sqls));
    assert_eq!(server_by_name("Sqls"), None);
}

#[test]
fn help_lists_every_command() {
    assert_eq!(
        handle_help(),
        "\t/add                                - Add a new connection.\n\
         \t/delete <connection_name>           - Delete a saved connection.\n\
         \t/help                               - Display a list of available commands.\n\
         \t/list                               - List all saved connections.\n\
         \t/set_lsp_server <lsp_server>        - Set the LSP server (Sqls, SqlLs, or PgTools). Should be available in $PATH.\n\
         \t/use <connection_name>              - Change the active connection."
    );
}

#[test]
fn help_is_in_ascending_order() {
    let help = handle_help();
    let lines: Vec<&str> = help.lines().collect();
    let mut sorted = lines.clone();
    sorted.sort_unstable();
    assert_eq!(lines, sorted);
    for line in lines {
        assert_eq!(line, format!("\t{:35} - {}", &line[1..36].trim_end(), &line[39..]));
    }
}

#[test]
fn connections_are_listed_one_per_line() {
    assert_eq!(handle_list(&Config::default()), "");
    assert_eq!(
        handle_list(&config_of(&["a", "b"])),
        "a: Sqlite { filename: \"f\" }\nb: Sqlite { filename: \"f\" }"
    );
    assert_eq!(
        describe_connection(&Connection {
            name: "pg".to_string(),
            settings: ConnectionSettings::Postgres {
                host: "h".to_string(),
                port: None,
                user: Some("u".to_string()),
                password: None,
                database: None
            }
        }),
        "pg: Postgres { host: \"h\", port: None, user: Some(\"u\"), password: None, database: None }"
    );
}

#[test]
fn use_sets_the_current_connection() {
    let mut config = config_of(&["a", "b"]);
    assert_eq!(handle_use(&mut config, "b"), Ok(sqlite("b")));
    assert_eq!(config.current_connection_name, Some("b".to_string()));
    assert_eq!(
        handle_use(&mut config, "c"),
        Err(SqlFriendError::InvalidConnectionName("c".to_string()))
    );
    assert_eq!(config.current_connection_name, Some("b".to_string()));
}

#[test]
fn delete_removes_the_connection() {
    let mut config = config_of(&["a", "b"]);
    assert_eq!(handle_delete(&mut config, "a"), Ok("Deleted a.".to_string()));
    assert_eq!(config.get_connections(), &vec![sqlite("b")]);
    assert_eq!(
        handle_delete(&mut config, "a"),
        Err(SqlFriendError::InvalidConnectionName("a".to_string()))
    );
}

#[test]
fn set_lsp_server_reconnects_to_the_current_connection() {
    let mut config = config_of(&["a"]);
    assert_eq!(handle_set_lsp_server(&mut config, LspServerType::SqlLs), None);
    assert_eq!(config.get_lsp_server(), Some(&LspServerType::SqlLs));
    config.set_current_connection("a").unwrap();
    assert_eq!(
        handle_set_lsp_server(&mut config, LspServerType::PgTools),
        Some(sqlite("a"))
    );
    assert_eq!(config.get_lsp_server(), Some(&LspServerType::PgTools));
}

#[test]
fn add_asks_by_kind_of_database() {
    assert_eq!(
        DatabaseKind::all(),
        vec![DatabaseKind::Postgres, DatabaseKind::MySql, DatabaseKind::Sqlite]
    );
    assert_eq!(DatabaseKind::Postgres.as_str(), "postgres");
    assert_eq!(DatabaseKind::MySql.as_str(), "mysql");
    assert_eq!(DatabaseKind::Sqlite.as_str(), "sqlite");
    assert_eq!(
        DatabaseKind::Sqlite.prompts(),
        vec![Prompt {
            label: "Path to database file",
            optional: false
        }]
    );
    for kind in [DatabaseKind::Postgres, DatabaseKind::MySql] {
        assert_eq!(
            kind.prompts(),
            vec![
                Prompt {
                    label: "Hostname",
                    optional: false
                },
                Prompt {
                    label: "Port (leave empty if none)",
                    optional: true
                },
                Prompt {
                    label: "Username (leave empty if none)",
                    optional: true
                },
                Prompt {
                    label: "Password (leave empty if none)",
                    optional: true
                },
                Prompt {
                    label: "Database (leave empty if none)",
                    optional: true
                },
            ]
        );
    }
}

#[test]
fn add_builds_the_connection_from_the_answers() {
    let answers: Vec<String> = ["h", "", "u", "", "d"].iter().map(|s| s.to_string()).collect();
    assert_eq!(
        handle_add(DatabaseKind::MySql, "my".to_string(), &answers),
        Some(Connection {
            name: "my".to_string(),
            settings: ConnectionSettings::MySql {
                host: "h".to_string(),
                port: None,
                user: Some("u".to_string()),
                password: None,
                database: Some("d".to_string())
            }
        })
    );
    assert_eq!(
        handle_add(DatabaseKind::Postgres, "pg".to_string(), &answers),
        Some(Connection {
            name: "pg".to_string(),
            settings: ConnectionSettings::Postgres {
                host: "h".to_string(),
                port: None,
                user: Some("u".to_string()),
                password: None,
                database: Some("d".to_string())
            }
        })
    );
    assert_eq!(
        handle_add(DatabaseKind::Sqlite, "s".to_string(), &vec!["f".to_string()]),
        Some(sqlite("s"))
    );
    assert_eq!(handle_add(DatabaseKind::Sqlite, "s".to_string(), &answers), None);
    assert_eq!(handle_add(DatabaseKind::MySql, "s".to_string(), &vec![]), None);
}

#[test]
fn stored_connection_is_announced() {
    assert_eq!(
        stored_text(&sqlite("s")),
        "Stored s: Connection { name: \"s\", settings: Sqlite { filename: \"f\" } }."
    );
}

#[test]
fn connections_are_shown_as_their_debug_form() {
    let tricky = "a\"b\\c\nd\té\u{0}'\u{7f}\u{301}";
    let connections = [
        sqlite("plain"),
        sqlite(tricky),
        Connection {
            name: tricky.to_string(),
            settings: ConnectionSettings::MySql {
                host: tricky.to_string(),
                port: Some("3306".to_string()),
                user: Some(tricky.to_string()),
                password: None,
                database: Some(String::new()),
            },
        },
        Connection {
            name: "pg".to_string(),
            settings: ConnectionSettings::Postgres {
                host: "h".to_string(),
                port: None,
                user: None,
                password: Some("p w".to_string()),
                database: None,
            },
        },
    ];
    for connection in &connections {
        assert_eq!(
            describe_connection(connection),
            format!("{}: {:?}", connection.name, connection.settings)
        );
        assert_eq!(
            stored_text(connection),
            format!("Stored {}: {:?}.", connection.name, connection)
        );
    }
}
