use vstd::prelude::*;
use vstd::string::StringExecFns;
use crate::config::{invalid_port_text, not_postgres_text, Connection, LspServerType};
use crate::error::LspError;
use crate::json::{json_of, Json};
use crate::logging::{PrintPayload, Verbosity};
use crate::lsp::server::CommunicationProtocol;
use crate::text::texts;

verus! {

/// What the rest of the application can ask of the task manager.
#[derive(Debug, Clone, PartialEq, Eq)]
pub enum Command {
    /// Start the LSP server with the given settings and connection. Any
    /// existing server is killed.
    SpawnLsp(LspServerType, Connection),
}

/// What is told to every task of a session at once.
#[derive(Debug, Clone, Copy, PartialEq, Eq, Structural)]
pub enum BroadcastMessage {
    /// Kill LSP server tasks.
    KillLsp,
}

/// One step of starting a session. The steps of a plan are carried out in
/// their order, and a step that fails ends the plan.
#[derive(Debug, PartialEq, Eq)]
pub enum SpawnStep {
    /// Tell every task of the session that runs, if one does, to end. That
    /// nobody listens is no failure.
    Broadcast(BroadcastMessage),
    /// Wait until the supervisor of the session that ran has returned: it
    /// returns when it has killed the process and seen it gone. Without such
    /// a session there is nothing to wait for.
    AwaitExit,
    /// Let the client forget the session that ran: it is not initialized
    /// again before the handshake with the new server is done.
    ForgetSession,
    /// Write the document to a configuration file in a new temporary
    /// directory, for the server to read.
    WriteConfigFile(serde_json::Value),
    /// Start the server process and the four loops that serve it.
    Spawn(LspServerType),
    /// Run the handshake with the new server.
    Handshake(LspServerType, Connection),
    /// Tell the user of the success.
    Report(String),
    /// The plan cannot go on.
    Fail(LspError),
}

/// What a `SpawnStep` holds. A failure stands as its message.
pub enum StepModel {
    Broadcast(BroadcastMessage),
    AwaitExit,
    ForgetSession,
    WriteConfigFile(Json),
    Spawn(LspServerType),
    Handshake(LspServerType, Connection),
    Report(Seq<char>),
    Fail(Seq<char>),
}

impl SpawnStep {
    pub open spec fn model(self) -> StepModel {
        match self {
            SpawnStep::Broadcast(message) => StepModel::Broadcast(message),
            SpawnStep::AwaitExit => StepModel::AwaitExit,
            SpawnStep::ForgetSession => StepModel::ForgetSession,
            SpawnStep::WriteConfigFile(document) => StepModel::WriteConfigFile(json_of(document)),
            SpawnStep::Spawn(server_type) => StepModel::Spawn(server_type),
            SpawnStep::Handshake(server_type, connection) => StepModel::Handshake(
                server_type,
                connection,
            ),
            SpawnStep::Report(text) => StepModel::Report(text@),
            SpawnStep::Fail(error) => StepModel::Fail(error.text()),
        }
    }
}

/// The models of `steps`, in their order.
pub open spec fn step_models(steps: Seq<SpawnStep>) -> Seq<StepModel> {
    Seq::new(steps.len(), |i: int| steps[i].model())
}

/// What the user is told when a session is up.
pub open spec fn connected_text(name: Seq<char>) -> Seq<char> {
    "Connected to "@ + name + "."@
}

/// The steps that end the session that runs: its tasks are told to end, its
/// process is seen gone, and the client forgets it.
pub open spec fn end_steps() -> Seq<StepModel> {
    seq![
        StepModel::Broadcast(BroadcastMessage::KillLsp),
        StepModel::AwaitExit,
        StepModel::ForgetSession,
    ]
}

/// The steps that start a server of the given type for a connection, once
/// its configuration file, if it needs one, is accounted for.
pub open spec fn start_steps(server_type: LspServerType, connection: Connection) -> Seq<StepModel> {
    seq![
        StepModel::Spawn(server_type),
        StepModel::Handshake(server_type, connection),
        StepModel::Report(connected_text(connection.name@)),
    ]
}

/// Why a connection has no configuration file for a server that reads one:
/// its port is no number, or it is not a Postgres connection at all.
pub open spec fn config_failure(connection: Connection) -> Seq<char> {
    if connection.settings is Postgres {
        invalid_port_text(connection.settings.port()->0@)
    } else {
        not_postgres_text()
    }
}

/// The plan for a spawn command. The session that runs is always ended
/// first, whatever comes after: nothing is started before its process is
/// gone. A server that reads its connection from a configuration file gets
/// the file written before it is started; if the connection has no such
/// file, the plan ends there.
pub open spec fn spawn_plan(server_type: LspServerType, connection: Connection) -> Seq<StepModel> {
    if server_type == LspServerType::PgTools {
        if connection.settings is Postgres && connection.pg_tools_config() is Some {
            end_steps() + seq![StepModel::WriteConfigFile(connection.pg_tools_config()->0)]
                + start_steps(server_type, connection)
        } else {
            end_steps() + seq![StepModel::Fail(config_failure(connection))]
        }
    } else {
        end_steps() + start_steps(server_type, connection)
    }
}

/// The number of server processes that are alive after `step`, if `alive`
/// were before it. Telling the tasks to end does not end the process yet:
/// it is gone once the step that waits for its exit is over. A spawn starts
/// one process.
pub open spec fn alive_after(alive: nat, step: StepModel) -> nat {
    match step {
        StepModel::AwaitExit => 0,
        StepModel::Spawn(_) => alive + 1,
        _ => alive,
    }
}

/// Whether at no time while `steps` are carried out, starting with `alive`
/// processes, more than one server process is alive.
pub open spec fn never_two(alive: nat, steps: Seq<StepModel>) -> bool
    decreases steps.len(),
{
    alive <= 1 && (steps.len() > 0 ==> never_two(
        alive_after(alive, steps[0]),
        steps.drop_first(),
    ))
}

/// Whether `steps` end the old session before they start anything: they
/// begin with the broadcast that asks its tasks to end, the wait for the
/// exit of its process, and the client forgetting it, and every step that
/// spawns or shakes hands comes behind these.
pub open spec fn ends_before_starting(steps: Seq<StepModel>) -> bool {
    &&& steps.len() >= 3
    &&& steps[0] == StepModel::Broadcast(BroadcastMessage::KillLsp)
    &&& steps[1] == StepModel::AwaitExit
    &&& steps[2] == StepModel::ForgetSession
    &&& forall|j: int|
        0 <= j < steps.len() && (#[trigger] steps[j] is Spawn || steps[j] is Handshake) ==> j > 2
}

proof fn lemma_never_two_step(alive: nat, steps: Seq<StepModel>, rest: Seq<StepModel>)
    requires
        alive <= 1,
        steps.len() > 0,
        steps.drop_first() =~= rest,
        never_two(alive_after(alive, steps[0]), rest),
    ensures
        never_two(alive, steps),
{
}

/// A spawn command never leaves two server processes alive at once: the
/// exit of the process of the session that runs is waited for before the
/// new one is started, and the client has forgotten the old session before
/// it shakes hands with the new server.
pub proof fn lemma_never_two_servers(alive: nat, server_type: LspServerType, connection: Connection)
    requires
        alive <= 1,
    ensures
        never_two(alive, spawn_plan(server_type, connection)),
        ends_before_starting(spawn_plan(server_type, connection)),
{
    let plan = spawn_plan(server_type, connection);
    let start = start_steps(server_type, connection);
    let s1 = start.drop_first();
    let s2 = s1.drop_first();
    lemma_never_two_step(1, s2, Seq::empty());
    lemma_never_two_step(1, s1, s2);
    lemma_never_two_step(0, start, s1);
    let tail = if server_type == LspServerType::PgTools {
        if connection.settings is Postgres && connection.pg_tools_config() is Some {
            let with_file = seq![StepModel::WriteConfigFile(connection.pg_tools_config()->0)]
                + start;
            lemma_never_two_step(0, with_file, start);
            with_file
        } else {
            let failed = seq![StepModel::Fail(config_failure(connection))];
            lemma_never_two_step(0, failed, Seq::empty());
            failed
        }
    } else {
        start
    };
    let forgotten = seq![StepModel::ForgetSession] + tail;
    lemma_never_two_step(0, forgotten, tail);
    let waited = seq![StepModel::AwaitExit] + forgotten;
    lemma_never_two_step(alive, waited, forgotten);
    lemma_never_two_step(alive, plan, waited);
}

/// How a task under supervision ended.
#[derive(Debug, Clone, PartialEq, Eq)]
pub enum TaskResult {
    /// It returned without an error.
    Finished,
    /// It returned an error.
    Failed(String),
    /// It panicked or was cancelled.
    Panicked(String),
}

/// What the manager does about a task that ended.
#[derive(Debug, Clone, PartialEq, Eq)]
pub enum Supervision {
    /// Nothing: the other tasks go on.
    Continue,
    /// Abort every other task, and end with this error.
    AbortAll(String),
}

/// What is read off the manager's inputs.
#[derive(Debug, Clone, PartialEq, Eq)]
pub enum ManagerEvent {
    /// The command channel yielded a command, or `None` because it is
    /// closed.
    Command(Option<Command>),
    /// A task ended.
    Joined(TaskResult),
    /// No command can come any more and no task is left.
    Idle,
}

/// What the manager does next.
#[derive(Debug, PartialEq, Eq)]
pub enum ManagerAction {
    /// Carry out the steps. If one fails, report the failure and go on:
    /// the manager takes further commands.
    Run(Vec<SpawnStep>),
    /// Wait for the next event.
    Continue,
    /// Abort all tasks and end with this error.
    AbortAll(String),
    /// End without an error.
    Finish,
}

/// TaskManager is responsible for executing and stopping tasks. This is
/// the part of it that decides.
#[derive(Debug, Clone, Copy, PartialEq, Eq, Structural)]
pub struct TaskManager {
    /// Whether a spawn command has been taken, so that a session may run.
    pub spawned: bool,
}

impl TaskManager {
    pub fn new() -> (r: Self)
        ensures
            !r.spawned,
    {
        TaskManager { spawned: false }
    }

    /// Kill any existing LSP server, spawn the one given by `server_type`
    /// and connect to `connection`: the steps to do so, in their order.
    pub fn spawn_lsp(&mut self, server_type: LspServerType, connection: Connection) -> (r: Vec<
        SpawnStep,
    >)
        ensures
            step_models(r@) == spawn_plan(server_type, connection),
            final(self).spawned,
    {
        self.spawned = true;
        let mut steps: Vec<SpawnStep> = Vec::new();
        steps.push(SpawnStep::Broadcast(BroadcastMessage::KillLsp));
        steps.push(SpawnStep::AwaitExit);
        steps.push(SpawnStep::ForgetSession);
        match server_type {
            LspServerType::PgTools => {
                match connection.duplicate().to_postgres_ls_config_file() {
                    Ok(document) => {
                        steps.push(SpawnStep::WriteConfigFile(document));
                    },
                    Err(e) => {
                        steps.push(SpawnStep::Fail(LspError::Settings(e)));
                        return steps;
                    },
                }
            },
            _ => {},
        }
        let mut report = String::from_str("Connected to ");
        report.append(connection.name.as_str());
        report.append(".");
        steps.push(SpawnStep::Spawn(server_type));
        steps.push(SpawnStep::Handshake(server_type, connection));
        steps.push(SpawnStep::Report(report));
        steps
    }

    /// Handle the result of joining a task: a task that failed or
    /// panicked takes all the others with it.
    pub fn handle_task(&mut self, result: TaskResult) -> (r: Supervision)
        ensures
            match result {
                TaskResult::Finished => r == Supervision::Continue && *final(self) == *old(self),
                TaskResult::Failed(e) => r == Supervision::AbortAll(e) && !final(self).spawned,
                TaskResult::Panicked(e) => r == Supervision::AbortAll(e) && !final(self).spawned,
            },
    {
        match result {
            TaskResult::Finished => Supervision::Continue,
            TaskResult::Failed(e) => {
                self.spawned = false;
                Supervision::AbortAll(e)
            },
            TaskResult::Panicked(e) => {
                self.spawned = false;
                Supervision::AbortAll(e)
            },
        }
    }

    /// Handle an incoming command. A closed channel (`None`) is passed
    /// over.
    pub fn handle_command(&mut self, command: Option<Command>) -> (r: Option<Vec<SpawnStep>>)
        ensures
            match command {
                Some(Command::SpawnLsp(server_type, connection)) => {
                    &&& r matches Some(steps) && step_models(steps@) == spawn_plan(
                        server_type,
                        connection,
                    )
                    &&& final(self).spawned
                },
                None => r is None && *final(self) == *old(self),
            },
    {
        match command {
            Some(Command::SpawnLsp(server_type, connection)) => Some(
                self.spawn_lsp(server_type, connection),
            ),
            None => None,
        }
    }

    /// One turn of the manager's loop.
    pub fn on_event(&mut self, event: ManagerEvent) -> (r: ManagerAction)
        ensures
            match event {
                ManagerEvent::Command(Some(Command::SpawnLsp(server_type, connection))) => r matches ManagerAction::Run(
                    steps,
                ) && step_models(steps@) == spawn_plan(server_type, connection),
                ManagerEvent::Command(None) => r == ManagerAction::Continue,
                ManagerEvent::Joined(TaskResult::Finished) => r == ManagerAction::Continue,
                ManagerEvent::Joined(TaskResult::Failed(e)) => r == ManagerAction::AbortAll(e),
                ManagerEvent::Joined(TaskResult::Panicked(e)) => r == ManagerAction::AbortAll(e),
                ManagerEvent::Idle => r == ManagerAction::Finish,
            },
    {
        match event {
            ManagerEvent::Command(command) => match self.handle_command(command) {
                Some(steps) => ManagerAction::Run(steps),
                None => ManagerAction::Continue,
            },
            ManagerEvent::Joined(result) => match self.handle_task(result) {
                Supervision::Continue => ManagerAction::Continue,
                Supervision::AbortAll(e) => ManagerAction::AbortAll(e),
            },
            ManagerEvent::Idle => ManagerAction::Finish,
        }
    }
}

/// The arguments that a server is given beyond its own: the place of its
/// configuration file, if it reads one.
pub open spec fn extra_arguments(server_type: LspServerType, config_path: Option<String>) -> Seq<
    Seq<char>,
> {
    match config_path {
        Some(path) => if server_type == LspServerType::PgTools {
            seq!["--config-path="@ + path@]
        } else {
            Seq::empty()
        },
        None => Seq::empty(),
    }
}

/// The command that starts a server of the given type, `config_path`
/// being where its configuration file was written, if one was.
pub fn spawn_command(server_type: LspServerType, config_path: Option<String>) -> (r:
    CommunicationProtocol)
    ensures
        r matches CommunicationProtocol::Stdio { cmd, args } && cmd@ == server_type.command()
            && texts(args@) == server_type.arguments(extra_arguments(server_type, config_path)),
{
    let mut extra: Vec<String> = Vec::new();
    match config_path {
        Some(path) => {
            if server_type.needs_config_file() {
                let mut argument = String::from_str("--config-path=");
                argument.append(path.as_str());
                extra.push(argument);
            }
        },
        None => {},
    }
    server_type.to_stdio_cmd(extra)
}

/// What is logged when the broadcast that ends the running session was
/// heard by nobody.
pub fn broadcast_note(delivered: bool) -> (r: Option<PrintPayload>)
    ensures
        match r {
            Some(PrintPayload::Output(level, text)) => !delivered && level == Verbosity::Debug
                && text@ == "no existing LSP server running, skipping shutdown"@,
            Some(_) => false,
            None => delivered,
        },
{
    if delivered {
        None
    } else {
        Some(PrintPayload::debug("no existing LSP server running, skipping shutdown"))
    }
}

/// What is logged when a command of the manager failed. The manager goes
/// on after it.
pub fn command_failure(error: &LspError) -> (r: PrintPayload)
    ensures
        r matches PrintPayload::Output(level, text) && level == Verbosity::Error && text@
            == "task manager command failed: "@ + error.text(),
{
    let mut line = String::from_str("task manager command failed: ");
    line.append(error.message().as_str());
    PrintPayload::Output(Verbosity::Error, line)
}

} // verus!
