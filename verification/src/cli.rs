//! What the command line asks for, and the course of the demonstration that
//! runs both roles in one process.

use crate::address::SocketAddress;
use crate::client::{default_client_addr, default_server_name, Client, ClientView};
use crate::server::{default_liveness, default_server_addr, Server};
use vstd::prelude::*;

verus! {

/// Milliseconds that the demonstration gives its server to start before it
/// starts the client.
pub const SETTLE_MS: u64 = 100;

/// A mode of the program, with what was given on the command line for it.
#[derive(Clone, Debug, PartialEq, Eq)]
pub enum Command {
    /// Serve, on `addr` if given.
    Server { addr: Option<SocketAddress> },
    /// Run the client against the server at `addr`, if given, expecting it
    /// to identify itself as `server_name`, if given.
    Client { addr: Option<SocketAddress>, server_name: Option<String> },
    /// Run server and client in this process.
    Demo,
}

/// The command line: a mode, or none.
#[derive(Clone, Debug, PartialEq, Eq)]
pub struct Cli {
    pub command: Option<Command>,
}

/// What the program is to do.
#[derive(Clone, Debug, PartialEq, Eq)]
pub enum RunPlan {
    /// Run this server until its endpoint closes.
    Server(Server),
    /// Run this client once.
    Client(Client),
    /// Run this server in the background and this client against it.
    Demo { server: Server, client: Client },
}

/// Model of [`Command`].
pub enum CommandView {
    Server { addr: Option<SocketAddress> },
    Client { addr: Option<SocketAddress>, server_name: Option<Seq<char>> },
    Demo,
}

/// Model of [`Cli`].
pub struct CliView {
    pub command: Option<CommandView>,
}

/// Model of [`RunPlan`].
pub enum RunPlanView {
    Server(Server),
    Client(ClientView),
    Demo { server: Server, client: ClientView },
}

impl View for Command {
    type V = CommandView;

    open spec fn view(&self) -> CommandView {
        match self {
            Command::Server { addr } => CommandView::Server { addr: *addr },
            Command::Client { addr, server_name } => CommandView::Client {
                addr: *addr,
                server_name: match server_name {
                    Some(name) => Some(name@),
                    None => None,
                },
            },
            Command::Demo => CommandView::Demo,
        }
    }
}

impl View for Cli {
    type V = CliView;

    open spec fn view(&self) -> CliView {
        CliView {
            command: match self.command {
                Some(command) => Some(command@),
                None => None,
            },
        }
    }
}

impl View for RunPlan {
    type V = RunPlanView;

    open spec fn view(&self) -> RunPlanView {
        match self {
            RunPlan::Server(server) => RunPlanView::Server(*server),
            RunPlan::Client(client) => RunPlanView::Client(client@),
            RunPlan::Demo { server, client } => RunPlanView::Demo {
                server: *server,
                client: client@,
            },
        }
    }
}

/// The server that runs where nothing else was asked for.
pub open spec fn default_server() -> Server {
    Server { server_addr: default_server_addr(), liveness: default_liveness() }
}

/// The client that runs where nothing else was asked for.
pub open spec fn default_client() -> ClientView {
    ClientView {
        client_addr: default_client_addr(),
        server_addr: default_server_addr(),
        server_name: default_server_name(),
    }
}

/// What the program is to do for the command line `cli`.
///
/// Without a mode the program runs the demonstration, with the default
/// server and client. A server listens on the address given, a client calls
/// the address given and expects the name given; what is not given is as in
/// the defaults.
pub open spec fn run_plan(cli: CliView) -> RunPlanView {
    match cli.command {
        None => RunPlanView::Demo { server: default_server(), client: default_client() },
        Some(CommandView::Demo) => RunPlanView::Demo {
            server: default_server(),
            client: default_client(),
        },
        Some(CommandView::Server { addr }) => RunPlanView::Server(
            Server {
                server_addr: match addr {
                    Some(addr) => addr,
                    None => default_server_addr(),
                },
                liveness: default_liveness(),
            },
        ),
        Some(CommandView::Client { addr, server_name }) => RunPlanView::Client(
            ClientView {
                client_addr: default_client_addr(),
                server_addr: match addr {
                    Some(addr) => addr,
                    None => default_server_addr(),
                },
                server_name: match server_name {
                    Some(name) => name,
                    None => default_server_name(),
                },
            },
        ),
    }
}

/// Decides what the program is to do for the command line `cli`: see
/// [`run_plan`].
pub fn run(cli: Cli) -> (plan: RunPlan)
    ensures
        plan@ == run_plan(cli@),
{
    match cli.command {
        None | Some(Command::Demo) => RunPlan::Demo {
            server: Server::new(),
            client: Client::new(),
        },
        Some(Command::Server { addr }) => RunPlan::Server(
            match addr {
                Some(addr) => Server::with_addr(addr),
                None => Server::new(),
            },
        ),
        Some(Command::Client { addr, server_name }) => {
            let defaults = Client::new();
            RunPlan::Client(
                Client {
                    client_addr: defaults.client_addr,
                    server_addr: match addr {
                        Some(addr) => addr,
                        None => defaults.server_addr,
                    },
                    server_name: match server_name {
                        Some(name) => name,
                        None => defaults.server_name,
                    },
                },
            )
        },
    }
}

/// A stage of the demonstration.
#[derive(Clone, Copy, Debug, PartialEq, Eq, Structural)]
pub enum DemoStage {
    /// Make the server's endpoint.
    SetupServer,
    /// Start the server's acceptor loop in the background.
    SpawnServer,
    /// Give the server a moment.
    Settle,
    /// Make the client's endpoint.
    SetupClient,
    /// Run the client: connect, exchange, close.
    RunClient,
}

/// Where the demonstration stands.
#[derive(Clone, Copy, Debug, PartialEq, Eq, Structural)]
pub enum DemoState {
    /// This stage is under way.
    Running(DemoStage),
    /// Every stage is done.
    Succeeded,
    /// This stage failed, and with it the demonstration.
    Failed(DemoStage),
}

/// What is reported to the demonstration of the stage under way.
#[derive(Clone, Copy, Debug, PartialEq, Eq, Structural)]
pub enum DemoEvent {
    /// It is done.
    Done,
    /// It failed.
    Failed,
}

/// What the demonstration asks for.
#[derive(Clone, Copy, Debug, PartialEq, Eq, Structural)]
pub enum DemoAction {
    /// Make the server's endpoint.
    SetupServer,
    /// Start the server's acceptor loop as a task of its own.
    SpawnServer,
    /// Wait this many milliseconds.
    Sleep { millis: u64 },
    /// Make the client's endpoint.
    SetupClient,
    /// Run the client.
    RunClient,
    /// Nothing more: report success, or the failure.
    Stop { success: bool },
}

/// The stage after `stage`, or `None` after the last.
pub open spec fn next_stage(stage: DemoStage) -> Option<DemoStage> {
    match stage {
        DemoStage::SetupServer => Some(DemoStage::SpawnServer),
        DemoStage::SpawnServer => Some(DemoStage::Settle),
        DemoStage::Settle => Some(DemoStage::SetupClient),
        DemoStage::SetupClient => Some(DemoStage::RunClient),
        DemoStage::RunClient => None,
    }
}

/// Whether `stage` can fail. Starting a task and waiting cannot.
pub open spec fn can_fail(stage: DemoStage) -> bool {
    stage != DemoStage::SpawnServer && stage != DemoStage::Settle
}

/// The state that follows `state` when `event` is reported.
///
/// A stage that is done gives way to the next, the last to success. A stage
/// that fails ends the demonstration with its failure; a failure reported of
/// a stage that cannot fail changes nothing. A demonstration that is over
/// stays as it is.
pub open spec fn demo_step(state: DemoState, event: DemoEvent) -> DemoState {
    match (state, event) {
        (DemoState::Running(stage), DemoEvent::Done) => match next_stage(stage) {
            Some(next) => DemoState::Running(next),
            None => DemoState::Succeeded,
        },
        (DemoState::Running(stage), DemoEvent::Failed) => if can_fail(stage) {
            DemoState::Failed(stage)
        } else {
            state
        },
        _ => state,
    }
}

/// What a demonstration in `state` is waiting for.
pub open spec fn demo_action(state: DemoState) -> DemoAction {
    match state {
        DemoState::Running(DemoStage::SetupServer) => DemoAction::SetupServer,
        DemoState::Running(DemoStage::SpawnServer) => DemoAction::SpawnServer,
        DemoState::Running(DemoStage::Settle) => DemoAction::Sleep { millis: SETTLE_MS },
        DemoState::Running(DemoStage::SetupClient) => DemoAction::SetupClient,
        DemoState::Running(DemoStage::RunClient) => DemoAction::RunClient,
        DemoState::Succeeded => DemoAction::Stop { success: true },
        DemoState::Failed(_) => DemoAction::Stop { success: false },
    }
}

/// The state a demonstration reaches from `state` when `events` are reported
/// one after the other.
pub open spec fn demo_run(state: DemoState, events: Seq<DemoEvent>) -> DemoState
    decreases events.len(),
{
    if events.len() == 0 {
        state
    } else {
        demo_step(demo_run(state, events.drop_last()), events.last())
    }
}

impl DemoState {
    /// A demonstration at its beginning.
    pub fn new() -> (state: DemoState)
        ensures
            state == DemoState::Running(DemoStage::SetupServer),
    {
        DemoState::Running(DemoStage::SetupServer)
    }

    /// What to do in this state.
    pub fn action(&self) -> (action: DemoAction)
        ensures
            action == demo_action(*self),
    {
        match self {
            DemoState::Running(DemoStage::SetupServer) => DemoAction::SetupServer,
            DemoState::Running(DemoStage::SpawnServer) => DemoAction::SpawnServer,
            DemoState::Running(DemoStage::Settle) => DemoAction::Sleep { millis: SETTLE_MS },
            DemoState::Running(DemoStage::SetupClient) => DemoAction::SetupClient,
            DemoState::Running(DemoStage::RunClient) => DemoAction::RunClient,
            DemoState::Succeeded => DemoAction::Stop { success: true },
            DemoState::Failed(_) => DemoAction::Stop { success: false },
        }
    }
}

/// Takes one step of the demonstration: the demonstration in `state` learns
/// of `event` and moves to the state that [`demo_step`] gives.
pub fn run_demo(state: DemoState, event: DemoEvent) -> (next: DemoState)
    ensures
        next == demo_step(state, event),
{
    match state {
        DemoState::Running(stage) => match event {
            DemoEvent::Done => match stage {
                DemoStage::SetupServer => DemoState::Running(DemoStage::SpawnServer),
                DemoStage::SpawnServer => DemoState::Running(DemoStage::Settle),
                DemoStage::Settle => DemoState::Running(DemoStage::SetupClient),
                DemoStage::SetupClient => DemoState::Running(DemoStage::RunClient),
                DemoStage::RunClient => DemoState::Succeeded,
            },
            DemoEvent::Failed => match stage {
                DemoStage::SpawnServer | DemoStage::Settle => state,
                _ => DemoState::Failed(stage),
            },
        },
        _ => state,
    }
}

/// A run over two stretches of events is the run over the second, begun
/// where the first ended.
pub proof fn lemma_demo_run_append(state: DemoState, first: Seq<DemoEvent>, second: Seq<DemoEvent>)
    ensures
        demo_run(state, first + second) == demo_run(demo_run(state, first), second),
    decreases second.len(),
{
    if second.len() == 0 {
        assert(first + second =~= first);
    } else {
        lemma_demo_run_append(state, first, second.drop_last());
        assert((first + second).drop_last() =~= first + second.drop_last());
    }
}

/// A demonstration that is over stays as it is, whatever is reported to it.
pub proof fn lemma_demo_end_is_final(state: DemoState, events: Seq<DemoEvent>)
    requires
        !(state is Running),
    ensures
        demo_run(state, events) == state,
    decreases events.len(),
{
    if events.len() > 0 {
        lemma_demo_end_is_final(state, events.drop_last());
    }
}

/// The first failure ends the demonstration. Take any history that leaves
/// the demonstration in a stage that can fail. If that stage fails, the
/// demonstration has failed with it, and no later stage is ever asked for,
/// whatever is reported afterwards: a server that cannot be set up is never
/// started, and no client is run against it.
pub proof fn lemma_demo_stops_at_first_failure(
    history: Seq<DemoEvent>,
    stage: DemoStage,
    later: Seq<DemoEvent>,
)
    requires
        demo_run(DemoState::Running(DemoStage::SetupServer), history) == DemoState::Running(stage),
        can_fail(stage),
    ensures
        demo_run(
            DemoState::Running(DemoStage::SetupServer),
            history.push(DemoEvent::Failed) + later,
        ) == DemoState::Failed(stage),
        demo_action(DemoState::Failed(stage)) == (DemoAction::Stop { success: false }),
{
    let start = DemoState::Running(DemoStage::SetupServer);
    let failed = history.push(DemoEvent::Failed);
    assert(failed.drop_last() =~= history);
    lemma_demo_run_append(start, failed, later);
    lemma_demo_end_is_final(DemoState::Failed(stage), later);
}

/// How many stages lie before `state`; for a failed demonstration, before
/// the stage that failed.
pub open spec fn stages_done(state: DemoState) -> nat {
    match state {
        DemoState::Running(stage) => stages_before(stage),
        DemoState::Succeeded => 5,
        DemoState::Failed(stage) => stages_before(stage),
    }
}

/// How many stages lie before `stage`.
pub open spec fn stages_before(stage: DemoStage) -> nat {
    match stage {
        DemoStage::SetupServer => 0,
        DemoStage::SpawnServer => 1,
        DemoStage::Settle => 2,
        DemoStage::SetupClient => 3,
        DemoStage::RunClient => 4,
    }
}

/// How many of `events` report that a stage is done.
pub open spec fn done_reports(events: Seq<DemoEvent>) -> nat
    decreases events.len(),
{
    if events.len() == 0 {
        0
    } else if events.last() == DemoEvent::Done {
        done_reports(events.drop_last()) + 1
    } else {
        done_reports(events.drop_last())
    }
}

/// No stage is passed without a report that it is done. So the
/// demonstration succeeds only by way of every stage, and the client runs
/// only after the server was set up, started and given its moment.
pub proof fn lemma_demo_takes_every_stage(events: Seq<DemoEvent>)
    ensures
        stages_done(demo_run(DemoState::Running(DemoStage::SetupServer), events)) <= done_reports(
            events,
        ),
    decreases events.len(),
{
    if events.len() > 0 {
        lemma_demo_takes_every_stage(events.drop_last());
    }
}

} // verus!
