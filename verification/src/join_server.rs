//! The join server: a registry of game servers, a join-facing service and
//! an RPC service, started and stopped together.
//!
//! The services themselves run with the caller. This module decides in
//! which order they are stopped and which result the caller gets: the
//! join-facing service goes first, the RPC service is closed after it
//! whatever happened, and only the join-facing service's result is kept.

use vstd::prelude::*;

verus! {

/// Why a service failed to start or to stop.
#[derive(Clone, Copy, Debug, PartialEq, Eq, Structural)]
pub enum ServiceError {
    AddressInUse,
    PermissionDenied,
    ConnectionAborted,
    Interrupted,
    Other,
}

/// A reference to a registered game server.
#[derive(Clone, Copy, Debug, PartialEq, Eq, Structural)]
pub struct GameServerHandle {
    pub id: u16,
}

/// What came of starting the two services, the join-facing one first.
#[derive(Clone, Debug, PartialEq, Eq)]
pub enum Startup {
    /// The join-facing service did not start; the RPC service was not tried.
    JoinServiceFailed(ServiceError),
    /// The join-facing service started, the RPC service did not.
    RpcServiceFailed(ServiceError),
    /// Both services run; the RPC service listens at `uri`.
    Started { uri: String },
}

/// What the caller has to do to a service.
#[derive(Clone, Copy, Debug, PartialEq, Eq, Structural)]
pub enum Command {
    /// Close the join-facing service.
    CloseJoinService,
    /// Block until the join-facing service completes by itself.
    AwaitJoinService,
    /// Close the RPC service.
    CloseRpcService,
}

/// Whether a service runs.
#[derive(Clone, Copy, Debug, PartialEq, Eq, Structural)]
pub enum ServiceState {
    Running,
    Closed,
}

/// Collects what a join server is started with.
#[derive(Clone, Debug, PartialEq, Eq)]
pub struct ServerBuilder {
    pub game_servers: Vec<GameServerHandle>,
}

/// An implementation of a Join Server. A value of this type stands for a
/// server whose two services run.
#[derive(Clone, Debug, PartialEq, Eq)]
pub struct JoinServer {
    pub game_servers: Vec<GameServerHandle>,
    pub rpc_uri: String,
}

/// How a server is being stopped.
#[derive(Clone, Copy, Debug, PartialEq, Eq, Structural)]
pub enum ShutdownMode {
    /// The join-facing service is closed.
    Close,
    /// The join-facing service is left to complete by itself.
    Wait,
}

/// A server that is being stopped: the join-facing service is still to finish.
#[derive(Debug, PartialEq, Eq)]
pub struct Shutdown {
    pub mode: ShutdownMode,
}

/// A server whose join-facing service has finished and whose RPC service
/// is still to be closed.
#[derive(Debug, PartialEq, Eq)]
pub struct RpcShutdown {
    pub result: Result<(), ServiceError>,
}

/// A server that has stopped.
#[derive(Debug, PartialEq, Eq)]
pub struct Stopped {
    pub join_service: ServiceState,
    pub rpc_service: ServiceState,
    pub result: Result<(), ServiceError>,
}

/// The server that a start-up gives, or the failure that it surfaces.
pub open spec fn started(
    game_servers: Seq<GameServerHandle>,
    startup: Startup,
    server: Result<JoinServer, ServiceError>,
) -> bool {
    match startup {
        Startup::JoinServiceFailed(error) => server == Err::<JoinServer, ServiceError>(error),
        Startup::RpcServiceFailed(error) => server == Err::<JoinServer, ServiceError>(error),
        Startup::Started { uri } => server matches Ok(s) && s.rpc_uri == uri && s.game_servers@
            == game_servers,
    }
}

impl ServerBuilder {
    /// A builder with an empty registry.
    pub fn new() -> (builder: ServerBuilder)
        ensures
            builder.game_servers@ == Seq::<GameServerHandle>::empty(),
    {
        ServerBuilder { game_servers: Vec::new() }
    }

    /// Registers a game server behind those registered before it.
    pub fn register(self, handle: GameServerHandle) -> (builder: ServerBuilder)
        ensures
            builder.game_servers@ == self.game_servers@.push(handle),
    {
        let mut builder = self;
        builder.game_servers.push(handle);
        builder
    }

    /// Makes the join server out of a start-up of its services: a service
    /// that failed to start aborts the construction with its error.
    pub fn spawn(self, startup: Startup) -> (server: Result<JoinServer, ServiceError>)
        ensures
            started(self.game_servers@, startup, server),
    {
        match startup {
            Startup::JoinServiceFailed(error) => Err(error),
            Startup::RpcServiceFailed(error) => Err(error),
            Startup::Started { uri } => Ok(
                JoinServer { game_servers: self.game_servers, rpc_uri: uri },
            ),
        }
    }
}

impl Shutdown {
    /// The state after the join-facing service finished with `result`.
    pub open spec fn after_join(self, result: Result<(), ServiceError>) -> RpcShutdown {
        RpcShutdown { result }
    }

    /// What the caller has to do now: close the join-facing service, or
    /// wait for it.
    pub open spec fn join_command(self) -> Command {
        match self.mode {
            ShutdownMode::Close => Command::CloseJoinService,
            ShutdownMode::Wait => Command::AwaitJoinService,
        }
    }

    /// What the caller has to do now: close the join-facing service, or
    /// wait for it.
    pub fn command(&self) -> (command: Command)
        ensures
            command == self.join_command(),
            command != Command::CloseRpcService,
    {
        match self.mode {
            ShutdownMode::Close => Command::CloseJoinService,
            ShutdownMode::Wait => Command::AwaitJoinService,
        }
    }

    /// Takes the result with which the join-facing service finished. The
    /// RPC service is to be closed next, whatever the result is.
    pub fn join_finished(self, result: Result<(), ServiceError>) -> (next: RpcShutdown)
        ensures
            next == self.after_join(result),
            next.rpc_command() == Command::CloseRpcService,
    {
        RpcShutdown { result }
    }
}

impl RpcShutdown {
    /// What the caller has to do now: close the RPC service.
    pub open spec fn rpc_command(self) -> Command {
        Command::CloseRpcService
    }

    /// The stopped server, once the RPC service was closed with `outcome`.
    pub open spec fn after_rpc(self, outcome: Result<(), ServiceError>) -> Stopped {
        Stopped {
            join_service: ServiceState::Closed,
            rpc_service: ServiceState::Closed,
            result: self.result,
        }
    }

    /// What the caller has to do now: close the RPC service.
    pub fn command(&self) -> (command: Command)
        ensures
            command == self.rpc_command(),
    {
        Command::CloseRpcService
    }

    /// Takes the outcome of closing the RPC service. The outcome is not
    /// surfaced: the server's result is that of the join-facing service.
    pub fn rpc_closed(self, outcome: Result<(), ServiceError>) -> (stopped: Stopped)
        ensures
            stopped == self.after_rpc(outcome),
    {
        Stopped {
            join_service: ServiceState::Closed,
            rpc_service: ServiceState::Closed,
            result: self.result,
        }
    }
}

impl Stopped {
    /// The result of the shutdown.
    pub fn result(&self) -> (result: Result<(), ServiceError>)
        ensures
            result == self.result,
    {
        self.result
    }
}

impl JoinServer {
    /// The shutdown that `close` begins.
    pub open spec fn closing(self) -> Shutdown {
        Shutdown { mode: ShutdownMode::Close }
    }

    /// The shutdown that `wait` begins.
    pub open spec fn waiting(self) -> Shutdown {
        Shutdown { mode: ShutdownMode::Wait }
    }

    /// Makes a Join Server using defaults, out of a start-up of its services.
    pub fn spawn(startup: Startup) -> (server: Result<JoinServer, ServiceError>)
        ensures
            started(Seq::<GameServerHandle>::empty(), startup, server),
    {
        Self::builder().spawn(startup)
    }

    /// Returns a builder for the Join Server.
    pub fn builder() -> (builder: ServerBuilder)
        ensures
            builder.game_servers@ == Seq::<GameServerHandle>::empty(),
    {
        ServerBuilder::new()
    }

    /// Returns the URI of the RPC service.
    pub fn uri(&self) -> (uri: &str)
        ensures
            uri@ == self.rpc_uri@,
    {
        self.rpc_uri.as_str()
    }

    /// Closes the server: the join-facing service is to be closed first.
    pub fn close(self) -> (shutdown: Shutdown)
        ensures
            shutdown == self.closing(),
    {
        Shutdown { mode: ShutdownMode::Close }
    }

    /// Waits for the server to finish: the join-facing service is to be
    /// awaited first.
    pub fn wait(self) -> (shutdown: Shutdown)
        ensures
            shutdown == self.waiting(),
    {
        Shutdown { mode: ShutdownMode::Wait }
    }
}

/// However a server is stopped and however its services answer, the RPC
/// service is closed after the join-facing service, both end up closed, and
/// the result is the join-facing service's own, also where that is an error
/// and also where closing the RPC service failed.
pub proof fn lemma_shutdown_closes_rpc_service(
    server: JoinServer,
    join_result: Result<(), ServiceError>,
    rpc_outcome: Result<(), ServiceError>,
)
    ensures
        server.closing().join_command() == Command::CloseJoinService,
        server.waiting().join_command() == Command::AwaitJoinService,
        server.closing().after_join(join_result).rpc_command() == Command::CloseRpcService,
        server.waiting().after_join(join_result).rpc_command() == Command::CloseRpcService,
        server.closing().after_join(join_result).after_rpc(rpc_outcome) == (Stopped {
            join_service: ServiceState::Closed,
            rpc_service: ServiceState::Closed,
            result: join_result,
        }),
        server.waiting().after_join(join_result).after_rpc(rpc_outcome) == (Stopped {
            join_service: ServiceState::Closed,
            rpc_service: ServiceState::Closed,
            result: join_result,
        }),
{
}

} // verus!
