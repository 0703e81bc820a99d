use murust::join_server::{
    Command, GameServerHandle, JoinServer, ServerBuilder, ServiceError, ServiceState, Startup,
};

fn running() -> JoinServer {
    JoinServer::spawn(Startup::Started { uri: "http://127.0.0.1:8080".to_string() })
        .expect("both services started")
}

#[test]
fn spawn_surfaces_startup_failures() {
    assert_eq!(
        JoinServer::spawn(Startup::JoinServiceFailed(ServiceError::AddressInUse)),
        Err(ServiceError::AddressInUse)
    );
    assert_eq!(
        JoinServer::spawn(Startup::RpcServiceFailed(ServiceError::PermissionDenied)),
        Err(ServiceError::PermissionDenied)
    );
}

#[test]
fn spawn_uses_an_empty_registry() {
    let server = running();
    assert!(server.game_servers.is_empty());
    assert_eq!(server.uri(), "http://127.0.0.1:8080");
    assert_eq!(JoinServer::builder(), ServerBuilder::new());
}

#[test]
fn builder_registers_in_insertion_order() {
    let first = GameServerHandle { id: 7 };
    let second = GameServerHandle { id: 3 };
    let server = JoinServer::builder()
        .register(first)
        .register(second)
        .register(first)
        .spawn(Startup::Started { uri: "http://[::1]:9".to_string() })
        .expect("both services started");
    assert_eq!(server.game_servers, vec![first, second, first]);
    assert_eq!(server.uri(), "http://[::1]:9");
}

#[test]
fn spawn_then_close_returns_the_join_result() {
    let shutdown = running().close();
    assert_eq!(shutdown.command(), Command::CloseJoinService);
    let next = shutdown.join_finished(Ok(()));
    assert_eq!(next.command(), Command::CloseRpcService);
    let stopped = next.rpc_closed(Ok(()));
    assert_eq!(stopped.result(), Ok(()));
    assert_eq!(stopped.join_service, ServiceState::Closed);
    assert_eq!(stopped.rpc_service, ServiceState::Closed);
}

#[test]
fn close_closes_rpc_service_when_join_close_fails() {
    let next = running().close().join_finished(Err(ServiceError::ConnectionAborted));
    assert_eq!(next.command(), Command::CloseRpcService);
    let stopped = next.rpc_closed(Ok(()));
    assert_eq!(stopped.rpc_service, ServiceState::Closed);
    assert_eq!(stopped.result(), Err(ServiceError::ConnectionAborted));
}

#[test]
fn rpc_close_failure_is_not_surfaced() {
    let stopped = running().close().join_finished(Ok(())).rpc_closed(Err(ServiceError::Other));
    assert_eq!(stopped.result(), Ok(()));
    let stopped = running()
        .close()
        .join_finished(Err(ServiceError::Interrupted))
        .rpc_closed(Err(ServiceError::Other));
    assert_eq!(stopped.result(), Err(ServiceError::Interrupted));
}

#[test]
fn wait_awaits_the_join_service_then_closes_rpc() {
    let shutdown = running().wait();
    assert_eq!(shutdown.command(), Command::AwaitJoinService);
    let next = shutdown.join_finished(Err(ServiceError::Interrupted));
    assert_eq!(next.command(), Command::CloseRpcService);
    let stopped = next.rpc_closed(Ok(()));
    assert_eq!(stopped.result(), Err(ServiceError::Interrupted));
    assert_eq!(stopped.rpc_service, ServiceState::Closed);
}
