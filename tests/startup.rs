use bookshelf::dispatch::{
    AnyRequestClient, Configuration, GrpcRequestClient, HttpRequestClient, Service,
};
use bookshelf::lifecycle::{
    default_log_level, Environment, LifecycleAction, LifecycleEvent, ServerPhase, LISTEN_PORT,
};

#[test]
fn clean_run_walks_every_phase_and_exits_zero() {
    let mut p = ServerPhase::Init;
    assert_eq!(p.action(), LifecycleAction::LoadConfig);
    p = p.step(LifecycleEvent::ConfigLoaded);
    assert_eq!(p, ServerPhase::Configured);
    assert_eq!(p.action(), LifecycleAction::OpenPool);
    p = p.step(LifecycleEvent::PoolOpened);
    assert_eq!(p, ServerPhase::PoolOpen);
    assert_eq!(p.action(), LifecycleAction::BindListener);
    p = p.step(LifecycleEvent::ListenerBound);
    assert_eq!(p, ServerPhase::Listening);
    assert_eq!(p.action(), LifecycleAction::Serve);
    p = p.step(LifecycleEvent::ServeEnded { graceful: true });
    assert_eq!(p, ServerPhase::ShuttingDown { exit_code: 0 });
    assert_eq!(p.action(), LifecycleAction::ShutDown);
    p = p.step(LifecycleEvent::ShutdownComplete);
    assert_eq!(p, ServerPhase::Terminated { exit_code: 0 });
    assert_eq!(p.action(), LifecycleAction::Exit { code: 0 });
}

#[test]
fn failure_before_listening_exits_nonzero() {
    for p in [ServerPhase::Init, ServerPhase::Configured, ServerPhase::PoolOpen] {
        let next = p.step(LifecycleEvent::Failed);
        assert_eq!(next, ServerPhase::Terminated { exit_code: 1 });
        assert_eq!(next.action(), LifecycleAction::Exit { code: 1 });
    }
}

#[test]
fn serve_error_shuts_down_with_failure() {
    let p = ServerPhase::Listening.step(LifecycleEvent::ServeEnded { graceful: false });
    assert_eq!(p, ServerPhase::ShuttingDown { exit_code: 1 });
    assert_eq!(p.step(LifecycleEvent::ShutdownComplete), ServerPhase::Terminated { exit_code: 1 });
}

#[test]
fn unexpected_event_changes_nothing() {
    assert_eq!(ServerPhase::Init.step(LifecycleEvent::ListenerBound), ServerPhase::Init);
    let done = ServerPhase::Terminated { exit_code: 0 };
    assert_eq!(done.step(LifecycleEvent::Failed), done);
    assert_eq!(ServerPhase::Listening.step(LifecycleEvent::PoolOpened), ServerPhase::Listening);
}

#[test]
fn log_level_follows_environment() {
    assert_eq!(default_log_level(Environment::Development), "debug");
    assert_eq!(default_log_level(Environment::Production), "info");
}

#[test]
fn listens_on_port_8080() {
    assert_eq!(LISTEN_PORT, 8080);
}

#[test]
fn static_service_calls_its_client() {
    let grpc = Service { client: GrpcRequestClient { config: Configuration { retry: 3, timeout: 10 } } };
    assert_eq!(grpc.call(), "Sending request by gRPC");
    let http = Service { client: HttpRequestClient { config: Configuration { retry: 3, timeout: 60 } } };
    assert_eq!(http.call(), "Sending request by HTTP");
}

#[test]
fn dynamic_service_calls_the_chosen_client() {
    let config = Configuration { retry: 3, timeout: 10 };
    let grpc = Service { client: AnyRequestClient::Grpc(GrpcRequestClient { config }) };
    assert_eq!(grpc.call(), "Sending request by gRPC");
    let http = Service { client: AnyRequestClient::Http(HttpRequestClient { config }) };
    assert_eq!(http.call(), "Sending request by HTTP");
}
