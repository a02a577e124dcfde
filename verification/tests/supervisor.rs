use malloc_test::supervisor::{
    failure_message, FatalCause, Outcome, Phase, Step, Supervisor, DEFAULT_LOG_FILTER,
    DRAIN_DEADLINE_SECS, ENGINE_PATH, METRICS_ADDRESS, SERVER_STARTING_NOTICE,
    SERVER_STOPPED_NOTICE, SERVICE_STOPPED_NOTICE, WORKER_THREAD_NAME,
};

#[test]
fn process_constants() {
    assert_eq!(ENGINE_PATH, "/tmp/kv_store");
    assert_eq!(METRICS_ADDRESS, "127.0.0.1:8085");
    assert_eq!(DEFAULT_LOG_FILTER, "info");
    assert_eq!(WORKER_THREAD_NAME, "malloc_test");
    assert_eq!(DRAIN_DEADLINE_SECS, 30);
}

#[test]
fn log_lines() {
    assert_eq!(SERVER_STARTING_NOTICE, "Starting metrics server at http://127.0.0.1:8085");
    assert_eq!(SERVER_STOPPED_NOTICE, "metrics server is shutdown");
    assert_eq!(SERVICE_STOPPED_NOTICE, "service is shutdown");
}

#[test]
fn steps_come_in_order() {
    let mut supervisor = Supervisor::new();
    let expected = [
        (Phase::Created, Step::BuildRuntime),
        (Phase::RuntimeReady, Step::InitLogging),
        (Phase::LoggingReady, Step::OpenEngine),
        (Phase::EngineReady, Step::LaunchServer),
        (Phase::Serving, Step::AwaitServer),
        (Phase::Stopped, Step::Exit),
    ];
    for (phase, step) in expected {
        assert_eq!(supervisor.phase(), phase);
        assert_eq!(supervisor.pending(), step);
        supervisor.report(Outcome::Done);
    }
    assert_eq!(supervisor.phase(), Phase::Exited);
    assert_eq!(supervisor.pending(), Step::Halt);
}

#[test]
fn engine_failure_aborts_before_the_server() {
    let mut supervisor = Supervisor::new();
    supervisor.report(Outcome::Done);
    supervisor.report(Outcome::Done);
    assert_eq!(supervisor.pending(), Step::OpenEngine);
    supervisor.report(Outcome::Failed);
    assert_eq!(supervisor.phase(), Phase::Aborted);
    assert_eq!(supervisor.pending(), Step::Halt);
    supervisor.report(Outcome::Done);
    assert_eq!(supervisor.phase(), Phase::Aborted);
}

#[test]
fn any_failed_step_aborts() {
    for done_before in 0..6 {
        let mut supervisor = Supervisor::new();
        for _ in 0..done_before {
            supervisor.report(Outcome::Done);
        }
        supervisor.report(Outcome::Failed);
        assert_eq!(supervisor.phase(), Phase::Aborted);
    }
}

#[test]
fn exited_is_final() {
    let mut supervisor = Supervisor::new();
    for _ in 0..6 {
        supervisor.report(Outcome::Done);
    }
    assert_eq!(supervisor.phase(), Phase::Exited);
    supervisor.report(Outcome::Failed);
    assert_eq!(supervisor.phase(), Phase::Exited);
    supervisor.report(Outcome::Done);
    assert_eq!(supervisor.phase(), Phase::Exited);
}

#[test]
fn failure_messages() {
    assert_eq!(
        failure_message(
            FatalCause::EngineOpen,
            "failed to open DB. DB path: /tmp/kv_store: IO error"
        ),
        "failed to initialize KV store: failed to open DB. DB path: /tmp/kv_store: IO error"
    );
    assert_eq!(
        failure_message(FatalCause::AddressResolution, "invalid socket address"),
        "failed to resolve metrics address: invalid socket address"
    );
    assert_eq!(
        failure_message(FatalCause::AddressMissing, ""),
        "failed to get metrics socket address"
    );
    assert_eq!(
        failure_message(FatalCause::Server, "address already in use"),
        "failed to start metrics server: address already in use"
    );
}
