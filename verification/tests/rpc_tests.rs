use orion_rpc::config::AppConfig;
use orion_rpc::rpc::{
    activity_for, RpcCommand, RpcError, RpcState, RpcWorker, WorkerAction, WorkerOutcome,
    WorkerPhase,
};

fn config_with(retries: u32, delay: u64) -> AppConfig {
    let mut c = AppConfig::default();
    c.connect_retries = retries;
    c.connect_delay_secs = delay;
    c
}

/// Runs the worker to its first connection, which succeeds at once.
fn connected_worker() -> RpcWorker {
    let mut w = RpcWorker::start(&AppConfig::default());
    assert_eq!(w.step(WorkerOutcome::Done), WorkerAction::OpenClient);
    assert_eq!(w.step(WorkerOutcome::Done), WorkerAction::TryConnect);
    assert_eq!(w.step(WorkerOutcome::Connect { ok: true }), WorkerAction::Report(RpcState::Connected));
    assert_eq!(w.step(WorkerOutcome::Done), WorkerAction::AwaitCommand);
    w
}

#[test]
fn worker_starts_with_a_pause() {
    let w = RpcWorker::start(&AppConfig::default());
    assert_eq!(w.pending_action(), WorkerAction::Pause { secs: 1 });
    assert_eq!(w.phase, WorkerPhase::StartDelay);
    assert!(!w.has_client);
    assert_eq!(w.retries, 5);
    assert_eq!(w.delay_secs, 3);
}

#[test]
fn first_connection_does_not_set_activity() {
    let w = connected_worker();
    assert_eq!(w.phase, WorkerPhase::Listening);
    assert!(w.has_client);
}

#[test]
fn failed_attempts_are_reported_and_retried() {
    let mut w = RpcWorker::start(&config_with(2, 7));
    w.step(WorkerOutcome::Done);
    assert_eq!(w.step(WorkerOutcome::Done), WorkerAction::TryConnect);
    assert_eq!(
        w.step(WorkerOutcome::Connect { ok: false }),
        WorkerAction::Report(RpcState::Disconnected)
    );
    assert_eq!(w.step(WorkerOutcome::Done), WorkerAction::Pause { secs: 7 });
    assert_eq!(w.step(WorkerOutcome::Done), WorkerAction::TryConnect);
    assert_eq!(w.phase, WorkerPhase::Trying { attempt: 2, restart: false });
    assert_eq!(
        w.step(WorkerOutcome::Connect { ok: false }),
        WorkerAction::Report(RpcState::Disconnected)
    );
    assert_eq!(w.step(WorkerOutcome::Done), WorkerAction::Pause { secs: 7 });
    // The last attempt failed: the client is dropped.
    assert_eq!(w.step(WorkerOutcome::Done), WorkerAction::ForgetClient);
    assert_eq!(w.step(WorkerOutcome::Done), WorkerAction::AwaitCommand);
    assert!(!w.has_client);
}

#[test]
fn zero_retries_never_connects() {
    let mut w = RpcWorker::start(&config_with(0, 3));
    w.step(WorkerOutcome::Done);
    assert_eq!(w.step(WorkerOutcome::Done), WorkerAction::ForgetClient);
    assert_eq!(w.step(WorkerOutcome::Done), WorkerAction::AwaitCommand);
}

#[test]
fn restart_replaces_the_client_and_sets_activity() {
    let mut w = connected_worker();
    assert_eq!(w.step(WorkerOutcome::Received(Some(RpcCommand::Restart))), WorkerAction::CloseClient);
    assert_eq!(w.step(WorkerOutcome::Done), WorkerAction::OpenClient);
    assert_eq!(w.step(WorkerOutcome::Done), WorkerAction::TryConnect);
    assert_eq!(w.step(WorkerOutcome::Connect { ok: true }), WorkerAction::Report(RpcState::Connected));
    assert_eq!(w.step(WorkerOutcome::Done), WorkerAction::SetActivity);
    assert_eq!(w.step(WorkerOutcome::Activity { ok: true }), WorkerAction::AwaitCommand);
}

#[test]
fn failed_activity_is_reported_as_disconnected() {
    let mut w = connected_worker();
    w.step(WorkerOutcome::Received(Some(RpcCommand::Restart)));
    w.step(WorkerOutcome::Done);
    w.step(WorkerOutcome::Done);
    w.step(WorkerOutcome::Connect { ok: true });
    w.step(WorkerOutcome::Done);
    assert_eq!(
        w.step(WorkerOutcome::Activity { ok: false }),
        WorkerAction::Report(RpcState::Disconnected)
    );
    assert_eq!(w.step(WorkerOutcome::Done), WorkerAction::AwaitCommand);
}

#[test]
fn restart_without_client_opens_one() {
    let mut w = RpcWorker::start(&config_with(0, 3));
    w.step(WorkerOutcome::Done);
    w.step(WorkerOutcome::Done);
    w.step(WorkerOutcome::Done);
    assert_eq!(w.step(WorkerOutcome::Received(Some(RpcCommand::Restart))), WorkerAction::OpenClient);
}

#[test]
fn stop_clears_and_reports() {
    let mut w = connected_worker();
    assert_eq!(w.step(WorkerOutcome::Received(Some(RpcCommand::Stop))), WorkerAction::ClearActivity);
    assert_eq!(w.step(WorkerOutcome::Done), WorkerAction::Report(RpcState::Disconnected));
    assert_eq!(w.step(WorkerOutcome::Done), WorkerAction::AwaitCommand);
    assert!(w.has_client);
}

#[test]
fn stop_without_client_does_nothing() {
    let mut w = RpcWorker::start(&config_with(0, 3));
    w.step(WorkerOutcome::Done);
    w.step(WorkerOutcome::Done);
    w.step(WorkerOutcome::Done);
    let before = w;
    assert_eq!(w.step(WorkerOutcome::Received(Some(RpcCommand::Stop))), WorkerAction::AwaitCommand);
    assert_eq!(w, before);
}

#[test]
fn shutdown_closes_the_client_and_exits() {
    let mut w = connected_worker();
    assert_eq!(w.step(WorkerOutcome::Received(Some(RpcCommand::Shutdown))), WorkerAction::ClearActivity);
    assert_eq!(w.step(WorkerOutcome::Done), WorkerAction::CloseClient);
    assert_eq!(w.step(WorkerOutcome::Done), WorkerAction::Exit);
    assert!(!w.has_client);
    assert_eq!(w.step(WorkerOutcome::Done), WorkerAction::Exit);
}

#[test]
fn closed_channel_ends_the_worker() {
    let mut w = RpcWorker::start(&config_with(0, 3));
    w.step(WorkerOutcome::Done);
    w.step(WorkerOutcome::Done);
    w.step(WorkerOutcome::Done);
    assert_eq!(w.step(WorkerOutcome::Received(None)), WorkerAction::Exit);
    assert_eq!(w.phase, WorkerPhase::Finished);
}

#[test]
fn unexpected_outcome_repeats_the_pending_action() {
    let mut w = connected_worker();
    let before = w;
    assert_eq!(w.step(WorkerOutcome::Connect { ok: true }), WorkerAction::AwaitCommand);
    assert_eq!(w, before);
}

#[test]
fn error_messages() {
    assert_eq!(RpcError::SpawnThread.message(), "failed to spawn rpc thread");
    assert_eq!(RpcError::ThreadPanicked.message(), "rpc thread panicked");
    assert_eq!(
        RpcError::SetActivity("pipe closed".to_string()).message(),
        "failed to set discord activity: pipe closed"
    );
}

#[test]
fn activity_comes_from_the_config() {
    let a = activity_for(&AppConfig::default(), 1_700_000_000);
    assert_eq!(a.name, "Orion Hosting");
    assert_eq!(a.details, "Free Host");
    assert_eq!(a.state, "orionhost.xyz");
    assert_eq!(a.large_text, "Join Orion!");
    assert_eq!(a.large_url, "https://orionhost.xyz");
    assert_eq!(a.state_url, "https://orionhost.xyz");
    assert_eq!(a.start, 1_700_000_000);
}
