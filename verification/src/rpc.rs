//! The Discord rich-presence worker.
//!
//! The worker owns at most one Discord client. Its decisions are a state
//! machine: each step takes the outcome of the action performed last and
//! gives the next state and the next action. The caller performs the
//! actions (connecting, pausing, talking to Discord, reading commands)
//! and reports their outcomes.
use vstd::prelude::*;

use crate::config::AppConfig;

verus! {

/// A command for the presence worker.
#[derive(Clone, Copy, Debug, PartialEq, Eq, Structural)]
pub enum RpcCommand {
    /// Restart the RPC.
    Restart,
    /// Stop the RPC.
    Stop,
    /// Shutdown the RPC thread.
    Shutdown,
}

/// Whether the presence is connected to Discord.
#[derive(Clone, Copy, Debug, PartialEq, Eq, Structural)]
pub enum RpcState {
    Connected,
    Disconnected,
}

/// Errors of the presence worker.
#[derive(Debug)]
pub enum RpcError {
    SpawnThread,
    ThreadPanicked,
    SetActivity(String),
}

/// The text that describes an error of the presence worker.
pub open spec fn rpc_error_text(err: &RpcError) -> Seq<char> {
    match err {
        RpcError::SpawnThread => "failed to spawn rpc thread"@,
        RpcError::ThreadPanicked => "rpc thread panicked"@,
        RpcError::SetActivity(reason) => "failed to set discord activity: "@ + reason@,
    }
}

impl RpcError {
    /// The text that describes the error.
    pub fn message(&self) -> (res: String)
        ensures
            res@ == rpc_error_text(self),
    {
        match self {
            RpcError::SpawnThread => "failed to spawn rpc thread".to_owned(),
            RpcError::ThreadPanicked => "rpc thread panicked".to_owned(),
            RpcError::SetActivity(reason) => {
                let mut text = "failed to set discord activity: ".to_owned();
                text.append(reason.as_str());
                text
            },
        }
    }
}

/// What the presence shows.
pub struct ActivityContent {
    pub name: String,
    pub details: String,
    pub state: String,
    pub large_text: String,
    pub large_url: String,
    pub state_url: String,
    /// Start of the activity, in seconds since the Unix epoch.
    pub start: i64,
}

/// The presence for `config`, started at `start_secs` seconds after the
/// Unix epoch.
pub fn activity_for(config: &AppConfig, start_secs: u64) -> (res: ActivityContent)
    ensures
        res.name@ == config.rpc_name@,
        res.details@ == config.rpc_details@,
        res.state@ == config.rpc_state@,
        res.large_text@ == config.rpc_asset_large_text@,
        res.large_url@ == config.rpc_url@,
        res.state_url@ == config.rpc_url@,
        res.start == start_secs as i64,
{
    ActivityContent {
        name: config.rpc_name.to_owned(),
        details: config.rpc_details.to_owned(),
        state: config.rpc_state.to_owned(),
        large_text: config.rpc_asset_large_text.to_owned(),
        large_url: config.rpc_url.to_owned(),
        state_url: config.rpc_url.to_owned(),
        start: start_secs as i64,
    }
}

/// Seconds the worker waits before its first connection, while the tray
/// starts.
pub const START_DELAY_SECS: u64 = 1;

/// What the worker is waiting for. Each phase is the wait for the result
/// of one action; `restart` records whether the presence is to be set
/// once connected; `attempt` counts the connection attempts made.
#[derive(Clone, Copy, Debug, PartialEq, Eq, Structural)]
pub enum WorkerPhase {
    StartDelay,
    Opening { restart: bool },
    Trying { attempt: u32, restart: bool },
    ReportingFailure { attempt: u32, restart: bool },
    Backoff { attempt: u32, restart: bool },
    Forgetting,
    ReportingConnected { restart: bool },
    Activating,
    Reporting,
    Listening,
    Replacing,
    Clearing,
    Finishing,
    Closing,
    Finished,
}

/// An action for the caller to perform.
#[derive(Clone, Copy, Debug, PartialEq, Eq, Structural)]
pub enum WorkerAction {
    /// Sleep for the given number of seconds.
    Pause { secs: u64 },
    /// Create a new Discord client.
    OpenClient,
    /// Try to connect the client.
    TryConnect,
    /// Tell the backend the presence's state.
    Report(RpcState),
    /// Drop the client, which could not connect.
    ForgetClient,
    /// Set the presence's activity.
    SetActivity,
    /// Clear the presence's activity (a failure is only logged).
    ClearActivity,
    /// Close the client and drop it (a failure is ignored).
    CloseClient,
    /// Wait for the next command.
    AwaitCommand,
    /// Leave the worker loop.
    Exit,
}

/// The outcome of the action performed last.
#[derive(Clone, Copy, Debug, PartialEq, Eq, Structural)]
pub enum WorkerOutcome {
    /// The action carries no result, and was performed.
    Done,
    /// The result of a connection attempt.
    Connect { ok: bool },
    /// The result of setting the activity.
    Activity { ok: bool },
    /// The next command; `None` when the command channel is closed.
    Received(Option<RpcCommand>),
}

/// The presence worker's state.
#[derive(Clone, Copy, Debug, PartialEq, Eq, Structural)]
pub struct RpcWorker {
    pub phase: WorkerPhase,
    /// Whether the worker holds a Discord client.
    pub has_client: bool,
    /// How many connection attempts one connection makes.
    pub retries: u32,
    /// Pause after a failed attempt, in seconds.
    pub delay_secs: u64,
}

/// The action the worker waits on in its phase.
pub open spec fn awaited(w: RpcWorker) -> WorkerAction {
    match w.phase {
        WorkerPhase::StartDelay => WorkerAction::Pause { secs: START_DELAY_SECS },
        WorkerPhase::Opening { .. } => WorkerAction::OpenClient,
        WorkerPhase::Trying { .. } => WorkerAction::TryConnect,
        WorkerPhase::ReportingFailure { .. } => WorkerAction::Report(RpcState::Disconnected),
        WorkerPhase::Backoff { .. } => WorkerAction::Pause { secs: w.delay_secs },
        WorkerPhase::Forgetting => WorkerAction::ForgetClient,
        WorkerPhase::ReportingConnected { .. } => WorkerAction::Report(RpcState::Connected),
        WorkerPhase::Activating => WorkerAction::SetActivity,
        WorkerPhase::Reporting => WorkerAction::Report(RpcState::Disconnected),
        WorkerPhase::Listening => WorkerAction::AwaitCommand,
        WorkerPhase::Replacing => WorkerAction::CloseClient,
        WorkerPhase::Clearing => WorkerAction::ClearActivity,
        WorkerPhase::Finishing => WorkerAction::ClearActivity,
        WorkerPhase::Closing => WorkerAction::CloseClient,
        WorkerPhase::Finished => WorkerAction::Exit,
    }
}

/// The worker in `phase`, with `has_client` and the same settings.
pub open spec fn with_phase(w: RpcWorker, phase: WorkerPhase, has_client: bool) -> RpcWorker {
    RpcWorker { phase, has_client, ..w }
}

/// The phase after a connection attempt numbered `attempt` failed and the
/// pause after it ended: another attempt, or giving up.
pub open spec fn after_backoff(w: RpcWorker, attempt: u32, restart: bool) -> WorkerPhase {
    if attempt < w.retries {
        WorkerPhase::Trying { attempt: (attempt + 1) as u32, restart }
    } else {
        WorkerPhase::Forgetting
    }
}

/// How the worker moves on `outcome`; `None` where the outcome does not
/// answer the action the phase waits on.
pub open spec fn transition(w: RpcWorker, outcome: WorkerOutcome) -> Option<RpcWorker> {
    match (w.phase, outcome) {
        (WorkerPhase::StartDelay, WorkerOutcome::Done) => Some(
            with_phase(w, WorkerPhase::Opening { restart: false }, w.has_client),
        ),
        (WorkerPhase::Opening { restart }, WorkerOutcome::Done) => Some(
            with_phase(
                w,
                if w.retries > 0 {
                    WorkerPhase::Trying { attempt: 1, restart }
                } else {
                    WorkerPhase::Forgetting
                },
                true,
            ),
        ),
        (WorkerPhase::Trying { attempt, restart }, WorkerOutcome::Connect { ok }) => Some(
            with_phase(
                w,
                if ok {
                    WorkerPhase::ReportingConnected { restart }
                } else {
                    WorkerPhase::ReportingFailure { attempt, restart }
                },
                w.has_client,
            ),
        ),
        (WorkerPhase::ReportingFailure { attempt, restart }, WorkerOutcome::Done) => Some(
            with_phase(w, WorkerPhase::Backoff { attempt, restart }, w.has_client),
        ),
        (WorkerPhase::Backoff { attempt, restart }, WorkerOutcome::Done) => Some(
            with_phase(w, after_backoff(w, attempt, restart), w.has_client),
        ),
        (WorkerPhase::Forgetting, WorkerOutcome::Done) => Some(
            with_phase(w, WorkerPhase::Listening, false),
        ),
        (WorkerPhase::ReportingConnected { restart }, WorkerOutcome::Done) => Some(
            with_phase(
                w,
                if restart {
                    WorkerPhase::Activating
                } else {
                    WorkerPhase::Listening
                },
                w.has_client,
            ),
        ),
        (WorkerPhase::Activating, WorkerOutcome::Activity { ok }) => Some(
            with_phase(
                w,
                if ok {
                    WorkerPhase::Listening
                } else {
                    WorkerPhase::Reporting
                },
                w.has_client,
            ),
        ),
        (WorkerPhase::Reporting, WorkerOutcome::Done) => Some(
            with_phase(w, WorkerPhase::Listening, w.has_client),
        ),
        (WorkerPhase::Listening, WorkerOutcome::Received(Some(RpcCommand::Restart))) => Some(
            with_phase(
                w,
                if w.has_client {
                    WorkerPhase::Replacing
                } else {
                    WorkerPhase::Opening { restart: true }
                },
                w.has_client,
            ),
        ),
        (WorkerPhase::Listening, WorkerOutcome::Received(Some(RpcCommand::Stop))) => Some(
            with_phase(
                w,
                if w.has_client {
                    WorkerPhase::Clearing
                } else {
                    WorkerPhase::Listening
                },
                w.has_client,
            ),
        ),
        (WorkerPhase::Listening, WorkerOutcome::Received(Some(RpcCommand::Shutdown)))
        | (WorkerPhase::Listening, WorkerOutcome::Received(None)) => Some(
            with_phase(
                w,
                if w.has_client {
                    WorkerPhase::Finishing
                } else {
                    WorkerPhase::Finished
                },
                w.has_client,
            ),
        ),
        (WorkerPhase::Replacing, WorkerOutcome::Done) => Some(
            with_phase(w, WorkerPhase::Opening { restart: true }, false),
        ),
        (WorkerPhase::Clearing, WorkerOutcome::Done) => Some(
            with_phase(w, WorkerPhase::Reporting, w.has_client),
        ),
        (WorkerPhase::Finishing, WorkerOutcome::Done) => Some(
            with_phase(w, WorkerPhase::Closing, w.has_client),
        ),
        (WorkerPhase::Closing, WorkerOutcome::Done) => Some(
            with_phase(w, WorkerPhase::Finished, false),
        ),
        _ => None,
    }
}

/// The worker after `outcome`: an outcome that does not answer the pending
/// action leaves it unchanged, so that the action is asked for again.
pub open spec fn next_worker(w: RpcWorker, outcome: WorkerOutcome) -> RpcWorker {
    match transition(w, outcome) {
        Some(n) => n,
        None => w,
    }
}

/// The worker as it starts with `retries` attempts per connection and
/// `delay_secs` seconds between attempts.
pub open spec fn initial_worker(retries: u32, delay_secs: u64) -> RpcWorker {
    RpcWorker { phase: WorkerPhase::StartDelay, has_client: false, retries, delay_secs }
}

/// The phases in which the worker holds a client for certain.
pub open spec fn holds_client(phase: WorkerPhase) -> bool {
    match phase {
        WorkerPhase::Trying { .. }
        | WorkerPhase::ReportingFailure { .. }
        | WorkerPhase::Backoff { .. }
        | WorkerPhase::Forgetting
        | WorkerPhase::ReportingConnected { .. }
        | WorkerPhase::Activating
        | WorkerPhase::Replacing
        | WorkerPhase::Clearing
        | WorkerPhase::Finishing
        | WorkerPhase::Closing => true,
        _ => false,
    }
}

/// The phases in which the worker holds no client for certain.
pub open spec fn lacks_client(phase: WorkerPhase) -> bool {
    match phase {
        WorkerPhase::StartDelay | WorkerPhase::Opening { .. } | WorkerPhase::Finished => true,
        _ => false,
    }
}

/// The connection attempt the phase counts, where it counts one.
pub open spec fn attempt_of(phase: WorkerPhase) -> Option<u32> {
    match phase {
        WorkerPhase::Trying { attempt, .. }
        | WorkerPhase::ReportingFailure { attempt, .. }
        | WorkerPhase::Backoff { attempt, .. } => Some(attempt),
        _ => None,
    }
}

/// The worker's invariant: attempts are numbered from 1 up to the
/// configured retries, and the client is held exactly where the phase
/// needs one.
pub open spec fn worker_wf(w: RpcWorker) -> bool {
    &&& (attempt_of(w.phase) matches Some(a) ==> 1 <= a <= w.retries)
    &&& (holds_client(w.phase) ==> w.has_client)
    &&& (lacks_client(w.phase) ==> !w.has_client)
}

impl RpcWorker {
    /// The worker for `config`, before its first action.
    pub fn start(config: &AppConfig) -> (res: RpcWorker)
        ensures
            res == initial_worker(config.connect_retries, config.connect_delay_secs),
            worker_wf(res),
    {
        RpcWorker {
            phase: WorkerPhase::StartDelay,
            has_client: false,
            retries: config.connect_retries,
            delay_secs: config.connect_delay_secs,
        }
    }

    /// The action the worker waits on.
    pub fn pending_action(&self) -> (res: WorkerAction)
        ensures
            res == awaited(*self),
    {
        match self.phase {
            WorkerPhase::StartDelay => WorkerAction::Pause { secs: START_DELAY_SECS },
            WorkerPhase::Opening { .. } => WorkerAction::OpenClient,
            WorkerPhase::Trying { .. } => WorkerAction::TryConnect,
            WorkerPhase::ReportingFailure { .. } => WorkerAction::Report(RpcState::Disconnected),
            WorkerPhase::Backoff { .. } => WorkerAction::Pause { secs: self.delay_secs },
            WorkerPhase::Forgetting => WorkerAction::ForgetClient,
            WorkerPhase::ReportingConnected { .. } => WorkerAction::Report(RpcState::Connected),
            WorkerPhase::Activating => WorkerAction::SetActivity,
            WorkerPhase::Reporting => WorkerAction::Report(RpcState::Disconnected),
            WorkerPhase::Listening => WorkerAction::AwaitCommand,
            WorkerPhase::Replacing => WorkerAction::CloseClient,
            WorkerPhase::Clearing => WorkerAction::ClearActivity,
            WorkerPhase::Finishing => WorkerAction::ClearActivity,
            WorkerPhase::Closing => WorkerAction::CloseClient,
            WorkerPhase::Finished => WorkerAction::Exit,
        }
    }

    /// Moves the worker on the outcome of the action performed last, and
    /// gives the next action.
    pub fn step(&mut self, outcome: WorkerOutcome) -> (res: WorkerAction)
        ensures
            *final(self) == next_worker(*old(self), outcome),
            res == awaited(*final(self)),
    {
        let has_client = self.has_client;
        match (self.phase, outcome) {
            (WorkerPhase::StartDelay, WorkerOutcome::Done) => {
                self.phase = WorkerPhase::Opening { restart: false };
            },
            (WorkerPhase::Opening { restart }, WorkerOutcome::Done) => {
                self.has_client = true;
                self.phase = if self.retries > 0 {
                    WorkerPhase::Trying { attempt: 1, restart }
                } else {
                    WorkerPhase::Forgetting
                };
            },
            (WorkerPhase::Trying { attempt, restart }, WorkerOutcome::Connect { ok }) => {
                self.phase = if ok {
                    WorkerPhase::ReportingConnected { restart }
                } else {
                    WorkerPhase::ReportingFailure { attempt, restart }
                };
            },
            (WorkerPhase::ReportingFailure { attempt, restart }, WorkerOutcome::Done) => {
                self.phase = WorkerPhase::Backoff { attempt, restart };
            },
            (WorkerPhase::Backoff { attempt, restart }, WorkerOutcome::Done) => {
                self.phase = if attempt < self.retries {
                    WorkerPhase::Trying { attempt: attempt + 1, restart }
                } else {
                    WorkerPhase::Forgetting
                };
            },
            (WorkerPhase::Forgetting, WorkerOutcome::Done) => {
                self.has_client = false;
                self.phase = WorkerPhase::Listening;
            },
            (WorkerPhase::ReportingConnected { restart }, WorkerOutcome::Done) => {
                self.phase = if restart {
                    WorkerPhase::Activating
                } else {
                    WorkerPhase::Listening
                };
            },
            (WorkerPhase::Activating, WorkerOutcome::Activity { ok }) => {
                self.phase = if ok {
                    WorkerPhase::Listening
                } else {
                    WorkerPhase::Reporting
                };
            },
            (WorkerPhase::Reporting, WorkerOutcome::Done) => {
                self.phase = WorkerPhase::Listening;
            },
            (WorkerPhase::Listening, WorkerOutcome::Received(Some(RpcCommand::Restart))) => {
                self.phase = if has_client {
                    WorkerPhase::Replacing
                } else {
                    WorkerPhase::Opening { restart: true }
                };
            },
            (WorkerPhase::Listening, WorkerOutcome::Received(Some(RpcCommand::Stop))) => {
                self.phase = if has_client {
                    WorkerPhase::Clearing
                } else {
                    WorkerPhase::Listening
                };
            },
            (WorkerPhase::Listening, WorkerOutcome::Received(Some(RpcCommand::Shutdown)))
            | (WorkerPhase::Listening, WorkerOutcome::Received(None)) => {
                self.phase = if has_client {
                    WorkerPhase::Finishing
                } else {
                    WorkerPhase::Finished
                };
            },
            (WorkerPhase::Replacing, WorkerOutcome::Done) => {
                self.has_client = false;
                self.phase = WorkerPhase::Opening { restart: true };
            },
            (WorkerPhase::Clearing, WorkerOutcome::Done) => {
                self.phase = WorkerPhase::Reporting;
            },
            (WorkerPhase::Finishing, WorkerOutcome::Done) => {
                self.phase = WorkerPhase::Closing;
            },
            (WorkerPhase::Closing, WorkerOutcome::Done) => {
                self.has_client = false;
                self.phase = WorkerPhase::Finished;
            },
            _ => {},
        }
        self.pending_action()
    }
}

/// Every step keeps the worker's invariant: a connection never makes more
/// attempts than configured, and the client is held where it is used and
/// dropped where the worker starts, reconnects or has finished.
pub proof fn lemma_step_keeps_wf(w: RpcWorker, outcome: WorkerOutcome)
    requires
        worker_wf(w),
    ensures
        worker_wf(next_worker(w, outcome)),
{
}

/// Once finished, the worker stays finished and only asks to exit.
pub proof fn lemma_finished_is_final(w: RpcWorker, outcome: WorkerOutcome)
    requires
        w.phase == WorkerPhase::Finished,
    ensures
        next_worker(w, outcome) == w,
        awaited(next_worker(w, outcome)) == WorkerAction::Exit,
{
}

/// A shutdown, or a closed command channel, ends the worker: with a
/// client it clears the activity, closes the client and exits; without
/// one it exits at once.
pub proof fn lemma_shutdown_ends_worker(
    w: RpcWorker,
    received: Option<RpcCommand>,
    w1: RpcWorker,
    w2: RpcWorker,
    w3: RpcWorker,
)
    requires
        worker_wf(w),
        w.phase == WorkerPhase::Listening,
        received == Some(RpcCommand::Shutdown) || received is None,
        w1 == next_worker(w, WorkerOutcome::Received(received)),
        w2 == next_worker(w1, WorkerOutcome::Done),
        w3 == next_worker(w2, WorkerOutcome::Done),
    ensures
        w.has_client ==> awaited(w1) == WorkerAction::ClearActivity,
        w.has_client ==> awaited(w2) == WorkerAction::CloseClient,
        w.has_client ==> awaited(w3) == WorkerAction::Exit && !w3.has_client,
        !w.has_client ==> awaited(w1) == WorkerAction::Exit,
{
}

/// A failed connection attempt is reported as disconnected and followed
/// by a pause of the configured delay; then the next attempt is made, or,
/// after the last one, the client is dropped.
pub proof fn lemma_failed_attempt(
    w: RpcWorker,
    attempt: u32,
    restart: bool,
    w1: RpcWorker,
    w2: RpcWorker,
    w3: RpcWorker,
)
    requires
        w.phase == (WorkerPhase::Trying { attempt, restart }),
        w1 == next_worker(w, WorkerOutcome::Connect { ok: false }),
        w2 == next_worker(w1, WorkerOutcome::Done),
        w3 == next_worker(w2, WorkerOutcome::Done),
    ensures
        awaited(w1) == WorkerAction::Report(RpcState::Disconnected),
        awaited(w2) == (WorkerAction::Pause { secs: w.delay_secs }),
        attempt < w.retries ==> awaited(w3) == WorkerAction::TryConnect,
        attempt >= w.retries ==> awaited(w3) == WorkerAction::ForgetClient,
{
}

/// A successful connection is reported as connected; after a restart the
/// activity is set next, else the worker waits for a command.
pub proof fn lemma_successful_attempt(
    w: RpcWorker,
    attempt: u32,
    restart: bool,
    w1: RpcWorker,
    w2: RpcWorker,
)
    requires
        w.phase == (WorkerPhase::Trying { attempt, restart }),
        w1 == next_worker(w, WorkerOutcome::Connect { ok: true }),
        w2 == next_worker(w1, WorkerOutcome::Done),
    ensures
        awaited(w1) == WorkerAction::Report(RpcState::Connected),
        restart ==> awaited(w2) == WorkerAction::SetActivity,
        !restart ==> awaited(w2) == WorkerAction::AwaitCommand,
{
}

/// The activity is only ever set right after a connection made for a
/// restart succeeded (or asked for again while that result is awaited).
pub proof fn lemma_activity_only_after_connect(w: RpcWorker, outcome: WorkerOutcome)
    requires
        awaited(next_worker(w, outcome)) == WorkerAction::SetActivity,
    ensures
        w.phase == (WorkerPhase::ReportingConnected { restart: true }) || w.phase
            == WorkerPhase::Activating,
{
}

/// A stop without a client does nothing: the worker goes on waiting for
/// commands.
pub proof fn lemma_stop_without_client(w: RpcWorker)
    requires
        w.phase == WorkerPhase::Listening,
        !w.has_client,
    ensures
        next_worker(w, WorkerOutcome::Received(Some(RpcCommand::Stop))) == w,
{
}

/// The worker after the outcomes `outs`, reported in order.
pub open spec fn run(w: RpcWorker, outs: Seq<WorkerOutcome>) -> RpcWorker
    decreases outs.len(),
{
    if outs.len() == 0 {
        w
    } else {
        next_worker(run(w, outs.drop_last()), outs.last())
    }
}

/// Whether `outcome` starts a new connection: the worker moves to opening a
/// new client.
pub open spec fn starts_connection(w: RpcWorker, outcome: WorkerOutcome) -> bool {
    transition(w, outcome) matches Some(n) && n.phase is Opening
}

/// Whether `outcome` leads to a new connection attempt.
pub open spec fn starts_attempt(w: RpcWorker, outcome: WorkerOutcome) -> bool {
    transition(w, outcome) matches Some(n) && n.phase is Trying
}

/// The number of connection attempts made in the current connection after
/// the outcomes `outs`: counted from the attempt `w` is at, increased by
/// each new attempt, and back to zero when a new connection starts.
pub open spec fn attempts_made(w: RpcWorker, outs: Seq<WorkerOutcome>) -> nat
    decreases outs.len(),
{
    if outs.len() == 0 {
        match attempt_of(w.phase) {
            Some(a) => a as nat,
            None => 0,
        }
    } else {
        let before = run(w, outs.drop_last());
        if starts_connection(before, outs.last()) {
            0
        } else if starts_attempt(before, outs.last()) {
            attempts_made(w, outs.drop_last()) + 1
        } else {
            attempts_made(w, outs.drop_last())
        }
    }
}

/// Along any run the worker keeps its invariant and its settings, and the
/// attempts made in the current connection match the attempt it is at.
proof fn lemma_run_counts_attempts(w: RpcWorker, outs: Seq<WorkerOutcome>)
    requires
        worker_wf(w),
    ensures
        worker_wf(run(w, outs)),
        run(w, outs).retries == w.retries,
        run(w, outs).delay_secs == w.delay_secs,
        attempts_made(w, outs) <= w.retries,
        run(w, outs).phase is Opening ==> attempts_made(w, outs) == 0,
        attempt_of(run(w, outs).phase) matches Some(a) ==> attempts_made(w, outs) == a,
    decreases outs.len(),
{
    if outs.len() > 0 {
        let prefix = outs.drop_last();
        lemma_run_counts_attempts(w, prefix);
        lemma_step_keeps_wf(run(w, prefix), outs.last());
    }
}

/// Each connection makes at most the configured number of attempts: along
/// any run, the attempts made since the last new connection never exceed
/// `retries`; and a new client is only ever opened when none is held, so
/// at most one client is open at any time.
pub proof fn lemma_attempts_bounded(w: RpcWorker, outs: Seq<WorkerOutcome>)
    requires
        worker_wf(w),
    ensures
        attempts_made(w, outs) <= w.retries,
        awaited(run(w, outs)) == WorkerAction::OpenClient ==> !run(w, outs).has_client,
        awaited(run(w, outs)) == WorkerAction::TryConnect ==> run(w, outs).has_client,
{
    lemma_run_counts_attempts(w, outs);
}

/// From the start, the worker stays in the start delay until it opens its
/// first client, and, where attempts are configured, until it tries to
/// connect it.
proof fn lemma_start_connects_first(retries: u32, delay_secs: u64, outs: Seq<WorkerOutcome>)
    ensures
        ({
            let w0 = initial_worker(retries, delay_secs);
            &&& run(w0, outs).phase == WorkerPhase::StartDelay || exists|j: int|
                0 <= j <= outs.len() && #[trigger] awaited(run(w0, outs.take(j)))
                    == WorkerAction::OpenClient
            &&& retries > 0 ==> (run(w0, outs).phase == WorkerPhase::StartDelay || run(w0, outs).phase
                == (WorkerPhase::Opening { restart: false }) || exists|j: int|
                0 <= j <= outs.len() && #[trigger] awaited(run(w0, outs.take(j)))
                    == WorkerAction::TryConnect)
        }),
    decreases outs.len(),
{
    let w0 = initial_worker(retries, delay_secs);
    if outs.len() > 0 {
        let prefix = outs.drop_last();
        lemma_start_connects_first(retries, delay_secs, prefix);
        lemma_run_counts_attempts(w0, prefix);
        assert(outs.take(outs.len() as int) =~= outs);
        assert forall|j: int| 0 <= j <= prefix.len() implies #[trigger] outs.take(j) == prefix.take(
            j,
        ) by {
            assert(outs.take(j) =~= prefix.take(j));
        }
        let n = outs.len() as int;
        let cur = run(w0, outs);
        assert(run(w0, outs.take(n)) == cur);
        if run(w0, prefix).phase != WorkerPhase::StartDelay {
            let j = choose|j: int|
                0 <= j <= prefix.len() && #[trigger] awaited(run(w0, prefix.take(j)))
                    == WorkerAction::OpenClient;
            assert(outs.take(j) == prefix.take(j));
            assert(awaited(run(w0, outs.take(j))) == WorkerAction::OpenClient);
        } else if cur.phase != WorkerPhase::StartDelay {
            assert(cur.phase == (WorkerPhase::Opening { restart: false }));
            assert(awaited(run(w0, outs.take(n))) == WorkerAction::OpenClient);
        }
        if retries > 0 {
            if run(w0, prefix).phase != WorkerPhase::StartDelay && run(w0, prefix).phase
                != (WorkerPhase::Opening { restart: false }) {
                let j = choose|j: int|
                    0 <= j <= prefix.len() && #[trigger] awaited(run(w0, prefix.take(j)))
                        == WorkerAction::TryConnect;
                assert(outs.take(j) == prefix.take(j));
                assert(awaited(run(w0, outs.take(j))) == WorkerAction::TryConnect);
            } else if run(w0, prefix).phase == (WorkerPhase::Opening { restart: false })
                && cur.phase != (WorkerPhase::Opening { restart: false }) {
                assert(cur.phase == (WorkerPhase::Trying { attempt: 1, restart: false }));
                assert(awaited(run(w0, outs.take(n))) == WorkerAction::TryConnect);
            }
        }
    }
}

/// The worker connects once at start before it handles any command: it
/// first pauses for the start delay, and before it first waits for a
/// command it has opened a client and, where attempts are configured,
/// tried to connect it.
pub proof fn lemma_connects_before_first_command(
    retries: u32,
    delay_secs: u64,
    outs: Seq<WorkerOutcome>,
)
    requires
        awaited(run(initial_worker(retries, delay_secs), outs)) == WorkerAction::AwaitCommand,
    ensures
        awaited(initial_worker(retries, delay_secs)) == (WorkerAction::Pause {
            secs: START_DELAY_SECS,
        }),
        exists|j: int|
            0 <= j < outs.len() && #[trigger] awaited(
                run(initial_worker(retries, delay_secs), outs.take(j)),
            ) == WorkerAction::OpenClient,
        retries > 0 ==> exists|j: int|
            0 <= j < outs.len() && #[trigger] awaited(
                run(initial_worker(retries, delay_secs), outs.take(j)),
            ) == WorkerAction::TryConnect,
{
    let w0 = initial_worker(retries, delay_secs);
    lemma_start_connects_first(retries, delay_secs, outs);
    assert(outs.take(outs.len() as int) =~= outs);
    let j = choose|j: int|
        0 <= j <= outs.len() && #[trigger] awaited(run(w0, outs.take(j))) == WorkerAction::OpenClient;
    assert(j != outs.len());
    if retries > 0 {
        let k = choose|k: int|
            0 <= k <= outs.len() && #[trigger] awaited(run(w0, outs.take(k)))
                == WorkerAction::TryConnect;
        assert(k != outs.len());
    }
}

/// A restart sets the activity once its new connection succeeds, whether
/// or not a client was held: the held client is closed first, a new one is
/// opened and tried, and after the success is reported the activity is set.
pub proof fn lemma_restart_sets_activity(w: RpcWorker, outs: Seq<WorkerOutcome>)
    requires
        worker_wf(w),
        w.phase == WorkerPhase::Listening,
        w.retries > 0,
        outs == (if w.has_client {
            seq![
                WorkerOutcome::Received(Some(RpcCommand::Restart)),
                WorkerOutcome::Done,
                WorkerOutcome::Done,
                WorkerOutcome::Connect { ok: true },
                WorkerOutcome::Done,
            ]
        } else {
            seq![
                WorkerOutcome::Received(Some(RpcCommand::Restart)),
                WorkerOutcome::Done,
                WorkerOutcome::Connect { ok: true },
                WorkerOutcome::Done,
            ]
        }),
    ensures
        awaited(run(w, outs)) == WorkerAction::SetActivity,
        run(w, outs).has_client,
        w.has_client ==> awaited(run(w, outs.take(1))) == WorkerAction::CloseClient,
{
    let restart = WorkerOutcome::Received(Some(RpcCommand::Restart));
    let s0 = Seq::<WorkerOutcome>::empty();
    let s1 = s0.push(restart);
    lemma_run_push(w, s0, restart);
    assert(outs.take(1) =~= s1);
    if w.has_client {
        let s2 = s1.push(WorkerOutcome::Done);
        let s3 = s2.push(WorkerOutcome::Done);
        let s4 = s3.push(WorkerOutcome::Connect { ok: true });
        let s5 = s4.push(WorkerOutcome::Done);
        lemma_run_push(w, s1, WorkerOutcome::Done);
        lemma_run_push(w, s2, WorkerOutcome::Done);
        lemma_run_push(w, s3, WorkerOutcome::Connect { ok: true });
        lemma_run_push(w, s4, WorkerOutcome::Done);
        assert(outs =~= s5);
    } else {
        let s2 = s1.push(WorkerOutcome::Done);
        let s3 = s2.push(WorkerOutcome::Connect { ok: true });
        let s4 = s3.push(WorkerOutcome::Done);
        lemma_run_push(w, s1, WorkerOutcome::Done);
        lemma_run_push(w, s2, WorkerOutcome::Connect { ok: true });
        lemma_run_push(w, s3, WorkerOutcome::Done);
        assert(outs =~= s4);
    }
}

/// Running one more outcome steps the worker once more.
proof fn lemma_run_push(w: RpcWorker, outs: Seq<WorkerOutcome>, outcome: WorkerOutcome)
    ensures
        run(w, outs.push(outcome)) == next_worker(run(w, outs), outcome),
{
    assert(outs.push(outcome).drop_last() =~= outs);
}

/// Whatever happened before, a restart always makes the next connection
/// set the activity: from listening, a restart leads to opening a client
/// for a restart (at once without a client, after closing the held one).
pub proof fn lemma_restart_opens_for_activity(w: RpcWorker)
    requires
        w.phase == WorkerPhase::Listening,
    ensures
        !w.has_client ==> next_worker(w, WorkerOutcome::Received(Some(RpcCommand::Restart))).phase
            == (WorkerPhase::Opening { restart: true }),
        w.has_client ==> next_worker(
            next_worker(w, WorkerOutcome::Received(Some(RpcCommand::Restart))),
            WorkerOutcome::Done,
        ).phase == (WorkerPhase::Opening { restart: true }),
{
}

/// A connection opened for a restart keeps the restart through every
/// failed attempt, so the activity is set whichever attempt succeeds.
pub proof fn lemma_restart_kept_through_attempts(w: RpcWorker, outcome: WorkerOutcome)
    requires
        w.phase matches WorkerPhase::Opening { restart: true } || w.phase matches WorkerPhase::Trying {
            restart: true,
            ..
        } || w.phase matches WorkerPhase::ReportingFailure { restart: true, .. }
            || w.phase matches WorkerPhase::Backoff { restart: true, .. },
    ensures
        next_worker(w, outcome).phase matches WorkerPhase::ReportingConnected { restart } ==> restart,
        next_worker(w, outcome).phase matches WorkerPhase::Trying { restart, .. } ==> restart,
        next_worker(w, outcome).phase matches WorkerPhase::Backoff { restart, .. } ==> restart,
        next_worker(w, outcome).phase matches WorkerPhase::ReportingFailure { restart, .. }
            ==> restart,
        next_worker(w, outcome).phase matches WorkerPhase::Opening { restart } ==> restart,
{
}

} // verus!
