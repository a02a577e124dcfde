//! The process supervisor: the order in which the process comes up, serves
//! and goes down.
//!
//! The supervisor holds the phase and decides the step that is due. The caller
//! performs the step (builds the scheduler, opens the engine, runs the
//! server) and reports how it went.

use vstd::prelude::*;

verus! {

/// The directory of the engine's data files.
pub const ENGINE_PATH: &'static str = "/tmp/kv_store";

/// The loopback address and port of the diagnostics listener.
pub const METRICS_ADDRESS: &'static str = "127.0.0.1:8085";

/// The log filter used when the environment provides none.
pub const DEFAULT_LOG_FILTER: &'static str = "info";

/// The name given to the scheduler's worker threads.
pub const WORKER_THREAD_NAME: &'static str = "malloc_test";

/// Logged when the listener is bound and the server is about to serve.
pub const SERVER_STARTING_NOTICE: &'static str = "Starting metrics server at http://127.0.0.1:8085";

/// Logged when the server has drained and returned.
pub const SERVER_STOPPED_NOTICE: &'static str = "metrics server is shutdown";

/// Logged when every unit of work has completed.
pub const SERVICE_STOPPED_NOTICE: &'static str = "service is shutdown";

/// The seconds that in-flight requests are given to finish once shutdown has
/// begun. After that the server returns with whatever is still open.
pub const DRAIN_DEADLINE_SECS: u64 = 30;

/// How far the process has come.
#[derive(Clone, Copy, Debug, PartialEq, Eq, Structural)]
pub enum Phase {
    /// Nothing has been set up.
    Created,
    /// The multi-worker scheduler exists.
    RuntimeReady,
    /// Logging is initialised.
    LoggingReady,
    /// The storage engine is open.
    EngineReady,
    /// The metrics server has been launched and is wired to the shutdown
    /// coordinator.
    Serving,
    /// The metrics server has drained and returned.
    Stopped,
    /// The process has logged completion and exits with success.
    Exited,
    /// A startup precondition failed; the process aborts.
    Aborted,
}

/// The step that is due in a phase.
#[derive(Clone, Copy, Debug, PartialEq, Eq, Structural)]
pub enum Step {
    BuildRuntime,
    InitLogging,
    OpenEngine,
    LaunchServer,
    AwaitServer,
    /// Log completion and exit with success.
    Exit,
    /// Nothing is left to do.
    Halt,
}

/// How a step went.
#[derive(Clone, Copy, Debug, PartialEq, Eq, Structural)]
pub enum Outcome {
    Done,
    Failed,
}

/// The step that is due in `phase`.
pub open spec fn spec_pending(phase: Phase) -> Step {
    match phase {
        Phase::Created => Step::BuildRuntime,
        Phase::RuntimeReady => Step::InitLogging,
        Phase::LoggingReady => Step::OpenEngine,
        Phase::EngineReady => Step::LaunchServer,
        Phase::Serving => Step::AwaitServer,
        Phase::Stopped => Step::Exit,
        Phase::Exited => Step::Halt,
        Phase::Aborted => Step::Halt,
    }
}

/// The phase after the step due in `phase` went as `outcome` says. Every
/// failure is final: nothing is retried.
pub open spec fn spec_advance(phase: Phase, outcome: Outcome) -> Phase {
    match phase {
        Phase::Exited => Phase::Exited,
        Phase::Aborted => Phase::Aborted,
        _ => match outcome {
            Outcome::Failed => Phase::Aborted,
            Outcome::Done => match phase {
                Phase::Created => Phase::RuntimeReady,
                Phase::RuntimeReady => Phase::LoggingReady,
                Phase::LoggingReady => Phase::EngineReady,
                Phase::EngineReady => Phase::Serving,
                Phase::Serving => Phase::Stopped,
                _ => Phase::Exited,
            },
        },
    }
}

/// The phase after a sequence of reports, oldest first.
pub open spec fn spec_run(phase: Phase, outcomes: Seq<Outcome>) -> Phase
    decreases outcomes.len(),
{
    if outcomes.len() == 0 {
        phase
    } else {
        spec_run(spec_advance(phase, outcomes[0]), outcomes.drop_first())
    }
}

/// Whether the server is about to be launched or has been.
pub open spec fn spec_server_reached(phase: Phase) -> bool {
    phase == Phase::EngineReady || phase == Phase::Serving || phase == Phase::Stopped || phase
        == Phase::Exited
}

/// The startup preconditions whose failure ends the process with a message.
#[derive(Clone, Copy, Debug, PartialEq, Eq, Structural)]
pub enum FatalCause {
    /// The storage engine could not be created or opened.
    EngineOpen,
    /// The metrics address could not be resolved.
    AddressResolution,
    /// The metrics address resolved to nothing.
    AddressMissing,
    /// The listener could not be bound, or the server failed.
    Server,
}

/// The words that precede the detail when the process gives up for `cause`.
pub open spec fn spec_failure_prefix(cause: FatalCause) -> Seq<char> {
    match cause {
        FatalCause::EngineOpen => "failed to initialize KV store: "@,
        FatalCause::AddressResolution => "failed to resolve metrics address: "@,
        FatalCause::AddressMissing => "failed to get metrics socket address"@,
        FatalCause::Server => "failed to start metrics server: "@,
    }
}

/// The message with which the process aborts for `cause`, with what the
/// failed operation reported as `detail`.
pub fn failure_message(cause: FatalCause, detail: &str) -> (r: String)
    ensures
        r@ == spec_failure_prefix(cause) + detail@,
{
    let prefix = match cause {
        FatalCause::EngineOpen => "failed to initialize KV store: ",
        FatalCause::AddressResolution => "failed to resolve metrics address: ",
        FatalCause::AddressMissing => "failed to get metrics socket address",
        FatalCause::Server => "failed to start metrics server: ",
    };
    let mut text = prefix.to_owned();
    text.append(detail);
    text
}

/// The top-level orchestration of the process.
pub struct Supervisor {
    phase: Phase,
}

impl Supervisor {
    /// The current phase.
    pub closed spec fn spec_phase(&self) -> Phase {
        self.phase
    }

    /// A supervisor for a process that has set up nothing yet.
    pub fn new() -> (r: Self)
        ensures
            r.spec_phase() == Phase::Created,
    {
        Supervisor { phase: Phase::Created }
    }

    /// The current phase.
    pub fn phase(&self) -> (r: Phase)
        ensures
            r == self.spec_phase(),
    {
        self.phase
    }

    /// The step to perform now.
    pub fn pending(&self) -> (r: Step)
        ensures
            r == spec_pending(self.spec_phase()),
    {
        match self.phase {
            Phase::Created => Step::BuildRuntime,
            Phase::RuntimeReady => Step::InitLogging,
            Phase::LoggingReady => Step::OpenEngine,
            Phase::EngineReady => Step::LaunchServer,
            Phase::Serving => Step::AwaitServer,
            Phase::Stopped => Step::Exit,
            Phase::Exited => Step::Halt,
            Phase::Aborted => Step::Halt,
        }
    }

    /// Takes the outcome of the pending step and moves to the next phase.
    pub fn report(&mut self, outcome: Outcome)
        ensures
            final(self).spec_phase() == spec_advance(old(self).spec_phase(), outcome),
    {
        let next = match self.phase {
            Phase::Exited => Phase::Exited,
            Phase::Aborted => Phase::Aborted,
            current => match outcome {
                Outcome::Failed => Phase::Aborted,
                Outcome::Done => match current {
                    Phase::Created => Phase::RuntimeReady,
                    Phase::RuntimeReady => Phase::LoggingReady,
                    Phase::LoggingReady => Phase::EngineReady,
                    Phase::EngineReady => Phase::Serving,
                    Phase::Serving => Phase::Stopped,
                    _ => Phase::Exited,
                },
            },
        };
        self.phase = next;
    }
}

/// Once the process has exited or aborted, no report changes its phase.
pub proof fn lemma_final_phases_are_terminal(phase: Phase, outcomes: Seq<Outcome>)
    requires
        phase == Phase::Exited || phase == Phase::Aborted,
    ensures
        spec_run(phase, outcomes) == phase,
    decreases outcomes.len(),
{
    if outcomes.len() > 0 {
        lemma_final_phases_are_terminal(phase, outcomes.drop_first());
    }
}

/// The engine is open before the server starts: in every run from the start
/// that reaches the launch of the server, the third step was the opening of
/// the engine and it succeeded.
pub proof fn lemma_engine_opens_before_server(outcomes: Seq<Outcome>)
    requires
        spec_server_reached(spec_run(Phase::Created, outcomes)),
    ensures
        outcomes.len() >= 3,
        spec_pending(spec_run(Phase::Created, outcomes.take(2))) == Step::OpenEngine,
        outcomes[2] == Outcome::Done,
{
    assert(outcomes.len() >= 1);
    let rest1 = outcomes.drop_first();
    if outcomes[0] == Outcome::Failed {
        lemma_final_phases_are_terminal(Phase::Aborted, rest1);
    }
    assert(spec_run(Phase::Created, outcomes) == spec_run(Phase::RuntimeReady, rest1));
    assert(rest1.len() >= 1);
    let rest2 = rest1.drop_first();
    if rest1[0] == Outcome::Failed {
        lemma_final_phases_are_terminal(Phase::Aborted, rest2);
    }
    assert(spec_run(Phase::RuntimeReady, rest1) == spec_run(Phase::LoggingReady, rest2));
    assert(rest2.len() >= 1);
    if rest2[0] == Outcome::Failed {
        lemma_final_phases_are_terminal(Phase::Aborted, rest2.drop_first());
    }
    assert(outcomes[1] == rest1[0]);
    assert(outcomes[2] == rest2[0]);

    let first_two = outcomes.take(2);
    let second = first_two.drop_first();
    assert(first_two[0] == outcomes[0]);
    assert(second[0] == outcomes[1]);
    assert(second.drop_first().len() == 0);
    assert(spec_run(Phase::LoggingReady, second.drop_first()) == Phase::LoggingReady);
    assert(spec_run(Phase::RuntimeReady, second) == Phase::LoggingReady);
    assert(spec_run(Phase::Created, first_two) == Phase::LoggingReady);
}

} // verus!
