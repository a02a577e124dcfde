//! The shutdown coordinator: several signal sources, one shutdown.
//!
//! The coordinator starts armed. The first signal that arrives from a source
//! the platform can wait on triggers it; from then on it is terminal and
//! every further signal leaves it as it is. The caller installs the waiters,
//! hands each arrival to [`ShutdownCoordinator::observe`] and acts on the
//! answer.

use vstd::prelude::*;

verus! {

/// The physical source of a termination signal.
#[derive(Clone, Copy, Debug, PartialEq, Eq, Structural)]
pub enum SignalSource {
    /// An interactive interrupt from the controlling terminal.
    Interrupt,
    /// A termination request.
    Terminate,
    /// A quit request.
    Quit,
}

/// The two states of the coordinator. `Triggered` remembers which source won.
#[derive(Clone, Copy, Debug, PartialEq, Eq, Structural)]
pub enum CoordinatorState {
    Armed,
    Triggered(SignalSource),
}

/// What the caller does after handing a signal to the coordinator.
#[derive(Clone, Copy, Debug, PartialEq, Eq, Structural)]
pub enum ShutdownAction {
    /// Nothing changes: keep waiting, or keep draining.
    KeepWaiting,
    /// Log that shutdown has begun and tell the server to stop accepting.
    BeginShutdown,
}

/// Whether a waiter for `source` exists on a platform.
///
/// The interactive interrupt is available everywhere; the other two exist only
/// where the platform distinguishes signal kinds.
pub open spec fn spec_source_supported(distinct_kinds: bool, source: SignalSource) -> bool {
    source == SignalSource::Interrupt || distinct_kinds
}

/// The sources that an armed coordinator waits on, in the order in which the
/// waiters are listed in the race.
pub open spec fn spec_waiters(distinct_kinds: bool) -> Seq<SignalSource> {
    if distinct_kinds {
        seq![SignalSource::Interrupt, SignalSource::Terminate, SignalSource::Quit]
    } else {
        seq![SignalSource::Interrupt]
    }
}

/// One transition: the state after `source` arrived, and the action owed.
pub open spec fn spec_observe(
    distinct_kinds: bool,
    state: CoordinatorState,
    source: SignalSource,
) -> (CoordinatorState, ShutdownAction) {
    if state == CoordinatorState::Armed && spec_source_supported(distinct_kinds, source) {
        (CoordinatorState::Triggered(source), ShutdownAction::BeginShutdown)
    } else {
        (state, ShutdownAction::KeepWaiting)
    }
}

/// The state after a whole sequence of arrivals, oldest first.
pub open spec fn spec_run(
    distinct_kinds: bool,
    state: CoordinatorState,
    signals: Seq<SignalSource>,
) -> CoordinatorState
    decreases signals.len(),
{
    if signals.len() == 0 {
        state
    } else {
        spec_run(
            distinct_kinds,
            spec_observe(distinct_kinds, state, signals[0]).0,
            signals.drop_first(),
        )
    }
}

/// How many times a sequence of arrivals makes the coordinator answer
/// `BeginShutdown`.
pub open spec fn spec_resolutions(
    distinct_kinds: bool,
    state: CoordinatorState,
    signals: Seq<SignalSource>,
) -> nat
    decreases signals.len(),
{
    if signals.len() == 0 {
        0
    } else {
        let step = spec_observe(distinct_kinds, state, signals[0]);
        let rest = spec_resolutions(distinct_kinds, step.0, signals.drop_first());
        if step.1 == ShutdownAction::BeginShutdown {
            1 + rest
        } else {
            rest
        }
    }
}

/// The first signal of a sequence that comes from a supported source.
pub open spec fn spec_first_supported(
    distinct_kinds: bool,
    signals: Seq<SignalSource>,
) -> Option<SignalSource>
    decreases signals.len(),
{
    if signals.len() == 0 {
        None
    } else if spec_source_supported(distinct_kinds, signals[0]) {
        Some(signals[0])
    } else {
        spec_first_supported(distinct_kinds, signals.drop_first())
    }
}

/// The message with which the process gives up when the waiter for `source`
/// cannot be installed.
pub open spec fn spec_install_failure_message(source: SignalSource) -> Seq<char> {
    match source {
        SignalSource::Interrupt => "failed to install Ctrl+C handler"@,
        SignalSource::Terminate => "failed to install SIGTERM signal handler"@,
        SignalSource::Quit => "failed to install SIGQUIT signal handler"@,
    }
}

/// Decides whether a waiter for `source` is installed on this platform.
pub fn source_supported(distinct_kinds: bool, source: SignalSource) -> (r: bool)
    ensures
        r == spec_source_supported(distinct_kinds, source),
{
    match source {
        SignalSource::Interrupt => true,
        SignalSource::Terminate => distinct_kinds,
        SignalSource::Quit => distinct_kinds,
    }
}

/// The message for a waiter that could not be installed. Such a failure is
/// fatal: the process depends on being terminable cleanly.
pub fn install_failure_message(source: SignalSource) -> (r: &'static str)
    ensures
        r@ == spec_install_failure_message(source),
{
    match source {
        SignalSource::Interrupt => "failed to install Ctrl+C handler",
        SignalSource::Terminate => "failed to install SIGTERM signal handler",
        SignalSource::Quit => "failed to install SIGQUIT signal handler",
    }
}

/// The line logged on the transition from armed to triggered.
pub fn shutdown_notice() -> (r: &'static str)
    ensures
        r@ == "signal received, starting graceful shutdown"@,
{
    "signal received, starting graceful shutdown"
}

/// Races the termination signal sources and resolves once.
pub struct ShutdownCoordinator {
    distinct_kinds: bool,
    state: CoordinatorState,
}

impl ShutdownCoordinator {
    /// Whether the platform tells termination and quit requests apart.
    pub closed spec fn distinct_kinds(&self) -> bool {
        self.distinct_kinds
    }

    /// The current state.
    pub closed spec fn state(&self) -> CoordinatorState {
        self.state
    }

    /// A triggered coordinator was triggered by a source it waits on.
    pub open spec fn wf(&self) -> bool {
        self.state() matches CoordinatorState::Triggered(origin) ==> spec_source_supported(
            self.distinct_kinds(),
            origin,
        )
    }

    /// An armed coordinator for a platform with or without distinct signal
    /// kinds.
    pub fn new(distinct_kinds: bool) -> (r: Self)
        ensures
            r.distinct_kinds() == distinct_kinds,
            r.state() == CoordinatorState::Armed,
            r.wf(),
    {
        ShutdownCoordinator { distinct_kinds, state: CoordinatorState::Armed }
    }

    /// The sources to install waiters for.
    pub fn waiters(&self) -> (r: Vec<SignalSource>)
        ensures
            r@ == spec_waiters(self.distinct_kinds()),
            forall|s: SignalSource|
                r@.contains(s) <==> spec_source_supported(self.distinct_kinds(), s),
    {
        let mut sources: Vec<SignalSource> = Vec::new();
        sources.push(SignalSource::Interrupt);
        if self.distinct_kinds {
            sources.push(SignalSource::Terminate);
            sources.push(SignalSource::Quit);
        }
        proof {
            assert(sources@ =~= spec_waiters(self.distinct_kinds));
            assert(sources@[0] == SignalSource::Interrupt);
            if self.distinct_kinds {
                assert(sources@[1] == SignalSource::Terminate);
                assert(sources@[2] == SignalSource::Quit);
            }
        }
        sources
    }

    /// Hands one arrival to the coordinator.
    ///
    /// An armed coordinator is triggered by a signal from a supported source
    /// and answers `BeginShutdown`; in every other case nothing changes and
    /// the answer is `KeepWaiting`.
    pub fn observe(&mut self, source: SignalSource) -> (action: ShutdownAction)
        ensures
            final(self).distinct_kinds() == old(self).distinct_kinds(),
            final(self).state() == spec_observe(
                old(self).distinct_kinds(),
                old(self).state(),
                source,
            ).0,
            action == spec_observe(old(self).distinct_kinds(), old(self).state(), source).1,
            old(self).wf() ==> final(self).wf(),
    {
        match self.state {
            CoordinatorState::Armed => {
                if source_supported(self.distinct_kinds, source) {
                    self.state = CoordinatorState::Triggered(source);
                    ShutdownAction::BeginShutdown
                } else {
                    ShutdownAction::KeepWaiting
                }
            },
            CoordinatorState::Triggered(_) => ShutdownAction::KeepWaiting,
        }
    }

    /// Whether shutdown has begun.
    pub fn is_triggered(&self) -> (r: bool)
        ensures
            r == (self.state() is Triggered),
    {
        match self.state {
            CoordinatorState::Armed => false,
            CoordinatorState::Triggered(_) => true,
        }
    }

    /// The source that triggered the coordinator, if any has.
    pub fn origin(&self) -> (r: Option<SignalSource>)
        ensures
            r == match self.state() {
                CoordinatorState::Armed => None::<SignalSource>,
                CoordinatorState::Triggered(origin) => Some(origin),
            },
    {
        match self.state {
            CoordinatorState::Armed => None,
            CoordinatorState::Triggered(origin) => Some(origin),
        }
    }
}

/// A triggered coordinator is terminal: whatever arrives afterwards, it stays
/// triggered by the same source and never answers `BeginShutdown` again.
pub proof fn lemma_triggered_is_terminal(
    distinct_kinds: bool,
    origin: SignalSource,
    signals: Seq<SignalSource>,
)
    ensures
        spec_run(distinct_kinds, CoordinatorState::Triggered(origin), signals)
            == CoordinatorState::Triggered(origin),
        spec_resolutions(distinct_kinds, CoordinatorState::Triggered(origin), signals) == 0,
    decreases signals.len(),
{
    if signals.len() > 0 {
        lemma_triggered_is_terminal(distinct_kinds, origin, signals.drop_first());
    }
}

/// An armed coordinator resolves on the first signal from a supported source
/// and on no other: over any sequence of arrivals it answers `BeginShutdown`
/// exactly once if such a signal is among them, and never otherwise.
pub proof fn lemma_resolves_exactly_once(distinct_kinds: bool, signals: Seq<SignalSource>)
    ensures
        match spec_first_supported(distinct_kinds, signals) {
            Some(first) => {
                &&& spec_run(distinct_kinds, CoordinatorState::Armed, signals)
                    == CoordinatorState::Triggered(first)
                &&& spec_resolutions(distinct_kinds, CoordinatorState::Armed, signals) == 1
            },
            None => {
                &&& spec_run(distinct_kinds, CoordinatorState::Armed, signals)
                    == CoordinatorState::Armed
                &&& spec_resolutions(distinct_kinds, CoordinatorState::Armed, signals) == 0
            },
        },
    decreases signals.len(),
{
    if signals.len() > 0 {
        if spec_source_supported(distinct_kinds, signals[0]) {
            lemma_triggered_is_terminal(distinct_kinds, signals[0], signals.drop_first());
        } else {
            lemma_resolves_exactly_once(distinct_kinds, signals.drop_first());
        }
    }
}

/// Any one supported signal resolves the race, and what follows it is ignored.
pub proof fn lemma_first_signal_wins(
    distinct_kinds: bool,
    first: SignalSource,
    later: Seq<SignalSource>,
)
    requires
        spec_source_supported(distinct_kinds, first),
    ensures
        spec_run(distinct_kinds, CoordinatorState::Armed, seq![first] + later)
            == CoordinatorState::Triggered(first),
        spec_resolutions(distinct_kinds, CoordinatorState::Armed, seq![first] + later) == 1,
{
    let signals = seq![first] + later;
    assert(signals[0] == first);
    assert(signals.drop_first() =~= later);
    lemma_triggered_is_terminal(distinct_kinds, first, later);
}

} // verus!
