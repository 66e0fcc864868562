//! The lifecycle of a simulation run: `Idle -> Running -> Idle`.
//!
//! The scheduler decides; its caller acts. A caller that is told `Started`
//! raises the run flag and spawns the integration loop, one that is told
//! `Stopped` lowers the flag and joins the loop. Every other answer asks for
//! nothing, so at most one loop is ever alive.

use vstd::prelude::*;

use crate::body::{ConfigError, Configuration, RigidBodyState};

verus! {

/// Whether an integration loop is alive.
#[derive(Clone, Copy, Debug, PartialEq, Eq, Structural)]
pub enum RunState {
    Idle,
    Running,
}

/// Why a run ended without being asked to.
#[derive(Clone, Copy, Debug, PartialEq, Eq, Structural)]
pub enum RunFailure {
    /// The integrator produced a value that is not a finite number.
    NumericalDegeneracy,
    /// A lock on the shared state was poisoned.
    PoisonedLock,
}

/// How a run ended.
#[derive(Clone, Copy, Debug, PartialEq, Eq, Structural)]
pub enum RunEnd {
    /// The run flag was lowered.
    Stopped,
    Failed(RunFailure),
}

/// The answer to a request to start.
#[derive(Clone, Copy, Debug, PartialEq, Eq, Structural)]
pub enum StartOutcome {
    /// A run begins: the caller spawns the loop.
    Started,
    /// A run is active already; nothing is to be done.
    AlreadyRunning,
    /// The configuration is invalid; no run begins.
    Rejected(ConfigError),
}

/// The answer to a request to stop.
#[derive(Clone, Copy, Debug, PartialEq, Eq, Structural)]
pub enum StopOutcome {
    /// The run ends: the caller lowers the flag and joins the loop.
    Stopped,
    /// No run is active; nothing is to be done.
    NotRunning,
}

/// What one pass of the integration loop met.
#[derive(Clone, Copy, Debug)]
pub struct StepReport {
    /// The state that the integrator arrived at.
    pub state: RigidBodyState,
    /// No lock was found poisoned.
    pub locks_sound: bool,
    /// The run flag as read at the end of the pass.
    pub run_flag: bool,
}

impl StepReport {
    /// How the run ends after this pass, or `None` where it goes on. A
    /// degenerate state counts before a poisoned lock, and either before a
    /// lowered flag.
    pub open spec fn verdict(self) -> Option<RunEnd> {
        if !self.state.finite() {
            Some(RunEnd::Failed(RunFailure::NumericalDegeneracy))
        } else if !self.locks_sound {
            Some(RunEnd::Failed(RunFailure::PoisonedLock))
        } else if !self.run_flag {
            Some(RunEnd::Stopped)
        } else {
            None
        }
    }

    /// Decides at the end of a pass whether the loop goes on.
    pub fn conclude(&self) -> (end: Option<RunEnd>)
        ensures
            end == self.verdict(),
    {
        if !self.state.is_finite() {
            Some(RunEnd::Failed(RunFailure::NumericalDegeneracy))
        } else if !self.locks_sound {
            Some(RunEnd::Failed(RunFailure::PoisonedLock))
        } else if !self.run_flag {
            Some(RunEnd::Stopped)
        } else {
            None
        }
    }
}

impl RunState {
    /// The number of integration loops alive in this state.
    pub open spec fn active_loops(self) -> nat {
        match self {
            RunState::Idle => 0,
            RunState::Running => 1,
        }
    }

    /// The answer to a request to start for the body `body`.
    pub open spec fn start_outcome(self, body: Configuration) -> StartOutcome {
        match self {
            RunState::Running => StartOutcome::AlreadyRunning,
            RunState::Idle => match body.fault() {
                Some(error) => StartOutcome::Rejected(error),
                None => StartOutcome::Started,
            },
        }
    }

    /// The state after a request to start.
    pub open spec fn after_start(self, body: Configuration) -> RunState {
        match self.start_outcome(body) {
            StartOutcome::Rejected(_) => RunState::Idle,
            _ => RunState::Running,
        }
    }

    /// The answer to a request to stop.
    pub open spec fn stop_outcome(self) -> StopOutcome {
        match self {
            RunState::Running => StopOutcome::Stopped,
            RunState::Idle => StopOutcome::NotRunning,
        }
    }

    /// The state after a request to stop.
    pub open spec fn after_stop(self) -> RunState {
        RunState::Idle
    }
}

/// The control surface of the simulation: it knows whether a run is active
/// and how the last one failed, if it did.
#[derive(Clone, Copy, Debug)]
pub struct Scheduler {
    state: RunState,
    failure: Option<RunFailure>,
}

impl Scheduler {
    pub closed spec fn spec_state(&self) -> RunState {
        self.state
    }

    pub closed spec fn spec_last_failure(&self) -> Option<RunFailure> {
        self.failure
    }

    /// An idle scheduler with no failure on record.
    pub fn new() -> (scheduler: Scheduler)
        ensures
            scheduler.state() == RunState::Idle,
            scheduler.last_failure() == None::<RunFailure>,
    {
        Scheduler { state: RunState::Idle, failure: None }
    }

    #[verifier::when_used_as_spec(spec_state)]
    pub fn state(&self) -> (state: RunState)
        ensures
            state == self.spec_state(),
    {
        self.state
    }

    /// The failure that ended the last run, if one did.
    #[verifier::when_used_as_spec(spec_last_failure)]
    pub fn last_failure(&self) -> (failure: Option<RunFailure>)
        ensures
            failure == self.spec_last_failure(),
    {
        self.failure
    }

    pub fn is_running(&self) -> (running: bool)
        ensures
            running == (self.state() == RunState::Running),
    {
        match self.state {
            RunState::Running => true,
            RunState::Idle => false,
        }
    }

    /// Asks for a run. While one is active this changes nothing. From idle, a
    /// sound configuration starts a run and clears the failure on record; a
    /// faulty one is rejected and the scheduler stays as it was.
    pub fn start(&mut self, body: Configuration) -> (outcome: StartOutcome)
        ensures
            outcome == old(self).state().start_outcome(body),
            final(self).state() == old(self).state().after_start(body),
            final(self).last_failure() == if outcome == StartOutcome::Started {
                None::<RunFailure>
            } else {
                old(self).last_failure()
            },
    {
        match self.state {
            RunState::Running => StartOutcome::AlreadyRunning,
            RunState::Idle => match body.validate() {
                Err(error) => StartOutcome::Rejected(error),
                Ok(()) => {
                    self.state = RunState::Running;
                    self.failure = None;
                    StartOutcome::Started
                },
            },
        }
    }

    /// Asks for the run to end. While idle this changes nothing.
    pub fn stop(&mut self) -> (outcome: StopOutcome)
        ensures
            outcome == old(self).state().stop_outcome(),
            final(self).state() == old(self).state().after_stop(),
            final(self).last_failure() == old(self).last_failure(),
    {
        match self.state {
            RunState::Running => {
                self.state = RunState::Idle;
                StopOutcome::Stopped
            },
            RunState::Idle => StopOutcome::NotRunning,
        }
    }

    /// Records that the loop has ended as `end` says: the scheduler is idle
    /// afterwards, and a failure is kept for `last_failure`.
    pub fn finish(&mut self, end: RunEnd)
        ensures
            final(self).state() == RunState::Idle,
            final(self).last_failure() == match end {
                RunEnd::Failed(failure) => Some(failure),
                RunEnd::Stopped => old(self).last_failure(),
            },
    {
        self.state = RunState::Idle;
        match end {
            RunEnd::Failed(failure) => {
                self.failure = Some(failure);
            },
            RunEnd::Stopped => {},
        }
    }
}

/// A second start right after a start that took effect does nothing: one
/// loop is alive after the first and after the second.
pub proof fn lemma_start_twice(state: RunState, first: Configuration, second: Configuration)
    requires
        first.fault() is None,
    ensures
        state.after_start(first) == RunState::Running,
        state.after_start(first).start_outcome(second) == StartOutcome::AlreadyRunning,
        state.after_start(first).after_start(second) == state.after_start(first),
        state.after_start(first).after_start(second).active_loops() == 1,
{
}

/// No request to start, whatever it finds, brings more than one loop to life.
pub proof fn lemma_at_most_one_loop(state: RunState, body: Configuration)
    ensures
        state.active_loops() <= 1,
        state.after_start(body).active_loops() <= 1,
        state.start_outcome(body) == StartOutcome::Started ==> state.active_loops() == 0,
{
}

/// A second stop right after a stop does nothing: no loop is alive after
/// the first, and the second asks for no join.
pub proof fn lemma_stop_twice(state: RunState)
    ensures
        state.after_stop().active_loops() == 0,
        state.after_stop().stop_outcome() == StopOutcome::NotRunning,
        state.after_stop().after_stop() == state.after_stop(),
{
}

/// Only a running scheduler asks its caller to join, so a join is asked for
/// once for each loop that was spawned.
pub proof fn lemma_join_only_when_running(state: RunState)
    ensures
        state.stop_outcome() == StopOutcome::Stopped <==> state.active_loops() == 1,
{
}

} // verus!
