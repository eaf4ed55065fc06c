//! The course of one run, from the moment the world is read to the last
//! step. The program that drives the run does the work that each action
//! names and reports back what came of it.

use vstd::prelude::*;
use crate::collider::ConstructionError;
use crate::world::StepError;

verus! {

/// Where a run stands.
#[derive(Clone, Copy, Debug, PartialEq, Eq, Structural, Hash)]
pub enum RunState {
    /// No world has been read yet.
    Uninitialized,
    /// `taken` of `steps` steps have been kept, and some are still to come.
    Stepping { taken: u32, steps: u32 },
    /// Every step has been kept.
    Done,
    /// The world that was read cannot be simulated; no step was taken.
    Rejected { cause: ConstructionError },
    /// The step numbered `step`, counted from zero, was not kept; the run
    /// ended there.
    Failed { step: u32, error: StepError },
}

/// What happened since the last action.
#[derive(Clone, Copy, Debug, PartialEq, Eq, Structural, Hash)]
pub enum RunEvent {
    /// A world was read that can be simulated and asks for as many steps.
    Loaded { steps: u32 },
    /// A world was read that cannot be simulated.
    Invalid(ConstructionError),
    /// A step was solved and the world kept it.
    Kept,
    /// A step was solved and the world did not keep it.
    Refused(StepError),
}

impl RunEvent {
    /// The event that reading a world makes: the world asks for `steps`
    /// steps, and `checked` is what its validation gave.
    pub open spec fn spec_read(steps: u32, checked: Result<(), ConstructionError>) -> RunEvent {
        match checked {
            Ok(()) => RunEvent::Loaded { steps },
            Err(error) => RunEvent::Invalid(error),
        }
    }

    #[verifier::when_used_as_spec(spec_read)]
    pub fn read(steps: u32, checked: Result<(), ConstructionError>) -> (r: RunEvent)
        ensures
            r == RunEvent::spec_read(steps, checked),
    {
        match checked {
            Ok(()) => RunEvent::Loaded { steps },
            Err(error) => RunEvent::Invalid(error),
        }
    }

    /// The event that the outcome of a step makes.
    pub open spec fn spec_stepped(outcome: Result<(), StepError>) -> RunEvent {
        match outcome {
            Ok(()) => RunEvent::Kept,
            Err(error) => RunEvent::Refused(error),
        }
    }

    #[verifier::when_used_as_spec(spec_stepped)]
    pub fn stepped(outcome: Result<(), StepError>) -> (r: RunEvent)
        ensures
            r == RunEvent::spec_stepped(outcome),
    {
        match outcome {
            Ok(()) => RunEvent::Kept,
            Err(error) => RunEvent::Refused(error),
        }
    }
}

/// What the driving program is to do next.
#[derive(Clone, Copy, Debug, PartialEq, Eq, Structural, Hash)]
pub enum RunAction {
    /// Read the world.
    Load,
    /// Solve the next step, hand it to the world and keep its snapshot.
    Step,
    /// Close the history: the run is complete.
    Finish,
    /// Give up the run and report the failure.
    Abort,
}

impl RunState {
    /// A run that is stepping has steps left.
    pub open spec fn wf(self) -> bool {
        self matches RunState::Stepping { taken, steps } ==> taken < steps
    }

    /// What is to be done in this state.
    pub open spec fn spec_action(self) -> RunAction {
        match self {
            RunState::Uninitialized => RunAction::Load,
            RunState::Stepping { .. } => RunAction::Step,
            RunState::Done => RunAction::Finish,
            RunState::Rejected { .. } => RunAction::Abort,
            RunState::Failed { .. } => RunAction::Abort,
        }
    }

    /// The state that follows this one on the given event. A world that
    /// cannot be simulated ends the run before its first step. An event that
    /// cannot happen in a state leaves it as it is; a finished, rejected or
    /// failed run stays so.
    pub open spec fn spec_next(self, event: RunEvent) -> RunState {
        match (self, event) {
            (RunState::Uninitialized, RunEvent::Invalid(error)) => RunState::Rejected { cause: error },
            (RunState::Uninitialized, RunEvent::Loaded { steps }) => if steps == 0 {
                RunState::Done
            } else {
                RunState::Stepping { taken: 0, steps }
            },
            (RunState::Stepping { taken, steps }, RunEvent::Kept) => if taken + 1
                >= steps {
                RunState::Done
            } else {
                RunState::Stepping { taken: (taken + 1) as u32, steps }
            },
            (RunState::Stepping { taken, steps }, RunEvent::Refused(error)) => {
                RunState::Failed { step: taken, error }
            },
            _ => self,
        }
    }

    #[verifier::when_used_as_spec(spec_action)]
    pub fn action(self) -> (r: RunAction)
        ensures
            r == self.spec_action(),
    {
        match self {
            RunState::Uninitialized => RunAction::Load,
            RunState::Stepping { .. } => RunAction::Step,
            RunState::Done => RunAction::Finish,
            RunState::Rejected { .. } => RunAction::Abort,
            RunState::Failed { .. } => RunAction::Abort,
        }
    }

    /// Takes the run one event further, and says what is to be done next.
    pub fn next(self, event: RunEvent) -> (r: (RunState, RunAction))
        ensures
            r.0 == self.spec_next(event),
            r.1 == r.0.spec_action(),
            self.wf() ==> r.0.wf(),
    {
        let state = match (self, event) {
            (RunState::Uninitialized, RunEvent::Invalid(error)) => RunState::Rejected { cause: error },
            (RunState::Uninitialized, RunEvent::Loaded { steps }) => {
                if steps == 0 {
                    RunState::Done
                } else {
                    RunState::Stepping { taken: 0, steps }
                }
            },
            (RunState::Stepping { taken, steps }, RunEvent::Kept) => {
                if taken >= steps || steps - taken <= 1 {
                    RunState::Done
                } else {
                    RunState::Stepping { taken: taken + 1, steps }
                }
            },
            (RunState::Stepping { taken, steps: _ }, RunEvent::Refused(error)) => {
                RunState::Failed { step: taken, error }
            },
            _ => self,
        };
        (state, state.action())
    }
}

/// The state of a run that asked for `steps` steps and has kept `kept` of
/// them without a failure.
pub open spec fn after_kept(steps: u32, kept: nat) -> RunState
    decreases kept,
{
    if kept == 0 {
        RunState::Uninitialized.spec_next(RunEvent::Loaded { steps })
    } else {
        after_kept(steps, (kept - 1) as nat).spec_next(RunEvent::Kept)
    }
}

/// A run that does not fail takes exactly the steps it was asked for: it is
/// stepping as long as fewer are kept, and done from then on.
pub proof fn lemma_run_takes_its_steps(steps: u32, kept: nat)
    ensures
        after_kept(steps, kept) == if kept < steps {
            RunState::Stepping { taken: kept as u32, steps }
        } else {
            RunState::Done
        },
    decreases kept,
{
    if kept > 0 {
        lemma_run_takes_its_steps(steps, (kept - 1) as nat);
    }
}

/// A run that is done, was rejected or has failed stays as it is, whatever
/// is reported, and asks for no further step.
pub proof fn lemma_run_ends_once(state: RunState, event: RunEvent)
    requires
        state is Done || state is Rejected || state is Failed,
    ensures
        state.spec_next(event) == state,
        state.spec_action() != RunAction::Step,
{
}

/// A world that fails its validation is never stepped: the run goes from
/// reading it to being rejected, with the error of the validation, and is
/// given up.
pub proof fn lemma_invalid_world_is_not_stepped(steps: u32, error: ConstructionError)
    ensures
        RunState::Uninitialized.spec_next(RunEvent::spec_read(steps, Err(error))) == (
        RunState::Rejected { cause: error }),
        (RunState::Rejected { cause: error }).spec_action() == RunAction::Abort,
{
}

/// A step that was not kept ends the run at that step, with its error.
pub proof fn lemma_failure_ends_the_run(taken: u32, steps: u32, error: StepError)
    ensures
        (RunState::Stepping { taken, steps }).spec_next(RunEvent::Refused(error)) == (
        RunState::Failed { step: taken, error }),
        (RunState::Failed { step: taken, error }).spec_action() == RunAction::Abort,
{
}

} // verus!
