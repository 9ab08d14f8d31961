//! Shutting the output unit down when a driver goes away: stop the unit,
//! then dispose of its instance. A failing call is fatal and reported with
//! its status code; nothing further is attempted after it.

use vstd::prelude::*;

verus! {

/// The calls that shut the output unit down, in the order they are made.
#[derive(Clone, Copy, Debug, PartialEq, Eq)]
pub enum TeardownStep {
    /// Stop the output unit.
    StopOutput,
    /// Dispose of the component instance.
    DisposeInstance,
}

/// Where shutdown stands after a call.
#[derive(Clone, Copy, Debug, PartialEq, Eq)]
pub enum TeardownProgress {
    /// Make this call next.
    Continue(TeardownStep),
    /// Both calls succeeded.
    Complete,
    /// This call returned the nonzero status `code`; shutdown aborts here.
    Failed(TeardownStep, i32),
}

/// The first call of shutdown.
pub fn first_teardown_step() -> (s: TeardownStep)
    ensures
        s == TeardownStep::StopOutput,
{
    TeardownStep::StopOutput
}

/// The transition of shutdown after `step` returned `status`.
pub open spec fn teardown_transition(step: TeardownStep, status: i32) -> TeardownProgress {
    if status != 0 {
        TeardownProgress::Failed(step, status)
    } else {
        match step {
            TeardownStep::StopOutput => TeardownProgress::Continue(TeardownStep::DisposeInstance),
            TeardownStep::DisposeInstance => TeardownProgress::Complete,
        }
    }
}

/// Where shutdown stands when it is at `step` and the calls from there on
/// return `statuses`, one after the other, until it completes or fails.
pub open spec fn run_teardown(step: TeardownStep, statuses: Seq<i32>) -> TeardownProgress
    decreases statuses.len(),
{
    if statuses.len() == 0 {
        TeardownProgress::Continue(step)
    } else {
        match teardown_transition(step, statuses[0]) {
            TeardownProgress::Continue(n) => run_teardown(n, statuses.drop_first()),
            other => other,
        }
    }
}

/// Decides what follows a call of shutdown from the status it returned.
pub fn advance_teardown(step: TeardownStep, status: i32) -> (p: TeardownProgress)
    ensures
        p == teardown_transition(step, status),
{
    if status != 0 {
        return TeardownProgress::Failed(step, status);
    }
    match step {
        TeardownStep::StopOutput => TeardownProgress::Continue(TeardownStep::DisposeInstance),
        TeardownStep::DisposeInstance => TeardownProgress::Complete,
    }
}

/// Shutdown completes exactly when the unit stops and its instance is
/// disposed of without error; a failing stop is reported with its code and
/// the instance is then never disposed of; a failing disposal is reported
/// with its code.
pub proof fn lemma_teardown_outcome(stop: i32, dispose: i32, later: Seq<i32>)
    ensures
        ({
            let statuses = seq![stop, dispose] + later;
            run_teardown(TeardownStep::StopOutput, statuses) == if stop != 0 {
                TeardownProgress::Failed(TeardownStep::StopOutput, stop)
            } else if dispose != 0 {
                TeardownProgress::Failed(TeardownStep::DisposeInstance, dispose)
            } else {
                TeardownProgress::Complete
            }
        }),
{
    reveal_with_fuel(run_teardown, 3);
    let statuses = seq![stop, dispose] + later;
    assert(statuses[0] == stop);
    assert(statuses.drop_first()[0] == dispose);
    assert(statuses.drop_first().len() >= 1);
}

} // verus!
