//! Bringing up the default output unit: a fixed sequence of system calls,
//! each of which may fail, run one at a time by the caller.

use vstd::prelude::*;

verus! {

/// The calls that bring up the default output unit, in the order they are made.
#[derive(Clone, Copy, Debug, PartialEq, Eq)]
pub enum SetupStep {
    /// Look up the default output component.
    FindComponent,
    /// Create an instance of the component.
    CreateInstance,
    /// Initialise the instance.
    Initialize,
    /// Set the input stream format of the unit.
    SetStreamFormat,
    /// Install the render callback.
    SetRenderCallback,
    /// Start the output unit.
    StartOutput,
}

/// How many calls bring-up makes when all of them succeed.
pub const SETUP_STEP_COUNT: usize = 6;

impl SetupStep {
    /// Position of the step in the bring-up sequence, counted from 0.
    pub open spec fn index(self) -> nat {
        match self {
            SetupStep::FindComponent => 0,
            SetupStep::CreateInstance => 1,
            SetupStep::Initialize => 2,
            SetupStep::SetStreamFormat => 3,
            SetupStep::SetRenderCallback => 4,
            SetupStep::StartOutput => 5,
        }
    }

    /// The step at position `i` of the sequence (the last one for `i >= 5`).
    pub open spec fn at(i: nat) -> SetupStep {
        if i == 0 {
            SetupStep::FindComponent
        } else if i == 1 {
            SetupStep::CreateInstance
        } else if i == 2 {
            SetupStep::Initialize
        } else if i == 3 {
            SetupStep::SetStreamFormat
        } else if i == 4 {
            SetupStep::SetRenderCallback
        } else {
            SetupStep::StartOutput
        }
    }

    /// The step that follows this one, if any.
    pub open spec fn successor(self) -> Option<SetupStep> {
        if self.index() + 1 < SETUP_STEP_COUNT {
            Some(SetupStep::at(self.index() + 1))
        } else {
            None
        }
    }

    /// The first call of bring-up.
    pub fn first() -> (s: SetupStep)
        ensures
            s == SetupStep::at(0),
            s.index() == 0,
    {
        SetupStep::FindComponent
    }

    /// The call made after this one has succeeded, or `None` after the last.
    pub fn next(&self) -> (n: Option<SetupStep>)
        ensures
            n == self.successor(),
    {
        match self {
            SetupStep::FindComponent => Some(SetupStep::CreateInstance),
            SetupStep::CreateInstance => Some(SetupStep::Initialize),
            SetupStep::Initialize => Some(SetupStep::SetStreamFormat),
            SetupStep::SetStreamFormat => Some(SetupStep::SetRenderCallback),
            SetupStep::SetRenderCallback => Some(SetupStep::StartOutput),
            SetupStep::StartOutput => None,
        }
    }
}

/// Property id of a unit's stream format (`kAudioUnitProperty_StreamFormat`).
pub const AUDIO_UNIT_PROPERTY_STREAM_FORMAT: u32 = 8;

/// Property id of a unit's render callback (`kAudioUnitProperty_SetRenderCallback`).
pub const AUDIO_UNIT_PROPERTY_SET_RENDER_CALLBACK: u32 = 23;

/// Scope of a unit's input (`kAudioUnitScope_Input`).
pub const AUDIO_UNIT_SCOPE_INPUT: u32 = 1;

/// Which property of the unit a call sets: its id, scope and element.
#[derive(Clone, Copy, Debug, PartialEq, Eq)]
pub struct PropertyAddress {
    pub property_id: u32,
    pub scope: u32,
    pub element: u32,
}

impl SetupStep {
    /// The property the call sets, for the two calls that set one: the
    /// stream format and the render callback, both on element 0 of the
    /// input scope.
    pub open spec fn property_spec(self) -> Option<PropertyAddress> {
        match self {
            SetupStep::SetStreamFormat => Some(
                PropertyAddress { property_id: 8, scope: 1, element: 0 },
            ),
            SetupStep::SetRenderCallback => Some(
                PropertyAddress { property_id: 23, scope: 1, element: 0 },
            ),
            _ => None,
        }
    }

    /// The property the call sets, if it sets one.
    pub fn property(&self) -> (p: Option<PropertyAddress>)
        ensures
            p == self.property_spec(),
    {
        match self {
            SetupStep::SetStreamFormat => Some(
                PropertyAddress {
                    property_id: AUDIO_UNIT_PROPERTY_STREAM_FORMAT,
                    scope: AUDIO_UNIT_SCOPE_INPUT,
                    element: 0,
                },
            ),
            SetupStep::SetRenderCallback => Some(
                PropertyAddress {
                    property_id: AUDIO_UNIT_PROPERTY_SET_RENDER_CALLBACK,
                    scope: AUDIO_UNIT_SCOPE_INPUT,
                    element: 0,
                },
            ),
            _ => None,
        }
    }
}

/// What one call of bring-up reported back.
#[derive(Clone, Copy, Debug, PartialEq, Eq)]
pub enum StepOutcome {
    /// The component lookup: whether a component was found.
    Found(bool),
    /// Any other call: the status code it returned, `0` meaning success.
    Status(i32),
}

impl StepOutcome {
    /// Whether the call succeeded: a component was found, or the status is `0`.
    pub open spec fn is_success(self) -> bool {
        match self {
            StepOutcome::Found(found) => found,
            StepOutcome::Status(status) => status == 0,
        }
    }

    /// Whether the call succeeded: a lookup succeeds when it found the
    /// component, any other call when it returned status 0 and no other.
    pub fn succeeded(&self) -> (ok: bool)
        ensures
            ok == self.is_success(),
            forall|status: i32| *self == StepOutcome::Status(status) ==> (ok <==> status == 0),
            forall|found: bool| *self == StepOutcome::Found(found) ==> ok == found,
    {
        match self {
            StepOutcome::Found(found) => *found,
            StepOutcome::Status(status) => *status == 0,
        }
    }
}

/// Where bring-up stands after a call.
#[derive(Clone, Copy, Debug, PartialEq, Eq)]
pub enum SetupProgress {
    /// Make this call next.
    Continue(SetupStep),
    /// Every call succeeded: the unit is running.
    Complete,
    /// This call failed; bring-up stops here and makes no further call.
    Failed(SetupStep),
}

/// What a driver's bring-up hands back after a successful call: the next
/// call to make, or the driver once every call has succeeded.
#[derive(Debug)]
pub enum SetupNext<D> {
    /// Make this call next.
    Continue(SetupStep),
    /// Bring-up is complete.
    Ready(D),
}

/// The transition of bring-up after `step` has been made and reported `ok`.
pub open spec fn setup_transition(step: SetupStep, ok: bool) -> SetupProgress {
    if !ok {
        SetupProgress::Failed(step)
    } else {
        match step.successor() {
            Some(n) => SetupProgress::Continue(n),
            None => SetupProgress::Complete,
        }
    }
}

/// Where bring-up stands when it is at `step` and the calls from there on
/// report `oks`, one after the other, until it completes or fails.
pub open spec fn run_setup(step: SetupStep, oks: Seq<bool>) -> SetupProgress
    decreases oks.len(),
{
    if oks.len() == 0 {
        SetupProgress::Continue(step)
    } else {
        match setup_transition(step, oks[0]) {
            SetupProgress::Continue(n) => run_setup(n, oks.drop_first()),
            other => other,
        }
    }
}

/// Decides what follows a call of bring-up from what the call reported.
pub fn advance_setup(step: SetupStep, outcome: &StepOutcome) -> (p: SetupProgress)
    ensures
        p == setup_transition(step, outcome.is_success()),
{
    if !outcome.succeeded() {
        return SetupProgress::Failed(step);
    }
    match step.next() {
        Some(n) => SetupProgress::Continue(n),
        None => SetupProgress::Complete,
    }
}

/// A call counts as succeeded exactly when it found the component or
/// returned status 0. Any nonzero status, and a lookup that found nothing,
/// is a failure: bring-up stops at that call and reports it.
pub proof fn lemma_failed_call_stops_setup(step: SetupStep, status: i32, found: bool)
    ensures
        StepOutcome::Status(status).is_success() <==> status == 0,
        StepOutcome::Found(found).is_success() <==> found,
        status != 0 ==> setup_transition(step, StepOutcome::Status(status).is_success())
            == SetupProgress::Failed(step),
        !found ==> setup_transition(step, StepOutcome::Found(found).is_success())
            == SetupProgress::Failed(step),
        setup_transition(step, StepOutcome::Status(0).is_success()) != SetupProgress::Failed(step),
{
}

proof fn lemma_at_index(i: nat)
    requires
        i < SETUP_STEP_COUNT,
    ensures
        SetupStep::at(i).index() == i,
{
}

/// Bring-up from position `j`, fed outcomes `oks`: it completes after the
/// remaining `6 - j` calls all succeed, fails at the first failing call, and
/// otherwise asks for the next call in order.
proof fn lemma_run_from(j: nat, oks: Seq<bool>)
    requires
        j < SETUP_STEP_COUNT,
    ensures
        (forall|i: int| 0 <= i < SETUP_STEP_COUNT - j && i < oks.len() ==> #[trigger] oks[i])
            ==> run_setup(SetupStep::at(j), oks) == (if oks.len() >= SETUP_STEP_COUNT - j {
                SetupProgress::Complete
            } else {
                SetupProgress::Continue(SetupStep::at(j + oks.len()))
            }),
        forall|k: int|
            0 <= k < SETUP_STEP_COUNT - j && k < oks.len() && !oks[k] && (forall|i: int|
                0 <= i < k ==> #[trigger] oks[i]) ==> run_setup(SetupStep::at(j), oks)
                == SetupProgress::Failed(SetupStep::at((j + k) as nat)),
    decreases oks.len(),
{
    lemma_at_index(j);
    if oks.len() > 0 {
        let rest = oks.drop_first();
        if oks[0] && j + 1 < SETUP_STEP_COUNT {
            lemma_run_from(j + 1, rest);
            assert forall|i: int| 0 <= i < SETUP_STEP_COUNT - (j + 1) && i < rest.len() implies #[trigger] rest[i] == oks[i + 1] by {}
            assert forall|k: int|
                0 <= k < SETUP_STEP_COUNT - j && k < oks.len() && !oks[k] && (forall|i: int|
                    0 <= i < k ==> #[trigger] oks[i]) implies run_setup(SetupStep::at(j), oks)
                == SetupProgress::Failed(SetupStep::at((j + k) as nat)) by {
                assert(k != 0);
                assert(!rest[k - 1]);
                assert forall|i: int| 0 <= i < k - 1 implies #[trigger] rest[i] by {
                    assert(oks[i + 1]);
                }
            }
            if forall|i: int| 0 <= i < SETUP_STEP_COUNT - j && i < oks.len() ==> #[trigger] oks[i] {
                assert forall|i: int| 0 <= i < SETUP_STEP_COUNT - (j + 1) && i < rest.len() implies #[trigger] rest[i] by {
                    assert(oks[i + 1]);
                }
            }
        }
    }
}

/// When every call succeeds, bring-up completes after exactly the six calls,
/// and nothing reported after them is consulted.
pub proof fn lemma_setup_completes(oks: Seq<bool>)
    requires
        oks.len() >= SETUP_STEP_COUNT,
        forall|i: int| 0 <= i < SETUP_STEP_COUNT ==> #[trigger] oks[i],
    ensures
        run_setup(SetupStep::FindComponent, oks) == SetupProgress::Complete,
{
    lemma_run_from(0, oks);
}

/// When call `k` is the first to fail, bring-up stops there, reports that
/// call, and makes no later call.
pub proof fn lemma_setup_stops_at_first_failure(oks: Seq<bool>, k: int)
    requires
        0 <= k < SETUP_STEP_COUNT,
        k < oks.len(),
        !oks[k],
        forall|i: int| 0 <= i < k ==> #[trigger] oks[i],
    ensures
        run_setup(SetupStep::FindComponent, oks) == SetupProgress::Failed(SetupStep::at(k as nat)),
{
    lemma_run_from(0, oks);
}

/// While every call so far has succeeded and fewer than six were made,
/// bring-up asks for the calls in their fixed order.
pub proof fn lemma_setup_asks_in_order(oks: Seq<bool>)
    requires
        oks.len() < SETUP_STEP_COUNT,
        forall|i: int| 0 <= i < oks.len() ==> #[trigger] oks[i],
    ensures
        run_setup(SetupStep::FindComponent, oks) == SetupProgress::Continue(SetupStep::at(oks.len())),
{
    lemma_run_from(0, oks);
}

} // verus!
