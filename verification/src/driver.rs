//! The first driver for Apple's default output unit: it brings the unit up
//! and renders into the callback it was given; it keeps no settings.

use vstd::prelude::*;
use crate::coreaudio_audio_driver::{CoreaudioAudioDriver, CoreaudioAudioDriverError};
use crate::setup::{advance_setup, run_setup, setup_transition, SetupNext, SetupProgress, SetupStep, StepOutcome};

verus! {

/// Why bringing the output unit up failed: one variant for each call.
#[derive(Clone, Copy, Debug, PartialEq, Eq)]
pub enum DriverError {
    AudioComponentNotFound,
    AudioComponentInstanceCreationFailed,
    AudioComponentInstanceInitializationFailed,
    AudioUnitSetPropertyFailed,
    AudioUnitSetRenderCallbackFailed,
    AudioOutputUnitStartFailed,
}

impl DriverError {
    /// The error reported when `step` fails.
    pub open spec fn of_step(step: SetupStep) -> DriverError {
        match step {
            SetupStep::FindComponent => DriverError::AudioComponentNotFound,
            SetupStep::CreateInstance => DriverError::AudioComponentInstanceCreationFailed,
            SetupStep::Initialize => DriverError::AudioComponentInstanceInitializationFailed,
            SetupStep::SetStreamFormat => DriverError::AudioUnitSetPropertyFailed,
            SetupStep::SetRenderCallback => DriverError::AudioUnitSetRenderCallbackFailed,
            SetupStep::StartOutput => DriverError::AudioOutputUnitStartFailed,
        }
    }

    /// The call whose failure this error reports.
    pub open spec fn step(self) -> SetupStep {
        match self {
            DriverError::AudioComponentNotFound => SetupStep::FindComponent,
            DriverError::AudioComponentInstanceCreationFailed => SetupStep::CreateInstance,
            DriverError::AudioComponentInstanceInitializationFailed => SetupStep::Initialize,
            DriverError::AudioUnitSetPropertyFailed => SetupStep::SetStreamFormat,
            DriverError::AudioUnitSetRenderCallbackFailed => SetupStep::SetRenderCallback,
            DriverError::AudioOutputUnitStartFailed => SetupStep::StartOutput,
        }
    }

    /// The error reported when `step` fails; distinct calls give distinct errors.
    pub fn for_step(step: SetupStep) -> (e: DriverError)
        ensures
            e == Self::of_step(step),
            e.step() == step,
    {
        match step {
            SetupStep::FindComponent => DriverError::AudioComponentNotFound,
            SetupStep::CreateInstance => DriverError::AudioComponentInstanceCreationFailed,
            SetupStep::Initialize => DriverError::AudioComponentInstanceInitializationFailed,
            SetupStep::SetStreamFormat => DriverError::AudioUnitSetPropertyFailed,
            SetupStep::SetRenderCallback => DriverError::AudioUnitSetRenderCallbackFailed,
            SetupStep::StartOutput => DriverError::AudioOutputUnitStartFailed,
        }
    }
}

impl DriverError {
    /// Whether `other` is the variant of the same name.
    pub open spec fn same_name(self, other: CoreaudioAudioDriverError) -> bool {
        match (self, other) {
            (DriverError::AudioComponentNotFound, CoreaudioAudioDriverError::AudioComponentNotFound) => true,
            (
                DriverError::AudioComponentInstanceCreationFailed,
                CoreaudioAudioDriverError::AudioComponentInstanceCreationFailed,
            ) => true,
            (
                DriverError::AudioComponentInstanceInitializationFailed,
                CoreaudioAudioDriverError::AudioComponentInstanceInitializationFailed,
            ) => true,
            (DriverError::AudioUnitSetPropertyFailed, CoreaudioAudioDriverError::AudioUnitSetPropertyFailed) => true,
            (
                DriverError::AudioUnitSetRenderCallbackFailed,
                CoreaudioAudioDriverError::AudioUnitSetRenderCallbackFailed,
            ) => true,
            (DriverError::AudioOutputUnitStartFailed, CoreaudioAudioDriverError::AudioOutputUnitStartFailed) => true,
            _ => false,
        }
    }
}

/// Both drivers bring the unit up alike: after the same call with the same
/// outcome, or after the same outcomes from the first call on, both ask for
/// the same next call, both are done, or both report the error of the same
/// name.
pub proof fn lemma_drivers_bring_up_alike(step: SetupStep, ok: bool, oks: Seq<bool>)
    ensures
        match (Driver::bring_up_step(step, ok), CoreaudioAudioDriver::bring_up_step(step, ok)) {
            (Ok(a), Ok(b)) => a == b,
            (Err(a), Err(b)) => a.same_name(b),
            _ => false,
        },
        match (Driver::bring_up_run(oks), CoreaudioAudioDriver::bring_up_run(oks)) {
            (Ok(a), Ok(b)) => a == b,
            (Err(a), Err(b)) => a.same_name(b),
            _ => false,
        },
{
}

/// A call that returns any nonzero status, or a lookup that finds no
/// component, ends bring-up with the error of that call; a call that
/// returns 0 never does.
pub proof fn lemma_failed_call_reports_its_error(step: SetupStep, status: i32, found: bool)
    ensures
        status != 0 ==> Driver::bring_up_step(step, StepOutcome::Status(status).is_success())
            == Err::<Option<SetupStep>, DriverError>(DriverError::of_step(step)),
        !found ==> Driver::bring_up_step(step, StepOutcome::Found(found).is_success())
            == Err::<Option<SetupStep>, DriverError>(DriverError::of_step(step)),
        Driver::bring_up_step(step, StepOutcome::Status(0).is_success()) is Ok,
{
}

/// Each call of bring-up has its own error, and each error names one call.
pub proof fn lemma_errors_name_steps(step: SetupStep, e: DriverError)
    ensures
        DriverError::of_step(step).step() == step,
        DriverError::of_step(e.step()) == e,
{
}

/// A running output driver. `advance_setup` hands one out when the last
/// call of bring-up succeeds; bring-up run from `SetupStep::first` reaches
/// that call only after every earlier call has succeeded
/// (`lemma_setup_completes`, `lemma_setup_stops_at_first_failure`).
pub struct Driver {
    started: (),
}

impl Driver {
    /// What bring-up gives after `step` has reported `ok`: the next call
    /// (`Ok(Some(..))`), the running driver (`Ok(None)`), or the error of the
    /// call that failed.
    pub open spec fn bring_up_step(step: SetupStep, ok: bool) -> Result<Option<SetupStep>, DriverError> {
        match setup_transition(step, ok) {
            SetupProgress::Continue(n) => Ok(Some(n)),
            SetupProgress::Complete => Ok(None),
            SetupProgress::Failed(s) => Err(DriverError::of_step(s)),
        }
    }

    /// Where bring-up stands after the calls from the first on have reported
    /// `oks`: the next call (`Ok(Some(..))`), done (`Ok(None)`), or the error
    /// of the call that failed.
    pub open spec fn bring_up_run(oks: Seq<bool>) -> Result<Option<SetupStep>, DriverError> {
        match run_setup(SetupStep::FindComponent, oks) {
            SetupProgress::Continue(n) => Ok(Some(n)),
            SetupProgress::Complete => Ok(None),
            SetupProgress::Failed(s) => Err(DriverError::of_step(s)),
        }
    }

    /// Decides what follows a call of bring-up from what the call reported:
    /// the next call, the running driver after the last call, or the error
    /// of the call that failed.
    pub fn advance_setup(step: SetupStep, outcome: &StepOutcome) -> (r: Result<
        SetupNext<Driver>,
        DriverError,
    >)
        ensures
            match Self::bring_up_step(step, outcome.is_success()) {
                Ok(Some(n)) => r matches Ok(SetupNext::Continue(m)) && m == n,
                Ok(None) => r matches Ok(SetupNext::Ready(d)),
                Err(e) => r == Err::<SetupNext<Driver>, _>(e),
            },
    {
        match advance_setup(step, outcome) {
            SetupProgress::Continue(n) => Ok(SetupNext::Continue(n)),
            SetupProgress::Complete => Ok(SetupNext::Ready(Driver { started: () })),
            SetupProgress::Failed(s) => Err(DriverError::for_step(s)),
        }
    }
}

} // verus!
