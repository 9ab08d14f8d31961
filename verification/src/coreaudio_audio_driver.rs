//! The driver that brings Apple's default output unit up itself and keeps
//! the sample rate it configured.

use vstd::prelude::*;
use crate::setup::{advance_setup, run_setup, setup_transition, SetupNext, SetupProgress, SetupStep, StepOutcome};
use crate::stream_format::{output_format, OUTPUT_SAMPLE_RATE};

verus! {

/// Why bringing the output unit up failed: one variant for each call.
#[derive(Clone, Copy, Debug, PartialEq, Eq)]
pub enum CoreaudioAudioDriverError {
    AudioComponentNotFound,
    AudioComponentInstanceCreationFailed,
    AudioComponentInstanceInitializationFailed,
    AudioUnitSetPropertyFailed,
    AudioUnitSetRenderCallbackFailed,
    AudioOutputUnitStartFailed,
}

impl CoreaudioAudioDriverError {
    /// The error reported when `step` fails.
    pub open spec fn of_step(step: SetupStep) -> CoreaudioAudioDriverError {
        match step {
            SetupStep::FindComponent => CoreaudioAudioDriverError::AudioComponentNotFound,
            SetupStep::CreateInstance => CoreaudioAudioDriverError::AudioComponentInstanceCreationFailed,
            SetupStep::Initialize => CoreaudioAudioDriverError::AudioComponentInstanceInitializationFailed,
            SetupStep::SetStreamFormat => CoreaudioAudioDriverError::AudioUnitSetPropertyFailed,
            SetupStep::SetRenderCallback => CoreaudioAudioDriverError::AudioUnitSetRenderCallbackFailed,
            SetupStep::StartOutput => CoreaudioAudioDriverError::AudioOutputUnitStartFailed,
        }
    }

    /// The call whose failure this error reports.
    pub open spec fn step(self) -> SetupStep {
        match self {
            CoreaudioAudioDriverError::AudioComponentNotFound => SetupStep::FindComponent,
            CoreaudioAudioDriverError::AudioComponentInstanceCreationFailed => SetupStep::CreateInstance,
            CoreaudioAudioDriverError::AudioComponentInstanceInitializationFailed => SetupStep::Initialize,
            CoreaudioAudioDriverError::AudioUnitSetPropertyFailed => SetupStep::SetStreamFormat,
            CoreaudioAudioDriverError::AudioUnitSetRenderCallbackFailed => SetupStep::SetRenderCallback,
            CoreaudioAudioDriverError::AudioOutputUnitStartFailed => SetupStep::StartOutput,
        }
    }

    /// The error reported when `step` fails; distinct calls give distinct errors.
    pub fn for_step(step: SetupStep) -> (e: CoreaudioAudioDriverError)
        ensures
            e == Self::of_step(step),
            e.step() == step,
    {
        match step {
            SetupStep::FindComponent => CoreaudioAudioDriverError::AudioComponentNotFound,
            SetupStep::CreateInstance => CoreaudioAudioDriverError::AudioComponentInstanceCreationFailed,
            SetupStep::Initialize => CoreaudioAudioDriverError::AudioComponentInstanceInitializationFailed,
            SetupStep::SetStreamFormat => CoreaudioAudioDriverError::AudioUnitSetPropertyFailed,
            SetupStep::SetRenderCallback => CoreaudioAudioDriverError::AudioUnitSetRenderCallbackFailed,
            SetupStep::StartOutput => CoreaudioAudioDriverError::AudioOutputUnitStartFailed,
        }
    }
}

/// A call that returns any nonzero status, or a lookup that finds no
/// component, ends bring-up with the error of that call; a call that
/// returns 0 never does.
pub proof fn lemma_failed_call_reports_its_error(step: SetupStep, status: i32, found: bool)
    ensures
        status != 0 ==> CoreaudioAudioDriver::bring_up_step(step, StepOutcome::Status(status).is_success())
            == Err::<Option<SetupStep>, CoreaudioAudioDriverError>(CoreaudioAudioDriverError::of_step(step)),
        !found ==> CoreaudioAudioDriver::bring_up_step(step, StepOutcome::Found(found).is_success())
            == Err::<Option<SetupStep>, CoreaudioAudioDriverError>(CoreaudioAudioDriverError::of_step(step)),
        CoreaudioAudioDriver::bring_up_step(step, StepOutcome::Status(0).is_success()) is Ok,
{
}

/// Each call of bring-up has its own error, and each error names one call.
pub proof fn lemma_errors_name_steps(step: SetupStep, e: CoreaudioAudioDriverError)
    ensures
        CoreaudioAudioDriverError::of_step(step).step() == step,
        CoreaudioAudioDriverError::of_step(e.step()) == e,
{
}

/// A running output driver. `advance_setup` hands one out when the last
/// call of bring-up succeeds; bring-up run from `SetupStep::first` reaches
/// that call only after every earlier call has succeeded
/// (`lemma_setup_completes`, `lemma_setup_stops_at_first_failure`). It
/// renders at the sample rate of the output format.
pub struct CoreaudioAudioDriver {
    sample_rate: i32,
}

impl CoreaudioAudioDriver {
    #[verifier::type_invariant]
    spec fn configured(self) -> bool {
        self.sample_rate == OUTPUT_SAMPLE_RATE
    }

    /// The sample rate the driver renders at.
    pub closed spec fn rate(self) -> i32 {
        self.sample_rate
    }

    /// What bring-up gives after `step` has reported `ok`: the next call
    /// (`Ok(Some(..))`), the running driver (`Ok(None)`), or the error of the
    /// call that failed.
    pub open spec fn bring_up_step(step: SetupStep, ok: bool) -> Result<Option<SetupStep>, CoreaudioAudioDriverError> {
        match setup_transition(step, ok) {
            SetupProgress::Continue(n) => Ok(Some(n)),
            SetupProgress::Complete => Ok(None),
            SetupProgress::Failed(s) => Err(CoreaudioAudioDriverError::of_step(s)),
        }
    }

    /// Where bring-up stands after the calls from the first on have reported
    /// `oks`: the next call (`Ok(Some(..))`), done (`Ok(None)`), or the error
    /// of the call that failed.
    pub open spec fn bring_up_run(oks: Seq<bool>) -> Result<Option<SetupStep>, CoreaudioAudioDriverError> {
        match run_setup(SetupStep::FindComponent, oks) {
            SetupProgress::Continue(n) => Ok(Some(n)),
            SetupProgress::Complete => Ok(None),
            SetupProgress::Failed(s) => Err(CoreaudioAudioDriverError::of_step(s)),
        }
    }

    /// Decides what follows a call of bring-up from what the call reported:
    /// the next call, the running driver after the last call, or the error
    /// of the call that failed.
    pub fn advance_setup(step: SetupStep, outcome: &StepOutcome) -> (r: Result<
        SetupNext<CoreaudioAudioDriver>,
        CoreaudioAudioDriverError,
    >)
        ensures
            match Self::bring_up_step(step, outcome.is_success()) {
                Ok(Some(n)) => r matches Ok(SetupNext::Continue(m)) && m == n,
                Ok(None) => r matches Ok(SetupNext::Ready(d)) && d.rate() == OUTPUT_SAMPLE_RATE,
                Err(e) => r == Err::<SetupNext<CoreaudioAudioDriver>, _>(e),
            },
    {
        match advance_setup(step, outcome) {
            SetupProgress::Continue(n) => Ok(SetupNext::Continue(n)),
            SetupProgress::Complete => Ok(
                SetupNext::Ready(CoreaudioAudioDriver { sample_rate: OUTPUT_SAMPLE_RATE as i32 }),
            ),
            SetupProgress::Failed(s) => Err(CoreaudioAudioDriverError::for_step(s)),
        }
    }

    /// The sample rate the driver renders at: that of the output format.
    pub fn sample_rate(&self) -> (r: i32)
        ensures
            r == self.rate(),
            r == OUTPUT_SAMPLE_RATE,
            r == output_format().sample_rate,
    {
        proof {
            use_type_invariant(self);
        }
        self.sample_rate
    }
}

} // verus!
