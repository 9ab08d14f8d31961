use emu::component::{default_output_description, COMPONENT_SUB_TYPE_DEFAULT_OUTPUT, COMPONENT_TYPE_OUTPUT};
use emu::core_audio_driver::{command_to_reach, CoreAudioDriver, UnitCommand};
use emu::coreaudio_audio_driver::{CoreaudioAudioDriver, CoreaudioAudioDriverError};
use emu::driver::{Driver, DriverError};
use emu::render::{callback_frames, interleaved_len, write_stereo_frames};
use emu::setup::{advance_setup, PropertyAddress, SetupNext, SetupProgress, SetupStep, StepOutcome, SETUP_STEP_COUNT};
use emu::stream_format::{output_stream_format, OUTPUT_SAMPLE_RATE};
use emu::teardown::{advance_teardown, first_teardown_step, TeardownProgress, TeardownStep};

const ALL_STEPS: [SetupStep; 6] = [
    SetupStep::FindComponent,
    SetupStep::CreateInstance,
    SetupStep::Initialize,
    SetupStep::SetStreamFormat,
    SetupStep::SetRenderCallback,
    SetupStep::StartOutput,
];

fn ok_outcome(step: SetupStep) -> StepOutcome {
    match step {
        SetupStep::FindComponent => StepOutcome::Found(true),
        _ => StepOutcome::Status(0),
    }
}

fn failing_outcome(step: SetupStep) -> StepOutcome {
    match step {
        SetupStep::FindComponent => StepOutcome::Found(false),
        _ => StepOutcome::Status(-10875),
    }
}

/// Runs bring-up of the self-configuring driver; call `fail_at` fails.
fn bring_up(fail_at: Option<usize>) -> (Result<CoreaudioAudioDriver, CoreaudioAudioDriverError>, usize) {
    let mut step = SetupStep::first();
    let mut calls = 0;
    loop {
        let outcome = if Some(calls) == fail_at { failing_outcome(step) } else { ok_outcome(step) };
        calls += 1;
        match CoreaudioAudioDriver::advance_setup(step, &outcome) {
            Ok(SetupNext::Continue(next)) => step = next,
            Ok(SetupNext::Ready(driver)) => return (Ok(driver), calls),
            Err(e) => return (Err(e), calls),
        }
    }
}

fn bring_up_plain(fail_at: Option<usize>) -> (Result<Driver, DriverError>, usize) {
    let mut step = SetupStep::first();
    let mut calls = 0;
    loop {
        let outcome = if Some(calls) == fail_at { failing_outcome(step) } else { ok_outcome(step) };
        calls += 1;
        match Driver::advance_setup(step, &outcome) {
            Ok(SetupNext::Continue(next)) => step = next,
            Ok(SetupNext::Ready(driver)) => return (Ok(driver), calls),
            Err(e) => return (Err(e), calls),
        }
    }
}

#[test]
fn new_driver_is_enabled_and_starts_its_unit() {
    let (d, command) = CoreAudioDriver::new();
    assert!(d.is_enabled());
    assert_eq!(command, UnitCommand::Start);
    assert_eq!(command, command_to_reach(false, true));
}

#[test]
fn set_is_enabled_starts_and_stops_only_on_change() {
    let (mut d, _) = CoreAudioDriver::new();
    assert_eq!(d.set_is_enabled(true), UnitCommand::Keep);
    assert!(d.is_enabled());
    assert_eq!(d.set_is_enabled(false), UnitCommand::Stop);
    assert!(!d.is_enabled());
    assert_eq!(d.set_is_enabled(false), UnitCommand::Keep);
    assert!(!d.is_enabled());
    assert_eq!(d.set_is_enabled(true), UnitCommand::Start);
    assert!(d.is_enabled());
}

#[test]
fn unit_tracks_flag_over_requests() {
    let (mut d, _) = CoreAudioDriver::new();
    let mut running = true;
    for wanted in [false, false, true, true, false, true] {
        match d.set_is_enabled(wanted) {
            UnitCommand::Start => {
                assert!(!running);
                running = true;
            }
            UnitCommand::Stop => {
                assert!(running);
                running = false;
            }
            UnitCommand::Keep => {}
        }
        assert_eq!(running, d.is_enabled());
        assert_eq!(running, wanted);
    }
}

#[test]
fn command_to_reach_table() {
    assert_eq!(command_to_reach(false, false), UnitCommand::Keep);
    assert_eq!(command_to_reach(true, true), UnitCommand::Keep);
    assert_eq!(command_to_reach(false, true), UnitCommand::Start);
    assert_eq!(command_to_reach(true, false), UnitCommand::Stop);
}

#[test]
fn setup_steps_come_in_order() {
    let mut step = SetupStep::first();
    let mut seen = vec![step];
    while let Some(next) = step.next() {
        seen.push(next);
        step = next;
    }
    assert_eq!(seen, ALL_STEPS.to_vec());
    assert_eq!(seen.len(), SETUP_STEP_COUNT);
}

#[test]
fn step_outcome_success() {
    assert!(StepOutcome::Found(true).succeeded());
    assert!(!StepOutcome::Found(false).succeeded());
    assert!(StepOutcome::Status(0).succeeded());
    assert!(!StepOutcome::Status(1).succeeded());
    assert!(!StepOutcome::Status(-50).succeeded());
}

#[test]
fn advance_setup_transitions() {
    assert_eq!(
        advance_setup(SetupStep::FindComponent, &StepOutcome::Found(true)),
        SetupProgress::Continue(SetupStep::CreateInstance)
    );
    assert_eq!(
        advance_setup(SetupStep::SetStreamFormat, &StepOutcome::Status(-50)),
        SetupProgress::Failed(SetupStep::SetStreamFormat)
    );
    assert_eq!(
        advance_setup(SetupStep::StartOutput, &StepOutcome::Status(0)),
        SetupProgress::Complete
    );
}

#[test]
fn bring_up_succeeds_after_six_calls() {
    let (result, calls) = bring_up(None);
    let driver = result.unwrap();
    assert_eq!(calls, 6);
    assert_eq!(driver.sample_rate(), 44100);
    assert_eq!(driver.sample_rate() as u32, OUTPUT_SAMPLE_RATE);
}

#[test]
fn bring_up_reports_first_failing_call() {
    let expected = [
        CoreaudioAudioDriverError::AudioComponentNotFound,
        CoreaudioAudioDriverError::AudioComponentInstanceCreationFailed,
        CoreaudioAudioDriverError::AudioComponentInstanceInitializationFailed,
        CoreaudioAudioDriverError::AudioUnitSetPropertyFailed,
        CoreaudioAudioDriverError::AudioUnitSetRenderCallbackFailed,
        CoreaudioAudioDriverError::AudioOutputUnitStartFailed,
    ];
    for (k, e) in expected.iter().enumerate() {
        let (result, calls) = bring_up(Some(k));
        assert_eq!(result.err(), Some(*e));
        assert_eq!(calls, k + 1);
        assert_eq!(CoreaudioAudioDriverError::for_step(ALL_STEPS[k]), *e);
    }
}

#[test]
fn plain_driver_bring_up() {
    let (result, calls) = bring_up_plain(None);
    assert!(result.is_ok());
    assert_eq!(calls, 6);
    let expected = [
        DriverError::AudioComponentNotFound,
        DriverError::AudioComponentInstanceCreationFailed,
        DriverError::AudioComponentInstanceInitializationFailed,
        DriverError::AudioUnitSetPropertyFailed,
        DriverError::AudioUnitSetRenderCallbackFailed,
        DriverError::AudioOutputUnitStartFailed,
    ];
    for (k, e) in expected.iter().enumerate() {
        let (result, calls) = bring_up_plain(Some(k));
        assert_eq!(result.err(), Some(*e));
        assert_eq!(calls, k + 1);
        assert_eq!(DriverError::for_step(ALL_STEPS[k]), *e);
    }
}

#[test]
fn teardown_stops_then_disposes() {
    let step = first_teardown_step();
    assert_eq!(step, TeardownStep::StopOutput);
    assert_eq!(
        advance_teardown(step, 0),
        TeardownProgress::Continue(TeardownStep::DisposeInstance)
    );
    assert_eq!(advance_teardown(TeardownStep::DisposeInstance, 0), TeardownProgress::Complete);
}

#[test]
fn teardown_failures_carry_code() {
    assert_eq!(
        advance_teardown(TeardownStep::StopOutput, -4),
        TeardownProgress::Failed(TeardownStep::StopOutput, -4)
    );
    assert_eq!(
        advance_teardown(TeardownStep::DisposeInstance, 7),
        TeardownProgress::Failed(TeardownStep::DisposeInstance, 7)
    );
}

#[test]
fn component_description_is_default_output() {
    let d = default_output_description();
    assert_eq!(d.component_type, 0x61756f75);
    assert_eq!(d.component_type, u32::from_be_bytes(*b"auou"));
    assert_eq!(d.component_sub_type, u32::from_be_bytes(*b"def "));
    assert_eq!(d.component_manufacturer, u32::from_be_bytes(*b"appl"));
    assert_eq!(d.component_type, COMPONENT_TYPE_OUTPUT);
    assert_eq!(d.component_sub_type, COMPONENT_SUB_TYPE_DEFAULT_OUTPUT);
    assert_eq!(d.component_flags, 0);
    assert_eq!(d.component_flags_mask, 0);
}

#[test]
fn stream_format_is_float_stereo() {
    let f = output_stream_format();
    assert_eq!(f.sample_rate, 44100);
    assert_eq!(f.format_id, u32::from_be_bytes(*b"lpcm"));
    assert_eq!(f.format_flags, 1);
    assert_eq!(f.frames_per_packet, 1);
    assert_eq!(f.channels_per_frame, 2);
    assert_eq!(f.bits_per_channel, 32);
    assert_eq!(f.bytes_per_packet, 2 * 4);
    assert_eq!(f.bytes_per_frame, 2 * 4);
    assert_eq!(f.reserved, 0);
    assert_eq!(f.bytes_per_frame, f.channels_per_frame * f.bits_per_channel / 8);
}

#[test]
fn interleaved_length_is_two_per_frame() {
    assert_eq!(interleaved_len(0), 0);
    assert_eq!(interleaved_len(512), 1024);
    assert_eq!(interleaved_len(u32::MAX / 2), (u32::MAX - 1) as usize);
    assert_eq!(interleaved_len(512), 512 * output_stream_format().channels_per_frame as usize);
}

#[test]
fn callback_frames_halves_samples() {
    assert_eq!(callback_frames(1024), 512);
    assert_eq!(callback_frames(7), 3);
    assert_eq!(callback_frames(0), 0);
}

#[test]
fn stereo_frames_duplicate_each_sample() {
    let mut buffer = [0.0f32; 7];
    let samples = [0.25f32, -0.5, 1.0];
    write_stereo_frames(&mut buffer, &samples);
    assert_eq!(buffer, [0.25, 0.25, -0.5, -0.5, 1.0, 1.0, 0.0]);
}

#[test]
fn stereo_frames_empty_samples_leave_buffer() {
    let mut buffer = [3u8, 4, 5];
    write_stereo_frames(&mut buffer, &[]);
    assert_eq!(buffer, [3, 4, 5]);
}

#[test]
fn both_drivers_bring_up_alike() {
    for fail_at in [None, Some(0), Some(1), Some(2), Some(3), Some(4), Some(5)] {
        let (a, calls_a) = bring_up(fail_at);
        let (b, calls_b) = bring_up_plain(fail_at);
        assert_eq!(calls_a, calls_b);
        assert_eq!(a.is_ok(), b.is_ok());
        if let (Err(ea), Err(eb)) = (a, b) {
            assert_eq!(format!("{:?}", ea), format!("{:?}", eb));
        }
    }
}

#[test]
fn set_property_calls_address_input_element_zero() {
    assert_eq!(
        SetupStep::SetStreamFormat.property(),
        Some(PropertyAddress { property_id: 8, scope: 1, element: 0 })
    );
    assert_eq!(
        SetupStep::SetRenderCallback.property(),
        Some(PropertyAddress { property_id: 23, scope: 1, element: 0 })
    );
    for step in [
        SetupStep::FindComponent,
        SetupStep::CreateInstance,
        SetupStep::Initialize,
        SetupStep::StartOutput,
    ] {
        assert_eq!(step.property(), None);
    }
}
