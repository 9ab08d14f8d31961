//! Audio output drivers for emulators: the decisions that bring an output
//! unit up, keep it running or stopped, tear it down, and lay out the
//! sample buffers it renders into.

pub mod component;
pub mod core_audio_driver;
pub mod coreaudio_audio_driver;
pub mod driver;
pub mod render;
pub mod setup;
pub mod stream_format;
pub mod teardown;
