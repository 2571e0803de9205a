//! A real-time terminal volume meter library.
//!
//! The per-frame pipeline decodes raw PCM bytes into typed samples, reduces
//! them to an RMS amplitude, maps the amplitude to a bounded bar height, and
//! redraws a vertical terminal meter incrementally, touching only the rows
//! that changed between frames.

use vstd::prelude::*;

mod analyze;
mod audio_stream;
mod decode;
mod frame;
mod level;
mod term;
mod tty;

pub use analyze::isqrt;
pub use analyze::rms_amplitude;
pub use analyze::rms_amplitude_stereo;
pub use analyze::StereoSample;
pub use analyze::MAX_SAMPLE_MAGNITUDE;
pub use analyze::MAX_WINDOW_LEN;
pub use audio_stream::build_audio_stream;
pub use audio_stream::SampleFormat;
pub use audio_stream::ScriptedStream;
pub use audio_stream::Stream;
pub use audio_stream::StreamConfig;
pub use audio_stream::Type;
pub use decode::decode;
pub use decode::decode_stereo;
pub use decode::Frame;
pub use decode::BYTES_PER_SAMPLE;
pub use frame::contains_quit;
pub use frame::next_state;
pub use frame::FrameConfig;
pub use frame::LoopState;
pub use frame::QUIT_KEY;
pub use level::decibel_from_amplitude;
pub use level::height_from_decibel;
pub use level::map_amplitude_to_height;
pub use level::DEFAULT_FLOOR_MAGNITUDE_MILLI;
pub use level::MAX_DECIBEL_MAGNITUDE_MILLI;
pub use level::MAX_FLOOR_MAGNITUDE_MILLI;
pub use term::DrawCmd;
pub use term::Glyph;
pub use tty::layout_stereo_meters;
pub use tty::Meter;
pub use tty::Tty;

verus! {

/// Errors of the per-frame pipeline.
#[derive(Clone, Copy, Debug, PartialEq, Eq, Structural)]
pub enum PipelineError {
    /// The decoder received a byte count not aligned to the sample or frame width.
    MalformedBuffer,
    /// The analyzer received zero samples.
    EmptyWindow,
    /// The capture collaborator failed to fill the buffer.
    CaptureError,
    /// A terminal write or flush failed.
    RenderError,
}

} // verus!
