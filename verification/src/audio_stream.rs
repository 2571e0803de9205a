//! The audio capture capability.
//!
//! Capture is consumed through a narrow interface: a stream fills a byte
//! buffer completely or fails. The real backend opens an audio device, which
//! is I/O and lives in the embedding binary; here stand the capability
//! trait, the capture configuration every backend is opened with, and a
//! scripted stream that replays pre-recorded chunks deterministically.

use vstd::prelude::*;

verus! {

use crate::PipelineError;

/// Indicates that PCM audio data may be streamed via this type.
pub trait Stream {
    /// Fill the buffer with PCM data, completely or not at all; the buffer
    /// keeps its length either way.
    fn stream(&mut self, buffer: &mut Vec<u8>) -> (r: Result<(), PipelineError>)
        ensures
            final(buffer)@.len() == old(buffer)@.len(),
    ;
}

/// Types of supported audio streams.
#[derive(Clone, Copy, Debug, PartialEq, Eq, Structural)]
pub enum Type {
    /// The plain synchronous capture connection of the system sound server.
    PulseSimple,
}

/// Sample formats a capture stream can deliver.
#[derive(Clone, Copy, Debug, PartialEq, Eq, Structural)]
pub enum SampleFormat {
    /// 32-bit IEEE-754 samples in native byte order.
    Float32,
}

/// The configuration a capture backend is opened with.
#[derive(Clone, Copy, Debug, PartialEq, Eq, Structural)]
pub struct StreamConfig {
    /// Encoding of one sample.
    pub format: SampleFormat,
    /// Number of interleaved channels.
    pub channels: u8,
    /// Samples per second and channel.
    pub rate: u32,
}

impl StreamConfig {
    /// Acceptable to a capture backend: at least one channel, and channel
    /// count and rate within the limits common to sound servers.
    pub open spec fn wf(self) -> bool {
        &&& 1 <= self.channels <= 32
        &&& 1 <= self.rate <= 384_000
    }
}

/// The fixed capture configuration of this meter: two interleaved channels
/// of 32-bit float samples at 48000 samples per second.
pub open spec fn stereo_float_config() -> StreamConfig {
    StreamConfig { format: SampleFormat::Float32, channels: 2, rate: 48000 }
}

/// Select the capture configuration for a stream type. Every supported type
/// yields a valid configuration; opening the device with it is I/O and
/// belongs to the embedding binary.
pub fn build_audio_stream(stream_type: Type) -> (r: Option<StreamConfig>)
    ensures
        r == Some(stereo_float_config()),
        stereo_float_config().wf(),
{
    match stream_type {
        Type::PulseSimple => Some(
            StreamConfig { format: SampleFormat::Float32, channels: 2, rate: 48000 },
        ),
    }
}

/// A scripted capture source: replays pre-recorded chunks in order. It is
/// the deterministic stand-in for a real capture backend.
pub struct ScriptedStream {
    /// The recorded chunks, handed out front to back.
    pub chunks: Vec<Vec<u8>>,
    /// Index of the next chunk to hand out.
    pub next: usize,
}

impl ScriptedStream {
    /// A scripted stream that will replay `chunks` front to back.
    pub fn new(chunks: Vec<Vec<u8>>) -> (s: ScriptedStream)
        ensures
            s.chunks@ == chunks@,
            s.next == 0,
    {
        ScriptedStream { chunks, next: 0 }
    }

    /// Copy the next chunk into `buffer` and advance, or fail with
    /// `CaptureError` when the recording is exhausted or the next chunk does
    /// not fill the buffer exactly.
    pub fn fill_next(&mut self, buffer: &mut Vec<u8>) -> (r: Result<(), PipelineError>)
        ensures
            final(buffer)@.len() == old(buffer)@.len(),
            final(self).chunks@ == old(self).chunks@,
            match r {
                Ok(()) => {
                    &&& old(self).next < old(self).chunks@.len()
                    &&& old(self).chunks@[old(self).next as int]@.len() == old(buffer)@.len()
                    &&& final(buffer)@ == old(self).chunks@[old(self).next as int]@
                    &&& final(self).next == old(self).next + 1
                },
                Err(e) => {
                    &&& e == PipelineError::CaptureError
                    &&& final(self).next == old(self).next
                    &&& final(buffer)@ == old(buffer)@
                    &&& (old(self).next >= old(self).chunks@.len() || old(self).chunks@[old(
                        self,
                    ).next as int]@.len() != old(buffer)@.len())
                },
            },
    {
        if self.next >= self.chunks.len() {
            return Err(PipelineError::CaptureError);
        }
        let chunk: &Vec<u8> = &self.chunks[self.next];
        if chunk.len() != buffer.len() {
            return Err(PipelineError::CaptureError);
        }
        let mut filled: Vec<u8> = Vec::new();
        let mut j: usize = 0;
        while j < chunk.len()
            invariant
                j <= chunk@.len(),
                filled@ == chunk@.take(j as int),
            decreases chunk@.len() - j,
        {
            filled.push(chunk[j]);
            proof {
                assert(filled@ =~= chunk@.take(j + 1));
            }
            j = j + 1;
        }
        proof {
            assert(chunk@.take(chunk@.len() as int) =~= chunk@);
        }
        *buffer = filled;
        self.next = self.next + 1;
        Ok(())
    }
}

impl Stream for ScriptedStream {
    fn stream(&mut self, buffer: &mut Vec<u8>) -> (r: Result<(), PipelineError>) {
        self.fill_next(buffer)
    }
}

} // verus!
