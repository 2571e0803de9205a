//! Decoding of raw interleaved PCM bytes into typed samples.
//!
//! Each sample arrives as four bytes, least-significant byte first, holding
//! the bit pattern of one 32-bit IEEE-754 value. The decoder works on the bit
//! patterns themselves: alignment, grouping and channel interleaving are the
//! logic here, and a caller that wants the numeric value reinterprets the
//! returned word.

use vstd::prelude::*;

verus! {

use crate::PipelineError;

/// Number of bytes that encode one sample.
pub const BYTES_PER_SAMPLE: usize = 4;

/// A frame of stereo audio: the bit patterns of one 32-bit sample for the
/// left and the right channel, taken from the same time index.
#[derive(Clone, Copy, Debug, PartialEq, Eq, Structural)]
pub struct Frame {
    /// Bit pattern of the left-channel sample.
    pub left: u32,
    /// Bit pattern of the right-channel sample.
    pub right: u32,
}

/// The 32-bit word encoded least-significant byte first at offset `i`.
pub open spec fn word_at(bytes: Seq<u8>, i: int) -> u32 {
    (bytes[i] + bytes[i + 1] * 0x100 + bytes[i + 2] * 0x1_0000 + bytes[i + 3] * 0x100_0000) as u32
}

/// The stereo frame encoded at frame index `k`: the first four bytes of each
/// eight-byte unit are the left channel, the next four the right channel.
pub open spec fn frame_at(bytes: Seq<u8>, k: int) -> Frame {
    Frame { left: word_at(bytes, 8 * k), right: word_at(bytes, 8 * k + 4) }
}

/// Decode a byte buffer into a vector of mono sample bit patterns.
///
/// Fails with `MalformedBuffer` exactly when the buffer length is not a
/// multiple of the sample width.
pub fn decode(input: &[u8]) -> (r: Result<Vec<u32>, PipelineError>)
    ensures
        match r {
            Ok(samples) => {
                &&& input@.len() % 4 == 0
                &&& samples@.len() == input@.len() / 4
                &&& forall|j: int|
                    0 <= j < samples@.len() ==> samples@[j] == word_at(input@, 4 * j)
            },
            Err(e) => input@.len() % 4 != 0 && e == PipelineError::MalformedBuffer,
        },
{
    if input.len() % BYTES_PER_SAMPLE != 0 {
        return Err(PipelineError::MalformedBuffer);
    }
    let n: usize = input.len() / BYTES_PER_SAMPLE;
    let mut samples: Vec<u32> = Vec::new();
    let mut k: usize = 0;
    while k < n
        invariant
            input@.len() == 4 * n,
            4 * n <= usize::MAX,
            k <= n,
            samples@.len() == k,
            forall|j: int| 0 <= j < k ==> samples@[j] == word_at(input@, 4 * j),
        decreases n - k,
    {
        let idx: usize = 4 * k;
        let w: u32 = read_word(input, idx);
        samples.push(w);
        k = k + 1;
    }
    Ok(samples)
}

/// Decode a byte buffer into a vector of stereo frames.
///
/// Bytes are consumed in units of eight; the first four bytes of each unit
/// become the left channel and the next four the right channel, so the
/// channel assignment never drifts. Fails with `MalformedBuffer` exactly when
/// the buffer length is not a multiple of the frame width.
pub fn decode_stereo(input: &[u8]) -> (r: Result<Vec<Frame>, PipelineError>)
    ensures
        match r {
            Ok(frames) => {
                &&& input@.len() % 8 == 0
                &&& frames@.len() == input@.len() / 8
                &&& forall|j: int| 0 <= j < frames@.len() ==> frames@[j] == frame_at(input@, j)
            },
            Err(e) => input@.len() % 8 != 0 && e == PipelineError::MalformedBuffer,
        },
{
    if input.len() % (BYTES_PER_SAMPLE * 2) != 0 {
        return Err(PipelineError::MalformedBuffer);
    }
    let n: usize = input.len() / (BYTES_PER_SAMPLE * 2);
    let mut frames: Vec<Frame> = Vec::new();
    let mut k: usize = 0;
    while k < n
        invariant
            input@.len() == 8 * n,
            8 * n <= usize::MAX,
            k <= n,
            frames@.len() == k,
            forall|j: int| 0 <= j < k ==> frames@[j] == frame_at(input@, j),
        decreases n - k,
    {
        let base: usize = 8 * k;
        let left: u32 = read_word(input, base);
        let right: u32 = read_word(input, base + 4);
        frames.push(Frame { left, right });
        k = k + 1;
    }
    Ok(frames)
}

/// Read the 32-bit word encoded least-significant byte first at `idx`.
fn read_word(input: &[u8], idx: usize) -> (w: u32)
    requires
        idx + 4 <= input@.len(),
    ensures
        w == word_at(input@, idx as int),
{
    let b0: u32 = input[idx] as u32;
    let b1: u32 = input[idx + 1] as u32;
    let b2: u32 = input[idx + 2] as u32;
    let b3: u32 = input[idx + 3] as u32;
    b0 + b1 * 0x100 + b2 * 0x1_0000 + b3 * 0x100_0000
}

} // verus!
