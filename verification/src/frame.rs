//! Decisions of the frame loop.
//!
//! The loop itself performs capture reads and terminal writes, so it runs in
//! the embedding binary; every decision it takes — how large a capture
//! buffer one frame needs, whether the drained input requested an exit, and
//! what state follows — is a pure function here.

use vstd::prelude::*;

verus! {

use crate::level::MAX_FLOOR_MAGNITUDE_MILLI;

/// The input byte that requests an exit: the letter `q`.
pub const QUIT_KEY: u8 = 113;

/// The two states of the frame loop.
#[derive(Clone, Copy, Debug, PartialEq, Eq, Structural)]
pub enum LoopState {
    /// The loop keeps producing frames.
    Running,
    /// The loop has ended; the terminal is to be restored.
    Stopped,
}

/// Configuration the frame loop is constructed with.
#[derive(Clone, Copy, Debug, PartialEq, Eq, Structural)]
pub struct FrameConfig {
    /// Samples per second and channel of the capture stream.
    pub sample_rate: u16,
    /// Target frames per second of the meter.
    pub fps: u16,
    /// Magnitude of the decibel floor, in milli-decibels.
    pub floor_magnitude_milli: i64,
}

impl FrameConfig {
    /// A configuration the loop can run with: a positive frame rate and a
    /// floor magnitude the level mapper accepts.
    pub open spec fn wf(self) -> bool {
        &&& 1 <= self.fps
        &&& 0 < self.floor_magnitude_milli <= MAX_FLOOR_MAGNITUDE_MILLI
    }

    /// Bytes of capture buffer that one frame consumes.
    pub fn buffer_bytes(&self) -> (n: u16)
        requires
            self.wf(),
        ensures
            n == self.sample_rate as int / self.fps as int,
    {
        self.sample_rate / self.fps
    }
}

impl Default for FrameConfig {
    /// The default configuration: 48000 samples per second, twenty frames
    /// per second, a floor of minus thirty decibels.
    fn default() -> (c: FrameConfig)
        ensures
            c == (FrameConfig { sample_rate: 48000, fps: 20, floor_magnitude_milli: 30_000 }),
            c.wf(),
    {
        FrameConfig { sample_rate: 48000, fps: 20, floor_magnitude_milli: 30_000 }
    }
}

/// True exactly when the drained input bytes hold the quit key.
pub fn contains_quit(input: &Vec<u8>) -> (r: bool)
    ensures
        r == input@.contains(QUIT_KEY),
{
    let mut found: bool = false;
    let mut k: usize = 0;
    while k < input.len()
        invariant
            k <= input@.len(),
            found <==> exists|j: int| 0 <= j < k && input@[j] == QUIT_KEY,
        decreases input@.len() - k,
    {
        if input[k] == QUIT_KEY {
            found = true;
        }
        k = k + 1;
    }
    found
}

/// The state that follows one iteration.
pub open spec fn spec_next_state(
    state: LoopState,
    capture_ok: bool,
    quit_requested: bool,
) -> LoopState {
    if state == LoopState::Stopped || !capture_ok || quit_requested {
        LoopState::Stopped
    } else {
        LoopState::Running
    }
}

/// Decide the state that follows one iteration: the loop stops when the
/// capture read failed or a quit was requested, and never restarts once
/// stopped.
pub fn next_state(state: LoopState, capture_ok: bool, quit_requested: bool) -> (next: LoopState)
    ensures
        next == spec_next_state(state, capture_ok, quit_requested),
        next == LoopState::Stopped <==> (state == LoopState::Stopped || !capture_ok
            || quit_requested),
{
    match state {
        LoopState::Stopped => LoopState::Stopped,
        LoopState::Running => {
            if !capture_ok || quit_requested {
                LoopState::Stopped
            } else {
                LoopState::Running
            }
        },
    }
}

} // verus!
