//! The motion detector that the lighting sequence reads, and the shared flag
//! that a GPIO interrupt sets when the PIR sensor's level changes.

use vstd::prelude::*;
use core::sync::atomic::{AtomicBool, Ordering};

verus! {

/// Something that tells whether motion is currently seen.
pub trait MotionDetector {
    fn motion_detected(&mut self) -> bool;
}

/// The latest level of a motion sensor, shared between the interrupt
/// handler that writes it and the tasks that read it.
///
/// Another context may write the flag at any moment, so what a read returns
/// is not stated.
pub struct MotionState {
    detected: AtomicBool,
}

impl MotionState {
    /// A flag that starts out as "no motion".
    pub fn new() -> (state: Self) {
        MotionState { detected: AtomicBool::new(false) }
    }

    /// Records the sensor's latest level.
    pub fn update(&self, detected: bool) {
        self.detected.store(detected, Ordering::Relaxed);
    }

    /// The latest recorded level.
    pub fn is_detected(&self) -> (detected: bool) {
        self.detected.load(Ordering::Relaxed)
    }
}

impl Default for MotionState {
    fn default() -> (state: Self) {
        MotionState::new()
    }
}

/// A motion detector that reads a shared `MotionState`.
pub struct SharedMotionDetector<'a> {
    state: &'a MotionState,
}

impl<'a> SharedMotionDetector<'a> {
    pub fn new(state: &'a MotionState) -> (detector: Self)
        ensures
            detector.source() == state,
    {
        SharedMotionDetector { state }
    }

    /// The flag the detector reads.
    pub closed spec fn source(self) -> &'a MotionState {
        self.state
    }
}

impl MotionDetector for SharedMotionDetector<'_> {
    fn motion_detected(&mut self) -> bool {
        self.state.is_detected()
    }
}

} // verus!
