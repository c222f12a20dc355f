//! Errors of the sound mixer.

use vstd::prelude::*;

verus! {

/// A sound could not start: every channel is busy with one of equal or higher
/// priority.
#[derive(Debug, Clone, Copy, PartialEq, Eq, Structural)]
pub struct SoundError;

impl SoundError {
    /// A description of the error.
    pub fn message(&self) -> (m: &'static str)
        ensures
            m@ == "Sound operation failed"@,
    {
        "Sound operation failed"
    }
}

} // verus!
