//! Why a captured record could not be turned into a score.

use vstd::prelude::*;

verus! {

/// A failure to decode a captured record. None of them is ever papered over
/// with a default value.
#[derive(Debug, Clone, Copy, PartialEq, Eq, Structural)]
pub enum ScoreError {
    /// The clock could not tell the time at which the record was captured.
    Clock,
    /// The chart's difficulty code is none of the known ones.
    Difficulty(u8),
    /// The play-style code is none of the known ones.
    PlayStyle(u8),
    /// The embedded result is not an object holding every field as a number
    /// that fits the field.
    Result,
}

} // verus!
