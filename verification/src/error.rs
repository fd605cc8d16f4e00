use vstd::prelude::*;

verus! {

/// The failure taxonomy of the slideshow core.
///
/// Loader failures (`NotFound`, `Decode`) abort a load before any
/// presentation begins; `EmptySequence` and `InvalidConfig` are
/// construction-time failures of the cycle manager and of the
/// presentation pacing.
#[derive(Clone, Copy, Debug, PartialEq, Eq, Structural)]
pub enum CycleError {
    /// A source path did not reference an existing regular file.
    NotFound,
    /// The codec could not parse a file's contents as an image.
    Decode,
    /// The image sequence was empty, at load, at construction, or at a tick.
    EmptySequence,
    /// The target frame rate was not positive.
    InvalidConfig,
}

} // verus!
