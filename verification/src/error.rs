//! Error taxonomy of the simulation core.
//!
//! Configuration errors are fatal at load time; the constructors return
//! them instead of building an actor. `OutOfRange` reports an index past
//! the end of an animation clip.

use vstd::prelude::*;

verus! {

/// Why a library operation was refused.
#[derive(Clone, Copy, Debug, PartialEq, Eq, Structural)]
pub enum Error {
    /// A frame index at or past the clip's frame count.
    OutOfRange,
    /// A clip name that the asset table does not hold.
    MissingAsset,
    /// An animation clip with no frames at all.
    EmptyClip,
}

impl Error {
    /// A short diagnostic word for each variant.
    pub fn describe(&self) -> (r: &'static str)
        ensures
            *self == Error::OutOfRange ==> r@ == "frame index out of range"@,
            *self == Error::MissingAsset ==> r@ == "missing asset"@,
            *self == Error::EmptyClip ==> r@ == "empty animation clip"@,
    {
        match self {
            Error::OutOfRange => "frame index out of range",
            Error::MissingAsset => "missing asset",
            Error::EmptyClip => "empty animation clip",
        }
    }
}

} // verus!
