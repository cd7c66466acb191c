//! What can go wrong.

use vstd::prelude::*;

verus! {

/// Why a request could not be answered.
#[derive(Debug, Clone, Copy, PartialEq, Eq, Structural)]
pub enum SlideshowError {
    /// The catalog holds no image.
    EmptyCatalog,
    /// The image's file could not be read.
    Unreadable,
    /// The directory that was to be scanned could not be read.
    RootUnreadable,
}

} // verus!
