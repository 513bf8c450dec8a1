//! The reasons for which a backend refuses a handle or a frame.

use vstd::prelude::*;

verus! {

/// Why a backend could not be built or a frame could not be presented.
#[derive(Clone, Copy, Debug, PartialEq, Eq)]
pub enum SoftBufferError {
    /// The display, surface or window reference of a handle is null.
    InvalidHandle,
    /// The screen reports a pixel depth outside `1..=32`.
    UnsupportedDepth,
    /// The pixel slice does not hold exactly `width * height` pixels.
    LengthMismatch,
    /// The frame has no area: `width` or `height` is zero.
    EmptyFrame,
    /// The frame needs more bytes than a shared-memory pool can address.
    FrameTooLarge,
}

} // verus!
