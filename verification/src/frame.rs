//! Size of a frame, and the checks that every backend makes on one.

use crate::error::SoftBufferError;
use vstd::prelude::*;

verus! {

/// Number of pixels in a frame of `width` by `height`.
pub open spec fn pixel_count(width: u16, height: u16) -> nat {
    (width as nat) * (height as nat)
}

/// Number of bytes in a frame of `width` by `height`: four for each pixel,
/// with no padding.
pub open spec fn byte_len(width: u16, height: u16) -> nat {
    4 * pixel_count(width, height)
}

/// Number of bytes from the start of one row to the start of the next.
pub open spec fn row_stride(width: u16) -> nat {
    4 * (width as nat)
}

/// The reason for which every backend refuses a frame of `len` pixels that is
/// announced as `width` by `height`, or `None` where the frame is sound.
///
/// A slice of the wrong length is a fault of the caller and is named first,
/// whatever the dimensions are. A frame without area is refused next.
pub open spec fn frame_error(len: nat, width: u16, height: u16) -> Option<SoftBufferError> {
    if len != pixel_count(width, height) {
        Some(SoftBufferError::LengthMismatch)
    } else if width == 0 || height == 0 {
        Some(SoftBufferError::EmptyFrame)
    } else {
        None
    }
}

/// The largest frame has fewer than 2^32 pixels.
pub proof fn lemma_pixel_count_bound(width: u16, height: u16)
    ensures
        pixel_count(width, height) <= 65535 * 65535,
        width > 0 && height > 0 ==> pixel_count(width, height) > 0,
        width == 0 || height == 0 ==> pixel_count(width, height) == 0,
{
    assert((width as nat) * (height as nat) <= 65535 * 65535) by (nonlinear_arith)
        requires
            width <= 65535,
            height <= 65535,
    ;
    assert(width > 0 && height > 0 ==> (width as nat) * (height as nat) > 0) by (nonlinear_arith);
    assert(width == 0 || height == 0 ==> (width as nat) * (height as nat) == 0)
        by (nonlinear_arith);
}

/// A frame without area is refused: as a slice of the wrong length where
/// pixels come with it, and as an empty frame where none do.
pub proof fn lemma_empty_frame_refused(len: nat, width: u16, height: u16)
    requires
        width == 0 || height == 0,
    ensures
        frame_error(len, width, height) == Some(
            if len == 0 {
                SoftBufferError::EmptyFrame
            } else {
                SoftBufferError::LengthMismatch
            },
        ),
{
    lemma_pixel_count_bound(width, height);
}

/// Computes the number of pixels in a frame of `width` by `height`.
pub fn frame_pixel_count(width: u16, height: u16) -> (count: u64)
    ensures
        count == pixel_count(width, height),
        count <= 65535 * 65535,
{
    proof {
        lemma_pixel_count_bound(width, height);
    }
    (width as u64) * (height as u64)
}

/// Checks a frame of `len` pixels against the dimensions it is announced with.
pub fn check_frame(len: usize, width: u16, height: u16) -> (result: Result<(), SoftBufferError>)
    ensures
        result == match frame_error(len as nat, width, height) {
            Some(e) => Err::<(), SoftBufferError>(e),
            None => Ok(()),
        },
{
    let count: u64 = frame_pixel_count(width, height);
    if len as u64 != count {
        Err(SoftBufferError::LengthMismatch)
    } else if width == 0 || height == 0 {
        Err(SoftBufferError::EmptyFrame)
    } else {
        Ok(())
    }
}

} // verus!
