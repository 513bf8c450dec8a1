//! The one operation that every backend offers.

use crate::error::SoftBufferError;
use crate::frame::frame_error;
use vstd::prelude::*;

verus! {

/// A backend that can show a frame of packed pixels in a window.
///
/// A backend does not talk to the display server itself. `set_buffer` decides
/// what has to be done for a frame and returns it as a list of actions, in the
/// order in which the caller has to perform them on the thread that owns the
/// window.
pub trait GraphicsContextImpl: Sized {
    /// One step of the work that shows a frame.
    type Action;

    /// What holds of a backend at all times, from the moment it is made.
    spec fn wf(&self) -> bool;

    /// Plans the presentation of `buffer` as a frame of `width` by `height`
    /// pixels, row by row from the top left.
    ///
    /// Every backend refuses a slice that does not hold `width * height`
    /// pixels, and a frame without area, with the same errors; a refused
    /// frame leaves the backend as it was.
    fn set_buffer(&mut self, buffer: &[u32], width: u16, height: u16) -> (result: Result<
        Vec<Self::Action>,
        SoftBufferError,
    >)
        ensures
            old(self).wf(),
            final(self).wf(),
            result is Err ==> *final(self) == *old(self),
            frame_error(buffer@.len(), width, height) matches Some(e) ==> result == Err::<
                Vec<Self::Action>,
                SoftBufferError,
            >(e),
            result matches Err(e) ==> (e == SoftBufferError::LengthMismatch || e
                == SoftBufferError::EmptyFrame ==> frame_error(buffer@.len(), width, height)
                == Some(e)),
    ;
}

} // verus!
