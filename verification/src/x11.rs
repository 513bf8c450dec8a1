//! The direct-blit backend.
//!
//! The backend keeps no store. For each frame it describes the caller's
//! pixels to the server as an image, at the depth that the window's screen
//! reported when the backend was made, and has the whole image drawn into the
//! window. The image only borrows the pixels: it is parted from them before
//! it is destroyed, so that destroying it frees nothing of the caller's.

use crate::error::SoftBufferError;
use crate::frame::{check_frame, frame_error, row_stride};
use crate::presenter::GraphicsContextImpl;
use vstd::prelude::*;

verus! {

/// The deepest pixel that fits the 32 bits of a packed pixel.
pub const MAX_DEPTH: i32 = 32;

/// A window by its identifier, and the display connection it belongs to by
/// its address.
///
/// Both stay the property of whoever made the window.
#[derive(Clone, Copy, Debug, PartialEq, Eq)]
pub struct XlibHandle {
    pub window: u64,
    pub display: usize,
}

impl XlibHandle {
    /// The window identifier is not zero and the display is not null.
    pub open spec fn valid(self) -> bool {
        self.window != 0 && self.display != 0
    }

    /// Tells whether the window identifier is not zero and the display is
    /// not null.
    pub fn is_valid(&self) -> (ok: bool)
        ensures
            ok == self.valid(),
    {
        self.window != 0 && self.display != 0
    }
}

/// How the pixels of an image lie in memory.
#[derive(Clone, Copy, Debug, PartialEq, Eq)]
pub enum ImageFormat {
    /// Whole pixels one after the other.
    ZPixmap,
}

/// What the server is told of the caller's pixels.
#[derive(Clone, Copy, Debug, PartialEq, Eq)]
pub struct ImageDescriptor {
    pub depth: u32,
    pub format: ImageFormat,
    /// Pixels to skip at the start of each row.
    pub offset: i32,
    pub width: u32,
    pub height: u32,
    /// Bits to which the start of each row is aligned.
    pub bitmap_pad: i32,
    /// Bytes from the start of one row to the start of the next.
    pub bytes_per_line: i32,
}

/// One step of the work that draws a frame into a window.
#[derive(Clone, Copy, Debug, PartialEq, Eq)]
pub enum BlitAction {
    /// Create an image over the caller's pixels.
    CreateImage { image: ImageDescriptor },
    /// Draw `width` by `height` pixels of the image, from `(src_x, src_y)`
    /// in it, into the window at `(dest_x, dest_y)`.
    PutImage { src_x: i32, src_y: i32, dest_x: i32, dest_y: i32, width: u32, height: u32 },
    /// Part the image from the caller's pixels.
    DetachData,
    /// Destroy the image.
    DestroyImage,
}

/// What the server is told of a frame of `width` by `height` on a screen of
/// depth `depth`: packed pixels of 32 bits, rows without padding.
pub open spec fn image_for(depth: i32, width: u16, height: u16) -> ImageDescriptor {
    ImageDescriptor {
        depth: depth as u32,
        format: ImageFormat::ZPixmap,
        offset: 0,
        width: width as u32,
        height: height as u32,
        bitmap_pad: 32,
        bytes_per_line: row_stride(width) as i32,
    }
}

/// The steps that draw a frame of `width` by `height` on a screen of depth
/// `depth`: the whole image goes to the window's origin, and the image is
/// parted from the pixels before it is destroyed.
pub open spec fn blit_plan(depth: i32, width: u16, height: u16) -> Seq<BlitAction> {
    seq![
        BlitAction::CreateImage { image: image_for(depth, width, height) },
        BlitAction::PutImage {
            src_x: 0,
            src_y: 0,
            dest_x: 0,
            dest_y: 0,
            width: width as u32,
            height: height as u32,
        },
        BlitAction::DetachData,
        BlitAction::DestroyImage,
    ]
}

/// Every plan creates the image first, draws all of it to the window's
/// origin, and parts it from the pixels before it destroys it.
pub proof fn lemma_blit_plan_order(depth: i32, width: u16, height: u16)
    ensures
        blit_plan(depth, width, height).len() == 4,
        blit_plan(depth, width, height)[0] is CreateImage,
        blit_plan(depth, width, height)[1] == (BlitAction::PutImage {
            src_x: 0,
            src_y: 0,
            dest_x: 0,
            dest_y: 0,
            width: width as u32,
            height: height as u32,
        }),
        blit_plan(depth, width, height)[2] == BlitAction::DetachData,
        blit_plan(depth, width, height)[3] == BlitAction::DestroyImage,
{
}

/// What a direct-blit backend is, as plain values.
pub struct BlitState {
    pub handle: XlibHandle,
    /// The default depth of the screen that owns the window.
    pub depth: i32,
}

impl BlitState {
    /// The handle is sound, and a pixel of the screen fits a packed pixel.
    pub open spec fn wf(self) -> bool {
        self.handle.valid() && 1 <= self.depth <= MAX_DEPTH
    }
}

/// The direct-blit backend.
#[derive(Debug)]
pub struct X11Impl {
    handle: XlibHandle,
    depth: i32,
}

impl View for X11Impl {
    type V = BlitState;

    closed spec fn view(&self) -> BlitState {
        BlitState { handle: self.handle, depth: self.depth }
    }
}

impl X11Impl {
    /// What holds of every backend at all times.
    #[verifier::type_invariant]
    spec fn inv(self) -> bool {
        self@.wf()
    }

    /// Makes a backend for the window that `handle` names, on a screen whose
    /// default depth is `depth`.
    ///
    /// A handle with a null reference is refused, and after that a depth
    /// outside `1..=32`.
    pub fn new(handle: XlibHandle, depth: i32) -> (result: Result<Self, SoftBufferError>)
        ensures
            match result {
                Ok(backend) => {
                    &&& backend@ == (BlitState { handle, depth })
                    &&& backend@.wf()
                },
                Err(e) => if !handle.valid() {
                    e == SoftBufferError::InvalidHandle
                } else {
                    e == SoftBufferError::UnsupportedDepth && !(1 <= depth <= MAX_DEPTH)
                },
            },
    {
        if !handle.is_valid() {
            return Err(SoftBufferError::InvalidHandle);
        }
        if depth < 1 || depth > MAX_DEPTH {
            return Err(SoftBufferError::UnsupportedDepth);
        }
        Ok(X11Impl { handle, depth })
    }

    /// The handle that the backend was made for.
    pub fn handle(&self) -> (handle: XlibHandle)
        ensures
            handle == self@.handle,
    {
        self.handle
    }

    /// The default depth of the screen that owns the window.
    pub fn depth(&self) -> (depth: i32)
        ensures
            depth == self@.depth,
    {
        self.depth
    }
}

impl GraphicsContextImpl for X11Impl {
    type Action = BlitAction;

    open spec fn wf(&self) -> bool {
        self@.wf()
    }

    /// Plans the drawing of `buffer` as a frame of `width` by `height`.
    ///
    /// The backend itself never changes.
    fn set_buffer(&mut self, buffer: &[u32], width: u16, height: u16) -> (result: Result<
        Vec<BlitAction>,
        SoftBufferError,
    >)
        ensures
            final(self)@ == old(self)@,
            match frame_error(buffer@.len(), width, height) {
                Some(e) => result == Err::<Vec<BlitAction>, SoftBufferError>(e),
                None => result matches Ok(actions) && actions@ == blit_plan(
                    old(self)@.depth,
                    width,
                    height,
                ),
            },
    {
        proof {
            use_type_invariant(&*self);
        }
        match check_frame(buffer.len(), width, height) {
            Err(e) => {
                return Err(e);
            },
            Ok(()) => {},
        }
        let image = ImageDescriptor {
            depth: self.depth as u32,
            format: ImageFormat::ZPixmap,
            offset: 0,
            width: width as u32,
            height: height as u32,
            bitmap_pad: 32,
            bytes_per_line: (width as i32) * 4,
        };
        let mut actions: Vec<BlitAction> = Vec::new();
        actions.push(BlitAction::CreateImage { image });
        actions.push(
            BlitAction::PutImage {
                src_x: 0,
                src_y: 0,
                dest_x: 0,
                dest_y: 0,
                width: width as u32,
                height: height as u32,
            },
        );
        actions.push(BlitAction::DetachData);
        actions.push(BlitAction::DestroyImage);
        assert(actions@ =~= blit_plan(old(self)@.depth, width, height));
        Ok(actions)
    }
}

} // verus!
