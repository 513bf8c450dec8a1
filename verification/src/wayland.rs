//! The shared-memory backend.
//!
//! The backend keeps one backing store, sized to the frame it showed last,
//! and one buffer object of the display server that describes it. Both are
//! made when the first frame arrives and made anew only when a frame comes
//! with other dimensions; every other frame is written over the one before.
//!
//! The store is held here as bytes. The caller mirrors it into the file that
//! the server maps, and performs the protocol requests that a plan names.

use crate::error::SoftBufferError;
use crate::frame::{byte_len, check_frame, frame_error, frame_pixel_count, pixel_count, row_stride};
use crate::pixels::{frame_bytes, lemma_frame_bytes_chunk, pixel_bytes, write_frame};
use crate::presenter::GraphicsContextImpl;
use vstd::prelude::*;

verus! {

/// The largest size in bytes that a shared-memory pool can be given.
pub const MAX_POOL_BYTES: i32 = 0x7fff_ffff;

/// The version of the shared-memory interface that a backend is made with.
pub const SHM_VERSION: u32 = 1;

/// A surface and the display connection it belongs to, each by its address.
///
/// Both stay the property of whoever made the window.
#[derive(Clone, Copy, Debug, PartialEq, Eq)]
pub struct WaylandHandle {
    pub surface: usize,
    pub display: usize,
}

impl WaylandHandle {
    /// Neither reference is null.
    pub open spec fn valid(self) -> bool {
        self.surface != 0 && self.display != 0
    }

    /// Tells whether neither reference is null.
    pub fn is_valid(&self) -> (ok: bool)
        ensures
            ok == self.valid(),
    {
        self.surface != 0 && self.display != 0
    }
}

/// How the server reads the four bytes of a pixel.
#[derive(Clone, Copy, Debug, PartialEq, Eq)]
pub enum ShmFormat {
    /// Blue, green, red, then a byte that is ignored: 32 bits, no alpha.
    Xrgb8888,
}

/// The buffer object that describes the current backing store.
#[derive(Clone, Copy, Debug, PartialEq, Eq)]
pub struct WaylandBuffer {
    pub width: i32,
    pub height: i32,
    /// Names the buffer object: no two allocations in a row share it.
    pub buffer: u64,
}

/// One step of the work that shows a frame through shared memory.
#[derive(Clone, Copy, Debug, PartialEq, Eq)]
pub enum ShmAction {
    /// Set the length of the backing file to exactly `len` bytes.
    Resize { len: u64 },
    /// Create a pool of `size` bytes over the backing file.
    CreatePool { size: i32 },
    /// Create the buffer object `buffer` in the pool just created.
    CreateBuffer { buffer: u64, offset: i32, width: i32, height: i32, stride: i32, format: ShmFormat },
    /// Destroy the pool just created. The buffer object made in it lives on.
    DestroyPool,
    /// Destroy the buffer object `buffer`.
    Release { buffer: u64 },
    /// Write the first `len` bytes of the store into the backing file,
    /// starting at byte `position` of the file.
    Write { position: u64, len: u64 },
    /// Flush the backing file.
    Flush,
    /// Attach the buffer object `buffer` to the surface at `(x, y)`.
    Attach { buffer: u64, x: i32, y: i32 },
    /// Commit the surface.
    Commit,
}

/// The name that follows `buffer` when buffer objects are numbered.
pub open spec fn next_buffer(buffer: u64) -> u64 {
    if buffer == u64::MAX {
        0
    } else {
        (buffer + 1) as u64
    }
}

/// The steps that show a store of `len` bytes through the buffer object
/// `buffer`: the bytes are written and flushed before the buffer is attached,
/// and the surface is committed last.
pub open spec fn present_actions(buffer: u64, len: nat) -> Seq<ShmAction> {
    seq![
        ShmAction::Write { position: 0, len: len as u64 },
        ShmAction::Flush,
        ShmAction::Attach { buffer, x: 0, y: 0 },
        ShmAction::Commit,
    ]
}

/// The reason for which the shared-memory backend refuses a frame, or `None`
/// where it shows it: what every backend refuses, and a frame whose bytes a
/// pool cannot address.
pub open spec fn shm_frame_error(len: nat, width: u16, height: u16) -> Option<SoftBufferError> {
    match frame_error(len, width, height) {
        Some(e) => Some(e),
        None => if byte_len(width, height) > MAX_POOL_BYTES {
            Some(SoftBufferError::FrameTooLarge)
        } else {
            None
        },
    }
}

/// Checks a frame of `len` pixels that is announced as `width` by `height`,
/// and computes the size in bytes of the pool that holds it.
pub fn pool_size(len: usize, width: u16, height: u16) -> (result: Result<i32, SoftBufferError>)
    ensures
        result == match shm_frame_error(len as nat, width, height) {
            Some(e) => Err::<i32, SoftBufferError>(e),
            None => Ok(byte_len(width, height) as i32),
        },
{
    match check_frame(len, width, height) {
        Err(e) => {
            return Err(e);
        },
        Ok(()) => {},
    }
    let count: u64 = frame_pixel_count(width, height);
    if 4 * count > MAX_POOL_BYTES as u64 {
        return Err(SoftBufferError::FrameTooLarge);
    }
    Ok((4 * count) as i32)
}

/// What a shared-memory backend is, as plain values.
pub struct ShmState {
    pub handle: WaylandHandle,
    /// The buffer object that is alive, if one is.
    pub buffer: Option<WaylandBuffer>,
    /// The bytes of the backing store.
    pub store: Seq<u8>,
    /// The name that the next buffer object gets. It moves on by one with
    /// each allocation.
    pub allocations: u64,
}

impl ShmState {
    /// The store is exactly as long as the frame that the buffer object
    /// describes, and empty while there is none.
    pub open spec fn wf(self) -> bool {
        &&& self.handle.valid()
        &&& match self.buffer {
            Some(b) => {
                &&& 0 < b.width <= u16::MAX
                &&& 0 < b.height <= u16::MAX
                &&& 4 * (b.width * b.height) <= MAX_POOL_BYTES
                &&& self.store.len() == 4 * (b.width * b.height)
                &&& next_buffer(b.buffer) == self.allocations
            },
            None => self.store.len() == 0,
        }
    }

    /// The store is allocated for frames of `width` by `height`.
    pub open spec fn holds(self, width: u16, height: u16) -> bool {
        self.buffer matches Some(b) && b.width == width && b.height == height
    }

    /// The buffer object that shows a frame of `width` by `height`: the
    /// current one where the dimensions are the current ones, else a new one.
    pub open spec fn buffer_for(self, width: u16, height: u16) -> WaylandBuffer {
        if self.holds(width, height) {
            self.buffer->0
        } else {
            WaylandBuffer { width: width as i32, height: height as i32, buffer: self.allocations }
        }
    }

    /// The steps that replace the store and its buffer object for frames of
    /// `width` by `height`; none where the dimensions are the current ones.
    pub open spec fn resize_actions(self, width: u16, height: u16) -> Seq<ShmAction> {
        if self.holds(width, height) {
            Seq::empty()
        } else {
            let fresh = seq![
                ShmAction::Resize { len: byte_len(width, height) as u64 },
                ShmAction::CreatePool { size: byte_len(width, height) as i32 },
                ShmAction::CreateBuffer {
                    buffer: self.allocations,
                    offset: 0,
                    width: width as i32,
                    height: height as i32,
                    stride: row_stride(width) as i32,
                    format: ShmFormat::Xrgb8888,
                },
                ShmAction::DestroyPool,
            ];
            match self.buffer {
                Some(b) => fresh.push(ShmAction::Release { buffer: b.buffer }),
                None => fresh,
            }
        }
    }

    /// The steps that show a frame of `width` by `height`.
    pub open spec fn plan(self, width: u16, height: u16) -> Seq<ShmAction> {
        self.resize_actions(width, height) + present_actions(
            self.buffer_for(width, height).buffer,
            byte_len(width, height),
        )
    }

    /// The backend after it has planned `pixels` as a frame of `width` by
    /// `height`.
    pub open spec fn after_frame(self, pixels: Seq<u32>, width: u16, height: u16) -> ShmState {
        ShmState {
            handle: self.handle,
            buffer: Some(self.buffer_for(width, height)),
            store: frame_bytes(pixels),
            allocations: if self.holds(width, height) {
                self.allocations
            } else {
                next_buffer(self.allocations)
            },
        }
    }

    /// The steps that give up the store and its buffer object: the buffer
    /// object is destroyed and the backing file emptied.
    pub open spec fn release_actions(self) -> Seq<ShmAction> {
        match self.buffer {
            Some(b) => seq![ShmAction::Release { buffer: b.buffer }, ShmAction::Resize { len: 0 }],
            None => Seq::empty(),
        }
    }

    /// The backend after it has given up the store and its buffer object.
    pub open spec fn after_release(self) -> ShmState {
        ShmState {
            handle: self.handle,
            buffer: None,
            store: Seq::empty(),
            allocations: self.allocations,
        }
    }
}

/// What every backend refuses, this backend refuses for the same reason; and a
/// frame without area is refused whatever else holds of it.
pub proof fn lemma_refuses_what_all_refuse(len: nat, width: u16, height: u16)
    ensures
        frame_error(len, width, height) is Some ==> shm_frame_error(len, width, height)
            == frame_error(len, width, height),
        width == 0 || height == 0 ==> shm_frame_error(len, width, height) is Some,
{
}

/// A frame that this backend shows has pixels, and as many bytes as its
/// dimensions say.
pub proof fn lemma_shown_frame_size(len: nat, width: u16, height: u16)
    requires
        shm_frame_error(len, width, height) is None,
    ensures
        width > 0,
        height > 0,
        len == pixel_count(width, height),
        4 * len == byte_len(width, height),
        0 < byte_len(width, height) <= MAX_POOL_BYTES,
        (width as i32) * (height as i32) == pixel_count(width, height),
{
    assert((width as nat) * (height as nat) > 0) by (nonlinear_arith)
        requires
            width > 0,
            height > 0,
    ;
}

impl ShmState {
    /// Planning a frame keeps the backend sound.
    pub proof fn lemma_after_frame_wf(self, pixels: Seq<u32>, width: u16, height: u16)
        requires
            self.wf(),
            shm_frame_error(pixels.len(), width, height) is None,
        ensures
            self.after_frame(pixels, width, height).wf(),
    {
        lemma_shown_frame_size(pixels.len(), width, height);
    }

    /// After a frame the store holds exactly the bytes of its pixels: four
    /// for each pixel, the lowest first, pixel after pixel and row after
    /// row, `4 * width * height` bytes in all and none for padding.
    pub proof fn lemma_store_holds_frame(self, pixels: Seq<u32>, width: u16, height: u16)
        requires
            self.wf(),
            shm_frame_error(pixels.len(), width, height) is None,
        ensures
            self.after_frame(pixels, width, height).store == frame_bytes(pixels),
            self.after_frame(pixels, width, height).store.len() == byte_len(width, height),
            self.after_frame(pixels, width, height).holds(width, height),
            forall|i: int|
                0 <= i < pixels.len() ==> #[trigger] self.after_frame(
                    pixels,
                    width,
                    height,
                ).store.subrange(4 * i, 4 * i + 4) == pixel_bytes(pixels[i]),
    {
        lemma_shown_frame_size(pixels.len(), width, height);
        assert forall|i: int| 0 <= i < pixels.len() implies #[trigger] frame_bytes(
            pixels,
        ).subrange(4 * i, 4 * i + 4) == pixel_bytes(pixels[i]) by {
            lemma_frame_bytes_chunk(pixels, i);
        }
    }

    /// A second frame with the dimensions of the first is shown through the
    /// buffer object of the first: nothing is allocated, and the plan only
    /// writes, flushes, attaches and commits.
    pub proof fn lemma_same_size_keeps_buffer(
        self,
        first: Seq<u32>,
        second: Seq<u32>,
        width: u16,
        height: u16,
    )
        requires
            self.wf(),
            shm_frame_error(first.len(), width, height) is None,
            second.len() == first.len(),
        ensures
            ({
                let once = self.after_frame(first, width, height);
                let twice = once.after_frame(second, width, height);
                &&& twice.buffer == once.buffer
                &&& twice.allocations == once.allocations
                &&& twice.store == frame_bytes(second)
                &&& once.plan(width, height) == present_actions(
                    once.buffer->0.buffer,
                    byte_len(width, height),
                )
            }),
    {
        let once = self.after_frame(first, width, height);
        assert(once.holds(width, height));
        assert(once.plan(width, height) =~= present_actions(
            once.buffer->0.buffer,
            byte_len(width, height),
        ));
    }

    /// A frame with other dimensions than the one before gets a store of
    /// exactly `4 * width * height` bytes and a buffer object of its own,
    /// and the plan destroys the buffer object of the frame before.
    pub proof fn lemma_new_size_replaces_buffer(self, pixels: Seq<u32>, width: u16, height: u16)
        requires
            self.wf(),
            shm_frame_error(pixels.len(), width, height) is None,
            !self.holds(width, height),
        ensures
            ({
                let after = self.after_frame(pixels, width, height);
                &&& after.store.len() == byte_len(width, height)
                &&& after.buffer == Some(
                    WaylandBuffer {
                        width: width as i32,
                        height: height as i32,
                        buffer: self.allocations,
                    },
                )
                &&& after.allocations == next_buffer(self.allocations)
                &&& self.plan(width, height)[0] == (ShmAction::Resize {
                    len: byte_len(width, height) as u64,
                })
                &&& self.buffer matches Some(b) ==> {
                    &&& after.buffer->0.buffer != b.buffer
                    &&& self.plan(width, height)[4] == (ShmAction::Release { buffer: b.buffer })
                }
            }),
    {
        lemma_shown_frame_size(pixels.len(), width, height);
    }

    /// In every plan the bytes of the frame are written and flushed before
    /// the buffer object that describes them is attached, the commit comes
    /// last, and nothing before the write touches the surface.
    pub proof fn lemma_plan_writes_before_attach(self, pixels: Seq<u32>, width: u16, height: u16)
        requires
            self.wf(),
            shm_frame_error(pixels.len(), width, height) is None,
        ensures
            ({
                let plan = self.plan(width, height);
                let after = self.after_frame(pixels, width, height);
                let n = plan.len() as int;
                &&& n >= 4
                &&& plan[n - 4] == (ShmAction::Write {
                    position: 0,
                    len: after.store.len() as u64,
                })
                &&& plan[n - 3] == ShmAction::Flush
                &&& plan[n - 2] == (ShmAction::Attach { buffer: after.buffer->0.buffer, x: 0, y: 0 })
                &&& plan[n - 1] == ShmAction::Commit
                &&& forall|i: int|
                    0 <= i < n - 4 ==> !(#[trigger] plan[i] is Write) && !(plan[i] is Flush) && !(
                    plan[i] is Attach) && !(plan[i] is Commit)
            }),
    {
        lemma_shown_frame_size(pixels.len(), width, height);
    }
}

/// The shared-memory backend.
#[derive(Debug)]
pub struct WaylandImpl {
    handle: WaylandHandle,
    store: Vec<u8>,
    buffer: Option<WaylandBuffer>,
    allocations: u64,
}

impl View for WaylandImpl {
    type V = ShmState;

    closed spec fn view(&self) -> ShmState {
        ShmState {
            handle: self.handle,
            buffer: self.buffer,
            store: self.store@,
            allocations: self.allocations,
        }
    }
}

impl WaylandImpl {
    /// What holds of every backend at all times.
    #[verifier::type_invariant]
    spec fn inv(self) -> bool {
        self@.wf()
    }

    /// Makes a backend for the surface that `handle` names. It has no store
    /// yet.
    ///
    /// A handle with a null reference is refused.
    pub fn new(handle: WaylandHandle) -> (result: Result<Self, SoftBufferError>)
        ensures
            match result {
                Ok(backend) => handle.valid() && backend@.wf() && backend@ == (ShmState {
                    handle,
                    buffer: None,
                    store: Seq::empty(),
                    allocations: 0,
                }),
                Err(e) => !handle.valid() && e == SoftBufferError::InvalidHandle,
            },
    {
        if !handle.is_valid() {
            return Err(SoftBufferError::InvalidHandle);
        }
        let store: Vec<u8> = Vec::new();
        assert(store@ =~= Seq::empty());
        Ok(WaylandImpl { handle, store, buffer: None, allocations: 0 })
    }

    /// The handle that the backend was made for.
    pub fn handle(&self) -> (handle: WaylandHandle)
        ensures
            handle == self@.handle,
    {
        self.handle
    }

    /// The buffer object that is alive, if one is.
    pub fn buffer(&self) -> (buffer: Option<WaylandBuffer>)
        ensures
            buffer == self@.buffer,
    {
        self.buffer
    }

    /// The bytes of the backing store.
    pub fn store(&self) -> (bytes: &[u8])
        ensures
            bytes@ == self@.store,
    {
        self.store.as_slice()
    }

    /// How many times a store has been allocated, counted round the range of
    /// `u64`.
    pub fn allocations(&self) -> (count: u64)
        ensures
            count == self@.allocations,
    {
        self.allocations
    }

    /// Tells whether the store is allocated for frames of `width` by
    /// `height`.
    pub fn check_buffer_size_equals(&self, width: i32, height: i32) -> (equal: bool)
        ensures
            equal == (self@.buffer matches Some(b) && b.width == width && b.height == height),
    {
        match &self.buffer {
            Some(buffer) => buffer.width == width && buffer.height == height,
            None => false,
        }
    }

    /// Allocates the store and its buffer object anew for frames of `width`
    /// by `height`, unless it is allocated for them already, and returns the
    /// steps that do the same on the server's side.
    ///
    /// A new store holds zeros.
    fn ensure_buffer_size(&mut self, width: i32, height: i32) -> (actions: Vec<ShmAction>)
        requires
            0 < width <= u16::MAX,
            0 < height <= u16::MAX,
            byte_len(width as u16, height as u16) <= MAX_POOL_BYTES,
        ensures
            old(self)@.wf(),
            final(self)@.wf(),
            actions@ == old(self)@.resize_actions(width as u16, height as u16),
            final(self)@.handle == old(self)@.handle,
            final(self)@.buffer == Some(old(self)@.buffer_for(width as u16, height as u16)),
            final(self)@.allocations == old(self)@.after_frame(
                Seq::empty(),
                width as u16,
                height as u16,
            ).allocations,
            final(self)@.store.len() == byte_len(width as u16, height as u16),
            old(self)@.holds(width as u16, height as u16) ==> final(self)@ == old(self)@,
            !old(self)@.holds(width as u16, height as u16) ==> final(self)@.store == Seq::new(
                byte_len(width as u16, height as u16),
                |i: int| 0u8,
            ),
    {
        proof {
            use_type_invariant(&*self);
        }
        let mut actions: Vec<ShmAction> = Vec::new();
        if !self.check_buffer_size_equals(width, height) {
            assert(width * height == pixel_count(width as u16, height as u16));
            assert(0 <= width * height <= 4 * (width * height)) by (nonlinear_arith)
                requires
                    0 < width,
                    0 < height,
            ;
            let size: i32 = width * height * 4;
            let id: u64 = self.allocations;
            actions.push(ShmAction::Resize { len: size as u64 });
            actions.push(ShmAction::CreatePool { size });
            actions.push(
                ShmAction::CreateBuffer {
                    buffer: id,
                    offset: 0,
                    width,
                    height,
                    stride: width * 4,
                    format: ShmFormat::Xrgb8888,
                },
            );
            actions.push(ShmAction::DestroyPool);
            match self.buffer {
                Some(previous) => {
                    actions.push(ShmAction::Release { buffer: previous.buffer });
                },
                None => {},
            }
            let store: Vec<u8> = vec![0u8; size as usize];
            *self = WaylandImpl {
                handle: self.handle,
                store,
                buffer: Some(WaylandBuffer { width, height, buffer: id }),
                allocations: if id == u64::MAX {
                    0
                } else {
                    id + 1
                },
            };
            assert(actions@ =~= old(self)@.resize_actions(width as u16, height as u16));
            assert(self@.store =~= Seq::new(
                byte_len(width as u16, height as u16),
                |i: int| 0u8,
            ));
        } else {
            assert(width * height == pixel_count(width as u16, height as u16));
            assert(actions@ =~= old(self)@.resize_actions(width as u16, height as u16));
        }
        actions
    }

    /// Takes the store out of the backend, which is left without one until
    /// a store is put back.
    fn take_store(&mut self) -> (store: Vec<u8>)
        ensures
            store@ == old(self)@.store,
            final(self)@ == old(self)@.after_release(),
    {
        proof {
            use_type_invariant(&*self);
        }
        let empty: Vec<u8> = Vec::new();
        assert(empty@ =~= Seq::empty());
        let mut taken = WaylandImpl {
            handle: self.handle,
            store: empty,
            buffer: None,
            allocations: self.allocations,
        };
        std::mem::swap(&mut taken, self);
        taken.store
    }

    /// Gives up the store and its buffer object, and returns the steps that
    /// do the same on the server's side.
    ///
    /// This is what ends the life of a backend, and what follows a step that
    /// could not be performed: the next frame then starts from nothing.
    pub fn release(&mut self) -> (actions: Vec<ShmAction>)
        ensures
            old(self)@.wf(),
            final(self)@.wf(),
            final(self)@ == old(self)@.after_release(),
            actions@ == old(self)@.release_actions(),
    {
        proof {
            use_type_invariant(&*self);
        }
        let mut actions: Vec<ShmAction> = Vec::new();
        match self.buffer {
            Some(previous) => {
                actions.push(ShmAction::Release { buffer: previous.buffer });
                actions.push(ShmAction::Resize { len: 0 });
            },
            None => {},
        }
        let store: Vec<u8> = Vec::new();
        assert(store@ =~= Seq::empty());
        *self = WaylandImpl {
            handle: self.handle,
            store,
            buffer: None,
            allocations: self.allocations,
        };
        assert(actions@ =~= old(self)@.release_actions());
        actions
    }
}

impl GraphicsContextImpl for WaylandImpl {
    type Action = ShmAction;

    open spec fn wf(&self) -> bool {
        self@.wf()
    }

    /// Plans the presentation of `buffer` as a frame of `width` by `height`.
    ///
    /// The store and its buffer object are made anew exactly when the
    /// dimensions are not those of the frame before. The store then holds the
    /// bytes of `buffer`, four for each pixel and lowest first, with no
    /// padding. The plan writes and flushes them before it attaches the
    /// buffer object at the origin and commits.
    fn set_buffer(&mut self, buffer: &[u32], width: u16, height: u16) -> (result: Result<
        Vec<ShmAction>,
        SoftBufferError,
    >)
        ensures
            match shm_frame_error(buffer@.len(), width, height) {
                Some(e) => result == Err::<Vec<ShmAction>, SoftBufferError>(e) && final(self)@
                    == old(self)@,
                None => {
                    &&& result matches Ok(actions)
                    &&& actions@ == old(self)@.plan(width, height)
                    &&& final(self)@ == old(self)@.after_frame(buffer@, width, height)
                },
            },
    {
        proof {
            use_type_invariant(&*self);
        }
        match pool_size(buffer.len(), width, height) {
            Err(e) => {
                return Err(e);
            },
            Ok(_) => {},
        }
        let mut actions: Vec<ShmAction> = self.ensure_buffer_size(width as i32, height as i32);
        let shown: WaylandBuffer = self.buffer.unwrap();
        let mut store: Vec<u8> = self.take_store();
        write_frame(&mut store, buffer);
        let len: u64 = store.len() as u64;
        *self = WaylandImpl {
            handle: self.handle,
            store,
            buffer: Some(shown),
            allocations: self.allocations,
        };
        actions.push(ShmAction::Write { position: 0, len });
        actions.push(ShmAction::Flush);
        actions.push(ShmAction::Attach { buffer: shown.buffer, x: 0, y: 0 });
        actions.push(ShmAction::Commit);
        assert(actions@ =~= old(self)@.plan(width, height));
        Ok(actions)
    }
}

} // verus!
