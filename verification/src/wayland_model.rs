//! What the steps of a plan do to the backing file and to the display server.
//!
//! Nothing here runs. The model gives each step of the shared-memory backend
//! a meaning, and the lemmas show what a whole plan achieves under it: the
//! file ends up holding the frame, one buffer object is left alive, and the
//! surface shows the pixels that were handed in.

use crate::frame::{byte_len, row_stride};
use crate::pixels::{
    frame_bytes, lemma_frame_bytes_chunk, lemma_pixel_round_trip, pixel_of_bytes,
};
use crate::wayland::{
    lemma_shown_frame_size, present_actions, shm_frame_error, ShmAction, ShmFormat, ShmState,
    WaylandBuffer, MAX_POOL_BYTES,
};
use vstd::arithmetic::div_mod::lemma_fundamental_div_mod;
use vstd::prelude::*;

verus! {

/// How a buffer object reads a pool: `height` rows of `width` pixels, the
/// first at byte `offset`, each `stride` bytes after the one before.
pub struct BufferLayout {
    pub offset: int,
    pub width: int,
    pub height: int,
    pub stride: int,
    pub format: ShmFormat,
}

/// What a surface shows: `height` rows of `width` pixels, row after row from
/// the top left, placed at `(x, y)`.
pub struct Picture {
    pub x: int,
    pub y: int,
    pub width: int,
    pub height: int,
    pub pixels: Seq<u32>,
}

/// The backing file and the server's side of one surface.
pub struct ShmWorld {
    /// The bytes of the backing file.
    pub file: Seq<u8>,
    /// Whether bytes were written that no flush has followed.
    pub dirty: bool,
    /// The size of the pool over the file, while one exists.
    pub pool: Option<int>,
    /// The buffer objects that are alive, by name.
    pub buffers: Map<u64, BufferLayout>,
    /// The buffer object that the next commit shows, and where.
    pub attached: Option<(u64, int, int)>,
    /// What the surface shows. `None` where nothing is known of it.
    pub shown: Option<Picture>,
}

/// `len` bytes of zero.
pub open spec fn zeros(len: int) -> Seq<u8> {
    Seq::new(len as nat, |i: int| 0u8)
}

/// A file after its length is set to `len`: cut where it was longer, filled
/// up with zeros where it was shorter.
pub open spec fn resized(file: Seq<u8>, len: int) -> Seq<u8> {
    if len <= file.len() {
        file.subrange(0, len)
    } else {
        file + zeros(len - file.len())
    }
}

/// A file after `data` is written at byte `position`: the bytes around
/// `data` stay, and a file that was too short has grown.
pub open spec fn written(file: Seq<u8>, position: int, data: Seq<u8>) -> Seq<u8> {
    let base = if file.len() < position {
        file + zeros(position - file.len())
    } else {
        file
    };
    let after = position + data.len();
    let tail = if after < base.len() {
        base.subrange(after, base.len() as int)
    } else {
        Seq::empty()
    };
    base.subrange(0, position) + data + tail
}

/// The byte at which pixel `i` of a buffer object starts, counting the
/// pixels row after row.
pub open spec fn pixel_start(layout: BufferLayout, i: int) -> int {
    layout.offset + (i / layout.width) * layout.stride + 4 * (i % layout.width)
}

/// The picture that a buffer object of `layout` makes of `file`.
pub open spec fn picture_of(file: Seq<u8>, layout: BufferLayout, x: int, y: int) -> Picture {
    Picture {
        x,
        y,
        width: layout.width,
        height: layout.height,
        pixels: Seq::new(
            (layout.width * layout.height) as nat,
            |i: int|
                pixel_of_bytes(file.subrange(pixel_start(layout, i), pixel_start(layout, i) + 4)),
        ),
    }
}

/// How the buffer object of a backend reads the pool: from its start, rows
/// of four bytes for each pixel with nothing between them.
pub open spec fn layout_of(buffer: WaylandBuffer) -> BufferLayout {
    BufferLayout {
        offset: 0,
        width: buffer.width as int,
        height: buffer.height as int,
        stride: 4 * buffer.width,
        format: ShmFormat::Xrgb8888,
    }
}

impl ShmWorld {
    /// The world before anything was done: an empty file, and nothing on the
    /// server's side.
    pub open spec fn new() -> ShmWorld {
        ShmWorld {
            file: Seq::empty(),
            dirty: false,
            pool: None,
            buffers: Map::empty(),
            attached: None,
            shown: None,
        }
    }

    /// The world after one step, where `store` is the store of the backend.
    ///
    /// A pool has to lie within the file, and a buffer object within its
    /// pool: a step that asks for more makes nothing. A commit shows what the
    /// attached buffer object reads from the file; where bytes are still
    /// unflushed, or nothing alive is attached, nothing is known of what the
    /// surface shows.
    pub open spec fn step(self, store: Seq<u8>, action: ShmAction) -> ShmWorld {
        match action {
            ShmAction::Resize { len } => ShmWorld { file: resized(self.file, len as int), ..self },
            ShmAction::CreatePool { size } => ShmWorld {
                pool: if 0 < size <= self.file.len() {
                    Some(size as int)
                } else {
                    None
                },
                ..self
            },
            ShmAction::CreateBuffer { buffer, offset, width, height, stride, format } => {
                if self.pool matches Some(size) && 0 <= offset && 0 < width && 0 < height && 4
                    * width <= stride && offset + stride * height <= size {
                    ShmWorld {
                        buffers: self.buffers.insert(
                            buffer,
                            BufferLayout {
                                offset: offset as int,
                                width: width as int,
                                height: height as int,
                                stride: stride as int,
                                format,
                            },
                        ),
                        ..self
                    }
                } else {
                    self
                }
            },
            ShmAction::DestroyPool => ShmWorld { pool: None, ..self },
            ShmAction::Release { buffer } => ShmWorld {
                buffers: self.buffers.remove(buffer),
                ..self
            },
            ShmAction::Write { position, len } => ShmWorld {
                file: written(
                    self.file,
                    position as int,
                    store.subrange(
                        0,
                        if len <= store.len() {
                            len as int
                        } else {
                            store.len() as int
                        },
                    ),
                ),
                dirty: true,
                ..self
            },
            ShmAction::Flush => ShmWorld { dirty: false, ..self },
            ShmAction::Attach { buffer, x, y } => ShmWorld {
                attached: Some((buffer, x as int, y as int)),
                ..self
            },
            ShmAction::Commit => ShmWorld {
                shown: match self.attached {
                    Some((buffer, x, y)) => if !self.dirty && self.buffers.dom().contains(buffer) {
                        Some(picture_of(self.file, self.buffers[buffer], x, y))
                    } else {
                        None
                    },
                    None => None,
                },
                ..self
            },
        }
    }

    /// The world after the steps of `actions`, one after the other.
    pub open spec fn run(self, store: Seq<u8>, actions: Seq<ShmAction>) -> ShmWorld
        decreases actions.len(),
    {
        if actions.len() == 0 {
            self
        } else {
            self.run(store, actions.drop_last()).step(store, actions.last())
        }
    }

    /// The world is what the backend takes it to be: the file is as long as
    /// the store, no pool is left over, no write is unflushed, and the buffer
    /// object of the backend is alive with the layout of its frame, and no
    /// other.
    pub open spec fn mirrors(self, state: ShmState) -> bool {
        &&& self.file.len() == state.store.len()
        &&& !self.dirty
        &&& self.pool is None
        &&& self.buffers == match state.buffer {
            Some(b) => Map::<u64, BufferLayout>::empty().insert(b.buffer, layout_of(b)),
            None => Map::<u64, BufferLayout>::empty(),
        }
    }

    /// Running one more step after `actions`.
    pub proof fn lemma_run_push(self, store: Seq<u8>, actions: Seq<ShmAction>, action: ShmAction)
        ensures
            self.run(store, actions.push(action)) == self.run(store, actions).step(store, action),
    {
        assert(actions.push(action).drop_last() =~= actions);
    }

    /// Running the steps of `first` and then those of `second`.
    pub proof fn lemma_run_concat(self, store: Seq<u8>, first: Seq<ShmAction>, second: Seq<ShmAction>)
        ensures
            self.run(store, first + second) == self.run(store, first).run(store, second),
        decreases second.len(),
    {
        if second.len() == 0 {
            assert(first + second =~= first);
        } else {
            self.lemma_run_concat(store, first, second.drop_last());
            assert((first + second).drop_last() =~= first + second.drop_last());
        }
    }
}

/// In rows of four bytes for each pixel with nothing between them, pixel
/// `i` starts at byte `4 * i`.
proof fn lemma_packed_pixel_start(width: int, height: int, i: int)
    requires
        0 < width,
        0 <= i,
    ensures
        pixel_start(
            BufferLayout { offset: 0, width, height, stride: 4 * width, format: ShmFormat::Xrgb8888 },
            i,
        ) == 4 * i,
{
    lemma_fundamental_div_mod(i, width);
    assert((i / width) * (4 * width) == 4 * (width * (i / width))) by (nonlinear_arith);
}

/// A buffer object that reads a file of packed rows makes the picture whose
/// bytes the file holds.
proof fn lemma_picture_of_frame(pixels: Seq<u32>, width: int, height: int, x: int, y: int)
    requires
        0 < width,
        0 < height,
        pixels.len() == width * height,
    ensures
        picture_of(
            frame_bytes(pixels),
            BufferLayout { offset: 0, width, height, stride: 4 * width, format: ShmFormat::Xrgb8888 },
            x,
            y,
        ) == (Picture { x, y, width, height, pixels }),
{
    let layout = BufferLayout {
        offset: 0,
        width,
        height,
        stride: 4 * width,
        format: ShmFormat::Xrgb8888,
    };
    let read = picture_of(frame_bytes(pixels), layout, x, y);
    assert forall|i: int| 0 <= i < pixels.len() implies read.pixels[i] == pixels[i] by {
        lemma_packed_pixel_start(width, height, i);
        lemma_frame_bytes_chunk(pixels, i);
        lemma_pixel_round_trip(pixels[i]);
    }
    assert(read.pixels =~= pixels);
}

impl ShmWorld {
    /// The steps that replace the store leave a file of the length of the
    /// frame and a buffer object that reads it in packed rows; the buffer
    /// object of the frame before is gone.
    proof fn lemma_resize_prepares(self, state: ShmState, store: Seq<u8>, width: u16, height: u16)
        requires
            state.wf(),
            0 < width,
            0 < height,
            0 < byte_len(width, height) <= MAX_POOL_BYTES,
            !state.holds(width, height),
        ensures
            ({
                let then = self.run(store, state.resize_actions(width, height));
                let made = state.buffer_for(width, height);
                &&& then.file.len() == byte_len(width, height)
                &&& then.dirty == self.dirty
                &&& then.pool is None
                &&& then.attached == self.attached
                &&& then.shown == self.shown
                &&& then.buffers == match state.buffer {
                    Some(b) => self.buffers.insert(made.buffer, layout_of(made)).remove(b.buffer),
                    None => self.buffers.insert(made.buffer, layout_of(made)),
                }
            }),
    {
        let len = byte_len(width, height);
        let none = Seq::<ShmAction>::empty();
        let resize = ShmAction::Resize { len: len as u64 };
        let pool = ShmAction::CreatePool { size: len as i32 };
        let create = ShmAction::CreateBuffer {
            buffer: state.allocations,
            offset: 0,
            width: width as i32,
            height: height as i32,
            stride: row_stride(width) as i32,
            format: ShmFormat::Xrgb8888,
        };
        let r1 = none.push(resize);
        let r2 = r1.push(pool);
        let r3 = r2.push(create);
        let r4 = r3.push(ShmAction::DestroyPool);
        self.lemma_run_push(store, none, resize);
        self.lemma_run_push(store, r1, pool);
        self.lemma_run_push(store, r2, create);
        self.lemma_run_push(store, r3, ShmAction::DestroyPool);
        assert((4 * width) * height == 4 * (width * height)) by (nonlinear_arith);
        match state.buffer {
            Some(b) => {
                let release = ShmAction::Release { buffer: b.buffer };
                assert(r4.push(release) =~= state.resize_actions(width, height));
                self.lemma_run_push(store, r4, release);
            },
            None => {
                assert(r4 =~= state.resize_actions(width, height));
            },
        }
    }

    /// Where the file is as long as the store and a buffer object reads it in
    /// packed rows, the steps that present leave the store in the file and
    /// the frame on the surface, at the origin.
    proof fn lemma_present_shows(
        self,
        pixels: Seq<u32>,
        buffer: u64,
        width: int,
        height: int,
    )
        requires
            0 < width,
            0 < height,
            pixels.len() == width * height,
            4 * pixels.len() <= u64::MAX,
            self.file.len() == 4 * pixels.len(),
            self.buffers.dom().contains(buffer),
            self.buffers[buffer] == (BufferLayout {
                offset: 0,
                width,
                height,
                stride: 4 * width,
                format: ShmFormat::Xrgb8888,
            }),
        ensures
            ({
                let end = self.run(
                    frame_bytes(pixels),
                    present_actions(buffer, 4 * pixels.len()),
                );
                &&& end.file == frame_bytes(pixels)
                &&& !end.dirty
                &&& end.pool == self.pool
                &&& end.buffers == self.buffers
                &&& end.attached == Some((buffer, 0int, 0int))
                &&& end.shown == Some(Picture { x: 0, y: 0, width, height, pixels })
            }),
    {
        let store = frame_bytes(pixels);
        let len = 4 * pixels.len();
        let none = Seq::<ShmAction>::empty();
        let write = ShmAction::Write { position: 0, len: len as u64 };
        let attach = ShmAction::Attach { buffer, x: 0, y: 0 };
        let p1 = none.push(write);
        let p2 = p1.push(ShmAction::Flush);
        let p3 = p2.push(attach);
        let p4 = p3.push(ShmAction::Commit);
        assert(p4 =~= present_actions(buffer, len));
        self.lemma_run_push(store, none, write);
        self.lemma_run_push(store, p1, ShmAction::Flush);
        self.lemma_run_push(store, p2, attach);
        self.lemma_run_push(store, p3, ShmAction::Commit);
        assert(store.subrange(0, len as int) =~= store);
        assert(self.run(store, p1).file =~= store);
        lemma_picture_of_frame(pixels, width, height, 0, 0);
    }

    /// Performing the plan of a frame shows the frame: the file then holds
    /// exactly the bytes of the pixels, and the surface shows the pixels at
    /// their own size, from the top left, row after row.
    ///
    /// This holds of a backend without a store whatever the world was, and
    /// of any backend in a world that mirrors it; the world then mirrors the
    /// backend again, so that one buffer object is alive and no pool.
    pub proof fn lemma_plan_shows_frame(
        self,
        state: ShmState,
        pixels: Seq<u32>,
        width: u16,
        height: u16,
    )
        requires
            state.wf(),
            shm_frame_error(pixels.len(), width, height) is None,
            state.buffer is Some ==> self.mirrors(state),
        ensures
            ({
                let after = state.after_frame(pixels, width, height);
                let end = self.run(after.store, state.plan(width, height));
                &&& end.file == frame_bytes(pixels)
                &&& end.shown == Some(
                    Picture { x: 0, y: 0, width: width as int, height: height as int, pixels },
                )
                &&& end.buffers.dom().contains(after.buffer->0.buffer)
                &&& self.mirrors(state) ==> end.mirrors(after)
            }),
    {
        lemma_shown_frame_size(pixels.len(), width, height);
        let after = state.after_frame(pixels, width, height);
        let store = after.store;
        let shown = state.buffer_for(width, height);
        let resize = state.resize_actions(width, height);
        let present = present_actions(shown.buffer, byte_len(width, height));
        self.lemma_run_concat(store, resize, present);
        let then = self.run(store, resize);
        if state.holds(width, height) {
            assert(then == self);
        } else {
            self.lemma_resize_prepares(state, store, width, height);
        }
        then.lemma_present_shows(pixels, shown.buffer, width as int, height as int);
        let end = then.run(store, present);
        if self.mirrors(state) {
            assert(end.buffers =~= Map::<u64, BufferLayout>::empty().insert(
                shown.buffer,
                layout_of(shown),
            ));
        }
    }

    /// Performing the steps that give up the store leaves no buffer object
    /// alive and no byte in the file, in a world that mirrored the backend.
    pub proof fn lemma_release_leaves_nothing(self, state: ShmState)
        requires
            state.wf(),
            self.mirrors(state),
        ensures
            ({
                let end = self.run(Seq::empty(), state.release_actions());
                &&& state.after_release().wf()
                &&& end.mirrors(state.after_release())
                &&& end.file.len() == 0
                &&& end.buffers.dom() == Set::<u64>::empty()
                &&& end.pool is None
            }),
    {
        let store = Seq::<u8>::empty();
        let none = Seq::<ShmAction>::empty();
        match state.buffer {
            Some(b) => {
                let release = ShmAction::Release { buffer: b.buffer };
                let empty = ShmAction::Resize { len: 0 };
                assert(none.push(release).push(empty) =~= state.release_actions());
                self.lemma_run_push(store, none, release);
                self.lemma_run_push(store, none.push(release), empty);
                let end = self.run(store, state.release_actions());
                assert(end.buffers =~= Map::<u64, BufferLayout>::empty());
                assert(end.buffers.dom() =~= Set::<u64>::empty());
            },
            None => {
                assert(self.buffers.dom() =~= Set::<u64>::empty());
            },
        }
    }

    /// A new backend mirrors a world in which nothing was done yet.
    pub proof fn lemma_new_mirrors(state: ShmState)
        requires
            state.buffer is None,
            state.store.len() == 0,
        ensures
            ShmWorld::new().mirrors(state),
    {
    }
}

} // verus!
