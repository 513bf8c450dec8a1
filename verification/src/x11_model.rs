//! What the steps of a plan do to a window and to the caller's pixels.
//!
//! Nothing here runs. The model gives each step of the direct-blit backend a
//! meaning, and the lemma shows what a whole plan achieves under it: the
//! window shows the frame, no image is left alive, and the caller's pixels
//! are not freed.

use crate::frame::{frame_error, lemma_pixel_count_bound};
use crate::x11::{blit_plan, image_for, BlitAction, ImageDescriptor};
use vstd::prelude::*;

verus! {

/// A window and the image that is being drawn into it.
pub struct BlitWorld {
    /// The image that is alive, if one is, and whether it still points at
    /// the caller's pixels.
    pub image: Option<(ImageDescriptor, bool)>,
    /// What the window shows, place by place; a place that is missing is
    /// one of which nothing is known.
    pub window: Map<(int, int), u32>,
    /// Whether an image was destroyed while it pointed at the caller's
    /// pixels, which frees them.
    pub freed: bool,
}

/// The pixel at `(x, y)` of an image over `pixels`.
pub open spec fn image_pixel(pixels: Seq<u32>, image: ImageDescriptor, x: int, y: int) -> u32 {
    pixels[y * (image.bytes_per_line / 4) + image.offset + x]
}

/// Whether `place` lies in the rectangle of `width` by `height` at
/// `(left, top)`.
pub open spec fn within(place: (int, int), left: int, top: int, width: int, height: int) -> bool {
    left <= place.0 < left + width && top <= place.1 < top + height
}

impl BlitWorld {
    /// The world after one step, where `pixels` are the caller's.
    ///
    /// Drawing takes an image that points at pixels and holds the rectangle
    /// that is asked for; else it draws nothing. Destroying an image that
    /// still points at the caller's pixels frees them.
    pub open spec fn step(self, pixels: Seq<u32>, action: BlitAction) -> BlitWorld {
        match action {
            BlitAction::CreateImage { image } => BlitWorld { image: Some((image, true)), ..self },
            BlitAction::PutImage { src_x, src_y, dest_x, dest_y, width, height } => match self.image {
                Some((image, attached)) => if attached && 0 <= src_x && 0 <= src_y && src_x + width
                    <= image.width && src_y + height <= image.height {
                    BlitWorld {
                        window: Map::new(
                            |place: (int, int)|
                                self.window.dom().contains(place) || within(
                                    place,
                                    dest_x as int,
                                    dest_y as int,
                                    width as int,
                                    height as int,
                                ),
                            |place: (int, int)|
                                if within(
                                    place,
                                    dest_x as int,
                                    dest_y as int,
                                    width as int,
                                    height as int,
                                ) {
                                    image_pixel(
                                        pixels,
                                        image,
                                        src_x + (place.0 - dest_x),
                                        src_y + (place.1 - dest_y),
                                    )
                                } else {
                                    self.window[place]
                                },
                        ),
                        ..self
                    }
                } else {
                    self
                },
                None => self,
            },
            BlitAction::DetachData => match self.image {
                Some((image, _)) => BlitWorld { image: Some((image, false)), ..self },
                None => self,
            },
            BlitAction::DestroyImage => match self.image {
                Some((_, attached)) => BlitWorld {
                    image: None,
                    freed: self.freed || attached,
                    ..self
                },
                None => self,
            },
        }
    }

    /// The world after the steps of `actions`, one after the other.
    pub open spec fn run(self, pixels: Seq<u32>, actions: Seq<BlitAction>) -> BlitWorld
        decreases actions.len(),
    {
        if actions.len() == 0 {
            self
        } else {
            self.run(pixels, actions.drop_last()).step(pixels, actions.last())
        }
    }

    /// Running one more step after `actions`.
    pub proof fn lemma_run_push(self, pixels: Seq<u32>, actions: Seq<BlitAction>, action: BlitAction)
        ensures
            self.run(pixels, actions.push(action)) == self.run(pixels, actions).step(
                pixels,
                action,
            ),
    {
        assert(actions.push(action).drop_last() =~= actions);
    }

    /// Performing the plan of a frame shows the frame: the window then holds
    /// pixel `y * width + x` of the caller's at every place `(x, y)` of the
    /// frame, and what it showed elsewhere. No image is left alive, and the
    /// caller's pixels are not freed by the plan.
    pub proof fn lemma_plan_shows_frame(
        self,
        depth: i32,
        pixels: Seq<u32>,
        width: u16,
        height: u16,
    )
        requires
            frame_error(pixels.len(), width, height) is None,
        ensures
            ({
                let end = self.run(pixels, blit_plan(depth, width, height));
                &&& forall|x: int, y: int|
                    0 <= x < width && 0 <= y < height ==> #[trigger] end.window.dom().contains(
                        (x, y),
                    ) && end.window[(x, y)] == pixels[y * width + x]
                &&& forall|place: (int, int)|
                    !within(place, 0, 0, width as int, height as int) ==> (
                    #[trigger] end.window.dom().contains(place) <==> self.window.dom().contains(
                        place,
                    ))
                &&& forall|place: (int, int)|
                    !within(place, 0, 0, width as int, height as int)
                        && self.window.dom().contains(place) ==> #[trigger] end.window[place]
                        == self.window[place]
                &&& end.image is None
                &&& end.freed == self.freed
            }),
    {
        lemma_pixel_count_bound(width, height);
        let none = Seq::<BlitAction>::empty();
        let image = image_for(depth, width, height);
        let create = BlitAction::CreateImage { image };
        let put = BlitAction::PutImage {
            src_x: 0,
            src_y: 0,
            dest_x: 0,
            dest_y: 0,
            width: width as u32,
            height: height as u32,
        };
        let p1 = none.push(create);
        let p2 = p1.push(put);
        let p3 = p2.push(BlitAction::DetachData);
        let p4 = p3.push(BlitAction::DestroyImage);
        assert(p4 =~= blit_plan(depth, width, height));
        self.lemma_run_push(pixels, none, create);
        self.lemma_run_push(pixels, p1, put);
        self.lemma_run_push(pixels, p2, BlitAction::DetachData);
        self.lemma_run_push(pixels, p3, BlitAction::DestroyImage);
        let w2 = self.run(pixels, p2);
        let end = self.run(pixels, p4);
        assert(end.window == w2.window);
        assert(image.bytes_per_line / 4 == width);
        assert forall|x: int, y: int| 0 <= x < width && 0 <= y < height implies #[trigger] end.window.dom().contains(
            (x, y),
        ) && end.window[(x, y)] == pixels[y * width + x] by {
            assert(within((x, y), 0, 0, width as int, height as int));
        }
        assert forall|place: (int, int)|
            !within(place, 0, 0, width as int, height as int) implies (
        #[trigger] end.window.dom().contains(place) <==> self.window.dom().contains(place)) by {}
        assert forall|place: (int, int)|
            !within(place, 0, 0, width as int, height as int) && self.window.dom().contains(
                place,
            ) implies #[trigger] end.window[place] == self.window[place] by {}
    }
}

} // verus!
