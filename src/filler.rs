//! The filler: the synthetic frame it draws, the slot it writes next, the
//! count it publishes and how long it waits between frames.
use vstd::prelude::*;
use crate::ring::{slot_of, ring_slot};

verus! {

/// Side of the square tracker drawn into each synthetic frame.
pub const TRACKER_SIDE: usize = 16;

/// Sample value of the tracker's pixels.
pub const TRACKER_LEVEL: u16 = 16;

/// Sample value of the background of synthetic frame number `counter`: it
/// cycles through 1 to 8.
pub open spec fn background_level(counter: int) -> u16 {
    ((counter % 8) + 1) as u16
}

/// Whether the pixel in `row` and `col` lies in the tracker square whose top
/// left corner is at column `tracker[0]`, row `tracker[1]`.
pub open spec fn in_tracker(tracker: [usize; 2], row: int, col: int) -> bool {
    tracker[1] <= row < tracker[1] + TRACKER_SIDE && tracker[0] <= col < tracker[0]
        + TRACKER_SIDE
}

/// Synthetic frame number `counter` of `width` by `height` samples, stored
/// row after row: the background level, with the tracker square at `tracker`.
pub open spec fn synthetic_frame(counter: int, width: int, height: int, tracker: [usize; 2]) -> Seq<u16> {
    Seq::new(
        (width * height) as nat,
        |i: int|
            if in_tracker(tracker, i / width, i % width) {
                TRACKER_LEVEL
            } else {
                background_level(counter)
            },
    )
}

/// Draws synthetic frame number `counter` into `image`, a frame of
/// `image_size[0]` columns and `image_size[1]` rows; the tracker square has its
/// top left corner at `tracker` (column, row) and is cut off at the frame's
/// edges.
pub fn fill_image(image: &mut Vec<u16>, image_size: [usize; 2], counter: u64, tracker: [usize; 2])
    requires
        old(image)@.len() == image_size[0] * image_size[1],
        tracker[0] <= image_size[0],
        tracker[1] <= image_size[1],
    ensures
        final(image)@ == synthetic_frame(
            counter as int,
            image_size[0] as int,
            image_size[1] as int,
            tracker,
        ),
{
    let width = image_size[0];
    let len = image.len();
    let background: u16 = (counter % 8) as u16 + 1;
    let mut i: usize = 0;
    let mut row: usize = 0;
    let mut col: usize = 0;
    while i < len
        invariant
            len == image_size[0] * image_size[1],
            width == image_size[0],
            image@.len() == len,
            background == background_level(counter as int),
            i <= len,
            i == row * width + col,
            i < len ==> col < width,
            forall|j: int|
                0 <= j < i ==> #[trigger] image@[j] == synthetic_frame(
                    counter as int,
                    image_size[0] as int,
                    image_size[1] as int,
                    tracker,
                )[j],
        decreases len - i,
    {
        proof {
            vstd::arithmetic::div_mod::lemma_fundamental_div_mod_converse(
                i as int,
                width as int,
                row as int,
                col as int,
            );
        }
        let covered = row >= tracker[1] && row - tracker[1] < TRACKER_SIDE && col >= tracker[0]
            && col - tracker[0] < TRACKER_SIDE;
        image[i] = if covered {
            TRACKER_LEVEL
        } else {
            background
        };
        i += 1;
        col += 1;
        if col == width {
            proof {
                assert(i == (row + 1) * width) by (nonlinear_arith)
                    requires
                        i == row * width + col,
                        col == width,
                ;
            }
            col = 0;
            row += 1;
        }
    }
    assert(image@ =~= synthetic_frame(
        counter as int,
        image_size[0] as int,
        image_size[1] as int,
        tracker,
    ));
}

/// How long the filler still waits, in microseconds, when `elapsed_us` have
/// passed since its previous frame and frames are due every `interval_us`.
pub fn pacing_delay(interval_us: u64, elapsed_us: u64) -> (delay_us: u64)
    ensures
        delay_us == if elapsed_us < interval_us {
            interval_us - elapsed_us
        } else {
            0
        },
{
    if elapsed_us < interval_us {
        interval_us - elapsed_us
    } else {
        0
    }
}

/// The filler's own state: the ring size, the frame size, and the count of
/// frames it has published.
pub struct BufferFiller {
    n_buffers: usize,
    image_size: [usize; 2],
    frames_filled: u64,
}

impl BufferFiller {
    pub closed spec fn n_buffers_spec(&self) -> int {
        self.n_buffers as int
    }

    pub closed spec fn image_size_spec(&self) -> [usize; 2] {
        self.image_size
    }

    pub closed spec fn filled_spec(&self) -> int {
        self.frames_filled as int
    }

    pub closed spec fn wf(&self) -> bool {
        self.n_buffers >= 2
    }

    /// A filler for a ring of `n_buffers` frames of `image_size` that has
    /// published nothing.
    pub fn new(n_buffers: usize, image_size: [usize; 2]) -> (f: BufferFiller)
        requires
            n_buffers >= 2,
        ensures
            f.wf(),
            f.n_buffers_spec() == n_buffers,
            f.image_size_spec() == image_size,
            f.filled_spec() == 0,
    {
        BufferFiller { n_buffers, image_size, frames_filled: 0 }
    }

    pub fn n_buffers(&self) -> (n: usize)
        ensures
            n == self.n_buffers_spec(),
    {
        self.n_buffers
    }

    pub fn image_size(&self) -> (s: [usize; 2])
        ensures
            s == self.image_size_spec(),
    {
        self.image_size
    }

    pub fn frames_filled(&self) -> (k: u64)
        ensures
            k == self.filled_spec(),
    {
        self.frames_filled
    }

    /// The slot that the next frame goes to.
    pub fn next_slot(&self) -> (slot: usize)
        requires
            self.wf(),
        ensures
            slot == slot_of(self.filled_spec(), self.n_buffers_spec()),
            slot < self.n_buffers_spec(),
    {
        ring_slot(self.frames_filled, self.n_buffers)
    }

    /// Counts the frame just written and returns the count to publish.
    pub fn advance(&mut self) -> (published: u64)
        requires
            old(self).wf(),
            old(self).filled_spec() < u64::MAX,
        ensures
            final(self).wf(),
            final(self).n_buffers_spec() == old(self).n_buffers_spec(),
            final(self).image_size_spec() == old(self).image_size_spec(),
            final(self).filled_spec() == old(self).filled_spec() + 1,
            published == final(self).filled_spec(),
    {
        self.frames_filled = self.frames_filled + 1;
        self.frames_filled
    }
}

} // verus!
