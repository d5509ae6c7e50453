//! A synthetic camera: a region of interest on a 2048 by 2048 sensor, frames
//! drawn by the filler's pattern, and the streaming lifecycle.
use vstd::prelude::*;
use crate::error::StreamError;
use crate::filler::{fill_image, synthetic_frame};
use crate::lifecycle::{Lifecycle, StreamState, start_outcome, stop_must_join};

verus! {

/// Columns and rows of the synthetic sensor.
pub const MAX_SIZE: usize = 2048;

/// Upper end of the range `r` (in either order) kept within `0..max`.
pub open spec fn clamped_hi(r: [usize; 2], max: usize) -> usize {
    let hi = if r[0] >= r[1] {
        r[0]
    } else {
        r[1]
    };
    if hi <= max {
        hi
    } else {
        max
    }
}

/// Lower end of the range `r` (in either order), kept at most its clamped
/// upper end so that the range is never reversed.
pub open spec fn clamped_lo(r: [usize; 2], max: usize) -> usize {
    let lo = if r[0] <= r[1] {
        r[0]
    } else {
        r[1]
    };
    if lo <= clamped_hi(r, max) {
        lo
    } else {
        clamped_hi(r, max)
    }
}

fn clamp_range(r: [usize; 2], max: usize) -> (c: [usize; 2])
    ensures
        c[0] == clamped_lo(r, max),
        c[1] == clamped_hi(r, max),
{
    let lo = if r[0] <= r[1] {
        r[0]
    } else {
        r[1]
    };
    let hi = if r[0] >= r[1] {
        r[0]
    } else {
        r[1]
    };
    let hi = if hi <= max {
        hi
    } else {
        max
    };
    let lo = if lo <= hi {
        lo
    } else {
        hi
    };
    [lo, hi]
}

/// A camera that synthesises its frames.
pub struct DummyCamera {
    roi: ([usize; 2], [usize; 2]),
    lifecycle: Lifecycle,
}

impl DummyCamera {
    /// The region of interest: the column range, then the row range.
    pub closed spec fn roi_spec(&self) -> ([usize; 2], [usize; 2]) {
        self.roi
    }

    pub closed spec fn state_spec(&self) -> StreamState {
        self.lifecycle.state_spec()
    }

    pub open spec fn width_spec(&self) -> int {
        self.roi_spec().0[1] - self.roi_spec().0[0]
    }

    pub open spec fn height_spec(&self) -> int {
        self.roi_spec().1[1] - self.roi_spec().1[0]
    }

    pub closed spec fn wf(&self) -> bool {
        &&& self.roi.0[0] <= self.roi.0[1] <= MAX_SIZE
        &&& self.roi.1[0] <= self.roi.1[1] <= MAX_SIZE
    }

    /// An idle camera whose region of interest is the whole sensor.
    pub fn new() -> (c: DummyCamera)
        ensures
            c.wf(),
            c.roi_spec() == ([0usize, MAX_SIZE], [0usize, MAX_SIZE]),
            c.state_spec() == StreamState::Idle,
    {
        DummyCamera { roi: ([0, MAX_SIZE], [0, MAX_SIZE]), lifecycle: Lifecycle::new() }
    }

    pub fn get_roi(&self) -> (roi: ([usize; 2], [usize; 2]))
        ensures
            roi == self.roi_spec(),
    {
        self.roi
    }

    /// Columns and rows of a frame.
    pub fn get_size(&self) -> (size: [usize; 2])
        requires
            self.wf(),
        ensures
            size[0] == self.width_spec(),
            size[1] == self.height_spec(),
            size[0] <= MAX_SIZE,
            size[1] <= MAX_SIZE,
    {
        [self.roi.0[1] - self.roi.0[0], self.roi.1[1] - self.roi.1[0]]
    }

    pub fn get_max_size(&self) -> (size: [usize; 2])
        ensures
            size[0] == MAX_SIZE,
            size[1] == MAX_SIZE,
    {
        [MAX_SIZE, MAX_SIZE]
    }

    /// Sets the region of interest to the column range `x` and the row range
    /// `y`, each taken in either order and cut off at the sensor's edge, and
    /// returns it.
    pub fn set_roi(&mut self, x: [usize; 2], y: [usize; 2]) -> (roi: ([usize; 2], [usize; 2]))
        requires
            old(self).wf(),
        ensures
            final(self).wf(),
            final(self).state_spec() == old(self).state_spec(),
            final(self).roi_spec().0[0] == clamped_lo(x, MAX_SIZE),
            final(self).roi_spec().0[1] == clamped_hi(x, MAX_SIZE),
            final(self).roi_spec().1[0] == clamped_lo(y, MAX_SIZE),
            final(self).roi_spec().1[1] == clamped_hi(y, MAX_SIZE),
            roi == final(self).roi_spec(),
    {
        self.roi = (clamp_range(x, MAX_SIZE), clamp_range(y, MAX_SIZE));
        self.roi
    }

    /// Draws a single frame into `buffer`, which must be of the frame size:
    /// synthetic frame number 0 with the tracker at `tracker` (column, row).
    pub fn fill_buffer(&self, buffer: &mut Vec<u16>, tracker: [usize; 2])
        requires
            self.wf(),
            old(buffer)@.len() == self.width_spec() * self.height_spec(),
            tracker[0] <= self.width_spec(),
            tracker[1] <= self.height_spec(),
        ensures
            final(buffer)@ == synthetic_frame(0, self.width_spec(), self.height_spec(), tracker),
    {
        let size = self.get_size();
        fill_image(buffer, size, 0, tracker);
    }

    pub fn is_streaming(&self) -> (b: bool)
        ensures
            b == (self.state_spec() == StreamState::Streaming),
    {
        self.lifecycle.is_streaming()
    }

    /// Admits a stream of `n_buffers` frames of the current size, handed to a
    /// consumer that is `consumer_callable` or not; see [`Lifecycle::start`].
    pub fn start_stream(&mut self, n_buffers: usize, consumer_callable: bool) -> (r: Result<(), StreamError>)
        requires
            old(self).wf(),
        ensures
            final(self).wf(),
            final(self).roi_spec() == old(self).roi_spec(),
            r == start_outcome(old(self).state_spec(), n_buffers as int, consumer_callable),
            final(self).state_spec() == if r is Ok {
                StreamState::Streaming
            } else {
                old(self).state_spec()
            },
    {
        self.lifecycle.start(n_buffers, consumer_callable)
    }

    /// Asks a running stream to stop; returns whether its workers must be
    /// joined before [`DummyCamera::stream_stopped`]. A no-op when idle.
    pub fn stop_stream(&mut self) -> (must_join: bool)
        requires
            old(self).wf(),
        ensures
            final(self).wf(),
            final(self).roi_spec() == old(self).roi_spec(),
            must_join == stop_must_join(old(self).state_spec()),
            final(self).state_spec() == if must_join {
                StreamState::Stopping
            } else {
                old(self).state_spec()
            },
    {
        self.lifecycle.begin_stop()
    }

    /// Records that the stopping stream's workers were joined.
    pub fn stream_stopped(&mut self, workers_ok: bool) -> (r: Result<(), StreamError>)
        requires
            old(self).wf(),
            old(self).state_spec() == StreamState::Stopping,
        ensures
            final(self).wf(),
            final(self).roi_spec() == old(self).roi_spec(),
            final(self).state_spec() == StreamState::Idle,
            r == if workers_ok {
                Ok::<(), StreamError>(())
            } else {
                Err(StreamError::WorkerFailed)
            },
    {
        self.lifecycle.finish_stop(workers_ok)
    }
}

} // verus!
