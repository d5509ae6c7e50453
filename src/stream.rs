//! A frame ring driven from one thread: the filler's steps and the
//! processor's passes are interleaved by the caller.
use vstd::prelude::*;
use crate::error::StreamError;
use crate::filler::{BufferFiller, fill_image, synthetic_frame};
use crate::processor::{FrameProcessor, overflowed, pass_indices, lapped};
use crate::ring::{slot_of, readable, ring_slot, lemma_writer_slot_is_not_readable};

verus! {

/// Receives each completed frame, with its logical index, for the duration of
/// one call; an error marks that one frame as failed.
pub trait FrameConsumer {
    fn consume(&mut self, index: u64, frame: &[u16]) -> Result<(), String>;
}

/// A frame that the consumer refused.
pub struct FrameFailure {
    pub index: u64,
    pub message: String,
}

/// What one pass of [`RingStream::drain`] did.
pub struct DrainReport {
    /// Logical indices handed to the consumer, in the order of the calls.
    pub delivered: Vec<u64>,
    /// The calls that failed, in the same order.
    pub failures: Vec<FrameFailure>,
    /// Frames were lost before this pass could read them.
    pub overflow: bool,
    /// The filler may have come round to a slot while the pass was reading.
    pub lap_warning: bool,
}

/// Copies `src` into `dst`, which has the same length.
fn copy_frame(dst: &mut Vec<u16>, src: &[u16])
    requires
        old(dst)@.len() == src@.len(),
    ensures
        final(dst)@ == src@,
{
    let len = dst.len();
    let mut i: usize = 0;
    while i < len
        invariant
            len == dst@.len(),
            len == src@.len(),
            i <= len,
            forall|j: int| 0 <= j < i ==> #[trigger] dst@[j] == src@[j],
        decreases len - i,
    {
        dst[i] = src[i];
        i += 1;
    }
    assert(dst@ =~= src@);
}

/// A ring of frame buffers with its filler and its processor.
pub struct RingStream {
    slots: Vec<Vec<u16>>,
    filler: BufferFiller,
    processor: FrameProcessor,
    frame_len: usize,
    /// Every frame published so far, by logical index.
    history: Ghost<Seq<Seq<u16>>>,
}

impl RingStream {
    pub closed spec fn n_buffers_spec(&self) -> int {
        self.slots@.len() as int
    }

    pub closed spec fn image_size_spec(&self) -> [usize; 2] {
        self.filler.image_size_spec()
    }

    pub closed spec fn filled_spec(&self) -> int {
        self.filler.filled_spec()
    }

    pub closed spec fn processed_spec(&self) -> int {
        self.processor.processed_spec()
    }

    /// Every frame published so far, by logical index.
    pub closed spec fn history(&self) -> Seq<Seq<u16>> {
        self.history@
    }

    /// What the buffer of logical frame `k` holds now.
    pub closed spec fn slot_content(&self, k: int) -> Seq<u16> {
        self.slots@[slot_of(k, self.n_buffers_spec())]@
    }

    pub closed spec fn wf(&self) -> bool {
        &&& self.filler.wf()
        &&& self.processor.wf()
        &&& self.slots@.len() >= 2
        &&& self.filler.n_buffers_spec() == self.slots@.len()
        &&& self.processor.n_buffers_spec() == self.slots@.len()
        &&& self.frame_len == self.filler.image_size_spec()[0] * self.filler.image_size_spec()[1]
        &&& forall|s: int| 0 <= s < self.slots@.len() ==> #[trigger] self.slots@[s]@.len() == self.frame_len
        &&& self.history@.len() == self.filler.filled_spec()
        &&& 0 <= self.processor.processed_spec() <= self.filler.filled_spec()
        &&& forall|k: int|
            0 <= k < self.filler.filled_spec() && self.filler.filled_spec() - self.slots@.len() <= k
                ==> #[trigger] self.history@[k] == self.slot_content(k)
    }

    /// Once `k` frames are published, and until frame `k` is, the buffer of
    /// frame `k - 1` holds that frame whole, exactly as it was written, and it
    /// is not the buffer that the filler is writing frame `k` into.
    pub proof fn lemma_last_published_frame_is_whole(&self)
        requires
            self.wf(),
            self.filled_spec() >= 1,
        ensures
            self.slot_content(self.filled_spec() - 1) == self.history()[self.filled_spec() - 1],
            slot_of(self.filled_spec(), self.n_buffers_spec()) != slot_of(
                self.filled_spec() - 1,
                self.n_buffers_spec(),
            ),
    {
        lemma_writer_slot_is_not_readable(
            self.n_buffers_spec(),
            self.filled_spec(),
            self.filled_spec() - 1,
        );
    }

    /// A fresh ring of `n_buffers` frames of `image_size` (columns, rows), with
    /// nothing published or processed; fewer than two buffers are refused.
    pub fn new(n_buffers: usize, image_size: [usize; 2]) -> (r: Result<RingStream, StreamError>)
        requires
            image_size[0] * image_size[1] <= usize::MAX,
        ensures
            n_buffers < 2 <==> r == Err::<RingStream, StreamError>(StreamError::TooFewBuffers),
            r is Ok ==> {
                let s = r->Ok_0;
                &&& s.wf()
                &&& s.n_buffers_spec() == n_buffers
                &&& s.image_size_spec() == image_size
                &&& s.filled_spec() == 0
                &&& s.processed_spec() == 0
                &&& s.history() == Seq::<Seq<u16>>::empty()
            },
    {
        if n_buffers < 2 {
            return Err(StreamError::TooFewBuffers);
        }
        let frame_len = image_size[0] * image_size[1];
        let mut slots: Vec<Vec<u16>> = Vec::new();
        let mut s: usize = 0;
        while s < n_buffers
            invariant
                s <= n_buffers,
                slots@.len() == s,
                forall|t: int| 0 <= t < s ==> #[trigger] slots@[t]@.len() == frame_len,
            decreases n_buffers - s,
        {
            slots.push(vec![0u16; frame_len]);
            s += 1;
        }
        Ok(RingStream {
            slots,
            filler: BufferFiller::new(n_buffers, image_size),
            processor: FrameProcessor::new(n_buffers),
            frame_len,
            history: Ghost(Seq::empty()),
        })
    }

    pub fn n_buffers(&self) -> (n: usize)
        requires
            self.wf(),
        ensures
            n == self.n_buffers_spec(),
    {
        self.slots.len()
    }

    pub fn image_size(&self) -> (s: [usize; 2])
        ensures
            s == self.image_size_spec(),
    {
        self.filler.image_size()
    }

    pub fn frames_filled(&self) -> (k: u64)
        ensures
            k == self.filled_spec(),
    {
        self.filler.frames_filled()
    }

    pub fn frames_processed(&self) -> (k: u64)
        ensures
            k == self.processed_spec(),
    {
        self.processor.frames_processed()
    }

    /// Logical frame `k`, while it may be read: published, and not yet
    /// overwritten nor about to be.
    pub fn frame(&self, k: u64) -> (f: Option<&[u16]>)
        requires
            self.wf(),
        ensures
            f is Some <==> readable(k as int, self.filled_spec(), self.n_buffers_spec()),
            f is Some ==> f->Some_0@ == self.history()[k as int],
    {
        let filled = self.filler.frames_filled();
        let n = self.slots.len();
        if k < filled && filled - k < n as u64 {
            let slot = ring_slot(k, n);
            Some(self.slots[slot].as_slice())
        } else {
            None
        }
    }

    proof fn lemma_publish_keeps_window(&self, old_stream: &RingStream, frame: Seq<u16>)
        requires
            old_stream.wf(),
            self.slots@.len() == old_stream.slots@.len(),
            self.filler.wf(),
            self.processor.wf(),
            self.filler.n_buffers_spec() == self.slots@.len(),
            self.processor.n_buffers_spec() == self.slots@.len(),
            self.filler.image_size_spec() == old_stream.filler.image_size_spec(),
            self.frame_len == old_stream.frame_len,
            self.processor.processed_spec() == old_stream.processor.processed_spec(),
            self.filler.filled_spec() == old_stream.filler.filled_spec() + 1,
            self.history@ == old_stream.history@.push(frame),
            frame.len() == self.frame_len,
            forall|s: int|
                0 <= s < self.slots@.len() && s != slot_of(
                    old_stream.filler.filled_spec(),
                    self.slots@.len() as int,
                ) ==> #[trigger] self.slots@[s] == old_stream.slots@[s],
            self.slots@[slot_of(old_stream.filler.filled_spec(), self.slots@.len() as int)]@
                == frame,
        ensures
            self.wf(),
    {
        let n = self.slots@.len() as int;
        let written = old_stream.filler.filled_spec();
        assert forall|s: int| 0 <= s < self.slots@.len() implies #[trigger] self.slots@[s]@.len()
            == self.frame_len by {
            if s != slot_of(written, n) {
                assert(self.slots@[s] == old_stream.slots@[s]);
            }
        }
        assert forall|k: int|
            0 <= k < self.filler.filled_spec() && self.filler.filled_spec() - n <= k implies
            #[trigger] self.history@[k] == self.slot_content(k) by {
            if k < written {
                lemma_writer_slot_is_not_readable(n, written, k);
                assert(old_stream.history@[k] == old_stream.slot_content(k));
                assert(0 <= slot_of(k, n) < n);
                assert(self.slots@[slot_of(k, n)] == old_stream.slots@[slot_of(k, n)]);
            }
        }
    }

    /// One step of the filler: draws synthetic frame number `frames_filled`
    /// (see [`fill_image`]) into its slot and publishes it.
    pub fn fill_next(&mut self, tracker: [usize; 2])
        requires
            old(self).wf(),
            old(self).filled_spec() < u64::MAX,
            tracker[0] <= old(self).image_size_spec()[0],
            tracker[1] <= old(self).image_size_spec()[1],
        ensures
            final(self).wf(),
            final(self).n_buffers_spec() == old(self).n_buffers_spec(),
            final(self).image_size_spec() == old(self).image_size_spec(),
            final(self).processed_spec() == old(self).processed_spec(),
            final(self).filled_spec() == old(self).filled_spec() + 1,
            final(self).history() == old(self).history().push(
                synthetic_frame(
                    old(self).filled_spec(),
                    old(self).image_size_spec()[0] as int,
                    old(self).image_size_spec()[1] as int,
                    tracker,
                ),
            ),
    {
        let ghost old_stream = *self;
        let slot = self.filler.next_slot();
        let image_size = self.filler.image_size();
        let counter = self.filler.frames_filled();
        fill_image(&mut self.slots[slot], image_size, counter, tracker);
        self.filler.advance();
        let ghost frame = synthetic_frame(
            counter as int,
            image_size[0] as int,
            image_size[1] as int,
            tracker,
        );
        self.history = Ghost(self.history@.push(frame));
        proof {
            self.lemma_publish_keeps_window(&old_stream, frame);
        }
    }

    /// One step of an acquisition source: copies `frame` into the next slot
    /// and publishes it.
    pub fn write_next(&mut self, frame: &[u16])
        requires
            old(self).wf(),
            old(self).filled_spec() < u64::MAX,
            frame@.len() == old(self).image_size_spec()[0] * old(self).image_size_spec()[1],
        ensures
            final(self).wf(),
            final(self).n_buffers_spec() == old(self).n_buffers_spec(),
            final(self).image_size_spec() == old(self).image_size_spec(),
            final(self).processed_spec() == old(self).processed_spec(),
            final(self).filled_spec() == old(self).filled_spec() + 1,
            final(self).history() == old(self).history().push(frame@),
    {
        let ghost old_stream = *self;
        let slot = self.filler.next_slot();
        copy_frame(&mut self.slots[slot], frame);
        self.filler.advance();
        self.history = Ghost(self.history@.push(frame@));
        proof {
            self.lemma_publish_keeps_window(&old_stream, frame@);
        }
    }

    /// One pass of the processor: hands every frame published since the last
    /// pass to `consumer`, oldest first, unless the filler has lapped it, in
    /// which case it reports the overflow and reads nothing. A failing call is
    /// recorded and the pass goes on with the next frame.
    pub fn drain<C: FrameConsumer>(&mut self, consumer: &mut C) -> (report: DrainReport)
        requires
            old(self).wf(),
        ensures
            final(self).wf(),
            final(self).n_buffers_spec() == old(self).n_buffers_spec(),
            final(self).image_size_spec() == old(self).image_size_spec(),
            final(self).filled_spec() == old(self).filled_spec(),
            final(self).history() == old(self).history(),
            final(self).processed_spec() == old(self).filled_spec(),
            report.overflow == (old(self).processed_spec() < old(self).filled_spec() && overflowed(
                old(self).processed_spec(),
                old(self).filled_spec(),
                old(self).n_buffers_spec(),
            )),
            report.lap_warning == lapped(
                old(self).processed_spec(),
                old(self).filled_spec(),
                old(self).n_buffers_spec(),
            ),
            report.delivered@.len() == pass_indices(
                old(self).processed_spec(),
                old(self).filled_spec(),
                old(self).n_buffers_spec(),
            ).len(),
            forall|i: int|
                0 <= i < report.delivered@.len() ==> #[trigger] report.delivered@[i] == pass_indices(
                    old(self).processed_spec(),
                    old(self).filled_spec(),
                    old(self).n_buffers_spec(),
                )[i],
            forall|i: int|
                0 <= i < report.failures@.len() ==> report.delivered@.contains(
                    #[trigger] report.failures@[i].index,
                ),
            forall|i: int, j: int|
                0 <= i < j < report.failures@.len() ==> #[trigger] report.failures@[i].index
                    < #[trigger] report.failures@[j].index,
    {
        let n_filled = self.filler.frames_filled();
        let pass = self.processor.plan_pass(n_filled);
        let ghost processed = self.processor.processed_spec();
        let ghost n = self.slots@.len() as int;
        let mut delivered: Vec<u64> = Vec::new();
        let mut failures: Vec<FrameFailure> = Vec::new();
        let mut i: usize = 0;
        while i < pass.slots.len()
            invariant
                self.wf(),
                processed == self.processor.processed_spec(),
                n == self.slots@.len(),
                n_filled == self.filler.filled_spec(),
                pass.first_index == processed,
                pass.slots@.len() == pass_indices(processed, n_filled as int, n).len(),
                forall|t: int|
                    0 <= t < pass.slots@.len() ==> {
                        &&& #[trigger] pass.slots@[t] == slot_of(processed + t, n)
                        &&& pass_indices(processed, n_filled as int, n)[t] == processed + t
                        &&& readable(processed + t, n_filled as int, n)
                    },
                i <= pass.slots@.len(),
                delivered@.len() == i,
                forall|t: int| 0 <= t < i ==> #[trigger] delivered@[t] == processed + t,
                forall|t: int|
                    0 <= t < failures@.len() ==> processed <= #[trigger] failures@[t].index
                        < processed + i,
                forall|t: int|
                    0 <= t < failures@.len() ==> delivered@[failures@[t].index - processed]
                        == #[trigger] failures@[t].index,
                forall|t: int, u: int|
                    0 <= t < u < failures@.len() ==> #[trigger] failures@[t].index
                        < #[trigger] failures@[u].index,
            decreases pass.slots@.len() - i,
        {
            let slot = pass.slots[i];
            let index = pass.first_index + i as u64;
            match consumer.consume(index, self.slots[slot].as_slice()) {
                Ok(()) => {},
                Err(message) => {
                    failures.push(FrameFailure { index, message });
                },
            }
            delivered.push(index);
            i += 1;
        }
        proof {
            assert forall|t: int| 0 <= t < failures@.len() implies delivered@.contains(
                #[trigger] failures@[t].index,
            ) by {
                let j = failures@[t].index - processed;
                assert(delivered@[j] == failures@[t].index);
            }
        }
        let new_filled = self.filler.frames_filled();
        let lap_warning = self.processor.finish_pass(n_filled, new_filled);
        DrainReport { delivered, failures, overflow: pass.overflow, lap_warning }
    }
}

} // verus!
