//! The processor (drainer): which frames a pass hands to the consumer, in
//! which slots they lie, and when the filler has lapped it.
use vstd::prelude::*;
use crate::ring::{slot_of, readable, ring_slot};

verus! {

/// More than `n - 1` frames arrived since the last pass: the filler has
/// overwritten at least one frame that was never read.
pub open spec fn overflowed(processed: int, filled: int, n: int) -> bool {
    filled - processed >= n
}

/// The logical frames `lo, lo + 1, ..., hi - 1`.
pub open spec fn frame_range(lo: int, hi: int) -> Seq<int> {
    Seq::new((hi - lo) as nat, |i: int| lo + i)
}

/// The logical frames that a pass delivers when `processed` frames were
/// handled before and `filled` are published now: all new frames, oldest
/// first, unless some were lost, in which case none.
pub open spec fn pass_indices(processed: int, filled: int, n: int) -> Seq<int> {
    if processed < filled && !overflowed(processed, filled, n) {
        frame_range(processed, filled)
    } else {
        Seq::empty()
    }
}

/// The count of frames handled once a pass that saw `filled` is done.
pub open spec fn processed_after(processed: int, filled: int) -> int {
    if processed < filled {
        filled
    } else {
        processed
    }
}

/// Whether the fill count read back after a pass shows that the filler may
/// have come round to a slot that the pass was reading.
pub open spec fn lapped(processed: int, new_filled: int, n: int) -> bool {
    new_filled + 1 - processed >= n
}

/// What successive passes deliver, in order, when `processed` frames were
/// handled before the first and the passes see the published counts `observed`.
pub open spec fn delivered_through(processed: int, observed: Seq<int>, n: int) -> Seq<int>
    decreases observed.len(),
{
    if observed.len() == 0 {
        Seq::empty()
    } else {
        pass_indices(processed, observed[0], n) + delivered_through(
            processed_after(processed, observed[0]),
            observed.drop_first(),
            n,
        )
    }
}

/// Published counts as successive passes see them, none of them lapped: they
/// never decrease, and each is less than `n` ahead of the count before it (the
/// first, of `processed`).
pub open spec fn never_lapped(processed: int, observed: Seq<int>, n: int) -> bool
    decreases observed.len(),
{
    observed.len() == 0 || {
        &&& processed <= observed[0] < processed + n
        &&& never_lapped(observed[0], observed.drop_first(), n)
    }
}

/// The last count in `observed`, or `processed` when there is none.
pub open spec fn last_count(processed: int, observed: Seq<int>) -> int {
    if observed.len() == 0 {
        processed
    } else {
        observed.last()
    }
}

proof fn lemma_passes_deliver_range(processed: int, observed: Seq<int>, n: int)
    requires
        n >= 2,
        processed >= 0,
        never_lapped(processed, observed, n),
    ensures
        delivered_through(processed, observed, n) == frame_range(
            processed,
            last_count(processed, observed),
        ),
        last_count(processed, observed) >= processed,
    decreases observed.len(),
{
    if observed.len() > 0 {
        let first = observed[0];
        let rest = observed.drop_first();
        lemma_passes_deliver_range(first, rest, n);
        let lo = frame_range(processed, first);
        let hi = frame_range(first, last_count(first, rest));
        assert(processed_after(processed, first) == first);
        assert(delivered_through(processed, observed, n) == pass_indices(processed, first, n)
            + delivered_through(first, rest, n));
        assert(pass_indices(processed, first, n) =~= lo);
        assert(last_count(first, rest) == last_count(processed, observed)) by {
            if rest.len() > 0 {
                assert(rest.last() == observed.last());
            }
        }
        assert(lo + hi =~= frame_range(processed, last_count(processed, observed)));
    }
}

/// When the processor is never lapped, the passes of a session deliver every
/// frame from the first up to the last published count exactly once, in
/// ascending order.
pub proof fn lemma_unlapped_passes_deliver_every_frame_once(observed: Seq<int>, n: int)
    requires
        n >= 2,
        never_lapped(0, observed, n),
    ensures
        delivered_through(0, observed, n) == frame_range(0, last_count(0, observed)),
{
    lemma_passes_deliver_range(0, observed, n);
}

/// Adding `d < n` to `p` moves its residue by `d`, wrapping at most once.
proof fn lemma_mod_add_small(p: int, d: int, n: int)
    requires
        p >= 0,
        0 <= d < n,
    ensures
        (p + d) % n == if p % n + d < n { p % n + d } else { p % n + d - n },
{
    vstd::arithmetic::div_mod::lemma_fundamental_div_mod(p, n);
    let q = p / n;
    let r = p % n;
    if r + d < n {
        vstd::arithmetic::div_mod::lemma_fundamental_div_mod_converse(p + d, n, q, r + d);
    } else {
        assert(p + d == (q + 1) * n + (r + d - n)) by (nonlinear_arith)
            requires
                p == n * q + r,
        ;
        vstd::arithmetic::div_mod::lemma_fundamental_div_mod_converse(p + d, n, q + 1, r + d - n);
    }
}

/// What one pass of the processor is to do.
pub struct DrainPass {
    /// Logical index of the frame in `slots[0]`; `slots[i]` holds frame
    /// `first_index + i`.
    pub first_index: u64,
    /// The slots to hand to the consumer, in this order.
    pub slots: Vec<usize>,
    /// Frames were lost: the filler overwrote some before they were read.
    pub overflow: bool,
}

/// The drainer's own state: the ring size and how many frames it has handled.
pub struct FrameProcessor {
    n_buffers: usize,
    frames_processed: u64,
}

impl FrameProcessor {
    pub closed spec fn n_buffers_spec(&self) -> int {
        self.n_buffers as int
    }

    pub closed spec fn processed_spec(&self) -> int {
        self.frames_processed as int
    }

    pub closed spec fn wf(&self) -> bool {
        self.n_buffers >= 2
    }

    /// A processor for a ring of `n_buffers` buffers that has handled nothing.
    pub fn new(n_buffers: usize) -> (p: FrameProcessor)
        requires
            n_buffers >= 2,
        ensures
            p.wf(),
            p.n_buffers_spec() == n_buffers,
            p.processed_spec() == 0,
    {
        FrameProcessor { n_buffers, frames_processed: 0 }
    }

    pub fn n_buffers(&self) -> (n: usize)
        ensures
            n == self.n_buffers_spec(),
    {
        self.n_buffers
    }

    pub fn frames_processed(&self) -> (k: u64)
        ensures
            k == self.processed_spec(),
    {
        self.frames_processed
    }

    /// Plans the pass for a published count of `n_filled`: the slots of every
    /// new frame, oldest first, or none and an overflow report when the filler
    /// has lapped the processor.
    pub fn plan_pass(&self, n_filled: u64) -> (pass: DrainPass)
        requires
            self.wf(),
        ensures
            pass.first_index == self.processed_spec(),
            pass.overflow == (self.processed_spec() < n_filled && overflowed(
                self.processed_spec(),
                n_filled as int,
                self.n_buffers_spec(),
            )),
            pass.slots@.len() == pass_indices(
                self.processed_spec(),
                n_filled as int,
                self.n_buffers_spec(),
            ).len(),
            forall|i: int|
                0 <= i < pass.slots@.len() ==> {
                    &&& #[trigger] pass.slots@[i] == slot_of(
                        self.processed_spec() + i,
                        self.n_buffers_spec(),
                    )
                    &&& pass_indices(self.processed_spec(), n_filled as int, self.n_buffers_spec())[i]
                        == self.processed_spec() + i
                    &&& readable(self.processed_spec() + i, n_filled as int, self.n_buffers_spec())
                },
    {
        let n = self.n_buffers;
        let processed = self.frames_processed;
        let mut slots: Vec<usize> = Vec::new();
        if processed >= n_filled {
            return DrainPass { first_index: processed, slots, overflow: false };
        }
        let delta = n_filled - processed;
        if delta >= n as u64 {
            return DrainPass { first_index: processed, slots, overflow: true };
        }
        let start = ring_slot(processed, n);
        let end = ring_slot(n_filled, n);
        let ghost p = processed as int;
        let ghost d = delta as int;
        proof {
            lemma_mod_add_small(p, d, n as int);
        }
        if end < start {
            let mut idx: usize = start;
            while idx < n
                invariant
                    start <= idx <= n,
                    start == p % (n as int),
                    n >= 2,
                    p >= 0,
                    slots@.len() == idx - start,
                    forall|i: int| 0 <= i < slots@.len() ==> slots@[i] == (p + i) % (n as int),
                decreases n - idx,
            {
                proof {
                    lemma_mod_add_small(p, idx - start, n as int);
                }
                slots.push(idx);
                idx += 1;
            }
            let mut idx: usize = 0;
            while idx < end
                invariant
                    idx <= end,
                    end < start < n,
                    start == p % (n as int),
                    p >= 0,
                    slots@.len() == n - start + idx,
                    forall|i: int| 0 <= i < slots@.len() ==> slots@[i] == (p + i) % (n as int),
                decreases end - idx,
            {
                proof {
                    lemma_mod_add_small(p, n - start + idx, n as int);
                }
                slots.push(idx);
                idx += 1;
            }
        } else {
            let mut idx: usize = start;
            while idx < end
                invariant
                    start <= idx <= end,
                    end < n,
                    start == p % (n as int),
                    p >= 0,
                    slots@.len() == idx - start,
                    forall|i: int| 0 <= i < slots@.len() ==> slots@[i] == (p + i) % (n as int),
                decreases end - idx,
            {
                proof {
                    lemma_mod_add_small(p, idx - start, n as int);
                }
                slots.push(idx);
                idx += 1;
            }
        }
        DrainPass { first_index: processed, slots, overflow: false }
    }

    /// Ends a pass that was planned for `n_filled`: records those frames as
    /// handled, and reports whether the count read back afterwards,
    /// `new_filled`, shows that the filler may have lapped the pass.
    pub fn finish_pass(&mut self, n_filled: u64, new_filled: u64) -> (lap_warning: bool)
        requires
            old(self).wf(),
        ensures
            final(self).wf(),
            final(self).n_buffers_spec() == old(self).n_buffers_spec(),
            final(self).processed_spec() == processed_after(
                old(self).processed_spec(),
                n_filled as int,
            ),
            lap_warning == lapped(
                old(self).processed_spec(),
                new_filled as int,
                old(self).n_buffers_spec(),
            ),
    {
        let processed = self.frames_processed;
        let lap_warning = new_filled >= processed && new_filled - processed >= (self.n_buffers
            - 1) as u64;
        if processed < n_filled {
            self.frames_processed = n_filled;
        }
        lap_warning
    }
}

} // verus!
