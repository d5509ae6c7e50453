//! Ring indexing: which physical slot holds which logical frame, and which
//! logical frames may still be read.
use vstd::prelude::*;

verus! {

/// The physical slot that holds logical frame `k` in a ring of `n` buffers.
pub open spec fn slot_of(k: int, n: int) -> int {
    k % n
}

/// Logical frame `k` may be read while `filled` frames are published in a ring
/// of `n` buffers: it has been published, and the filler, which is now writing
/// frame `filled`, has not come round to its slot.
pub open spec fn readable(k: int, filled: int, n: int) -> bool {
    0 <= k && filled - n < k < filled
}

/// The slot of logical frame `k` in a ring of `n_buffers` buffers.
pub fn ring_slot(k: u64, n_buffers: usize) -> (slot: usize)
    requires
        n_buffers > 0,
    ensures
        slot == slot_of(k as int, n_buffers as int),
        slot < n_buffers,
{
    (k % (n_buffers as u64)) as usize
}

/// With at least two buffers, the slot that the filler overwrites while it
/// writes frame `k` holds none of the frames that may still be read once `k`
/// frames are published; in particular not frame `k - 1`.
pub proof fn lemma_writer_slot_is_not_readable(n: int, k: int, j: int)
    requires
        n >= 2,
        readable(j, k, n),
    ensures
        slot_of(k, n) != slot_of(j, n),
{
    let d = k - j;
    assert(0 < d < n);
    vstd::arithmetic::div_mod::lemma_fundamental_div_mod(k, n);
    vstd::arithmetic::div_mod::lemma_fundamental_div_mod(j, n);
    if k % n == j % n {
        let qk = k / n;
        let qj = j / n;
        assert(d == (qk - qj) * n) by (nonlinear_arith)
            requires
                k == n * qk + k % n,
                j == n * qj + j % n,
                k % n == j % n,
                d == k - j,
        ;
        if qk - qj >= 1 {
            assert((qk - qj) * n >= n) by (nonlinear_arith)
                requires
                    qk - qj >= 1,
                    n >= 2,
            ;
        } else {
            assert((qk - qj) * n <= 0) by (nonlinear_arith)
                requires
                    qk - qj <= 0,
                    n >= 2,
            ;
        }
    }
}

} // verus!
