//! Tracking the contiguous-confirmed prefix of an upload despite
//! out-of-order block completion.

use vstd::prelude::*;
use std::collections::HashMap;

verus! {

broadcast use vstd::std_specs::hash::group_hash_axioms;

/// Absorb pending blocks into the watermark: as long as a pending block
/// starts exactly at the watermark, remove it and advance the watermark past
/// it.
pub open spec fn spec_absorb(pend: Map<u64, u64>, w: u64) -> (Map<u64, u64>, u64)
    decreases pend.dom().len(),
{
    if pend.dom().finite() && pend.dom().contains(w) && w + pend[w] <= u64::MAX {
        spec_absorb(pend.remove(w), (w + pend[w]) as u64)
    } else {
        (pend, w)
    }
}

/// One completion step: a block starting at the watermark advances it (and
/// absorbs any pending run behind it); a block ahead of the watermark is
/// saved for later; a block behind the watermark — a duplicate of one
/// already confirmed — is ignored.
pub open spec fn spec_complete_block(pend: Map<u64, u64>, w: u64, off: u64, len: u64) -> (
    Map<u64, u64>,
    u64,
) {
    if off == w && off + len <= u64::MAX {
        spec_absorb(pend, (off + len) as u64)
    } else if off > w {
        (pend.insert(off, len), w)
    } else {
        (pend, w)
    }
}

/// Absorbing never moves the watermark backwards.
pub proof fn lemma_absorb_monotonic(pend: Map<u64, u64>, w: u64)
    ensures
        w <= spec_absorb(pend, w).1,
    decreases pend.dom().len(),
{
    if pend.dom().finite() && pend.dom().contains(w) && w + pend[w] <= u64::MAX {
        lemma_absorb_monotonic(pend.remove(w), (w + pend[w]) as u64);
    }
}

/// Because blocks can be uploaded out of order, if an error is encountered
/// when uploading a given block, that is not necessarily the correct place
/// to resume uploading from next time: there may be gaps before that block.
///
/// This struct keeps track of what offset the file has been completely
/// uploaded to.
///
/// When a block is finished uploading, call
/// [`complete_block`](CompletionTracker::complete_block) with the offset and
/// length; [`complete_up_to`](CompletionTracker::complete_up_to) is the safe
/// resume point.
///
/// Explicit policy for irregular completions: a block whose offset lies
/// below the watermark — a duplicate of one already absorbed — is ignored,
/// and a second completion at an offset still pending replaces the first.
/// Overlapping ranges are not detected; the tracker works by offsets alone.
#[derive(Debug)]
pub struct CompletionTracker {
    complete_up_to: u64,
    uploaded_blocks: HashMap<u64, u64>,
}

impl CompletionTracker {
    /// The offset below which everything is confirmed.
    pub closed spec fn watermark(&self) -> u64 {
        self.complete_up_to
    }

    /// The blocks confirmed ahead of the watermark, pending coalescing, as a
    /// map from absolute offset to length.
    pub closed spec fn pending(&self) -> Map<u64, u64> {
        self.uploaded_blocks@
    }

    /// Well-formed: finitely many pending blocks, each ending within range.
    pub open spec fn wf(&self) -> bool {
        &&& self.pending().dom().finite()
        &&& forall|o: u64| #[trigger]
            self.pending().dom().contains(o) ==> o + self.pending()[o] <= u64::MAX
    }

    /// Make a new tracker with nothing confirmed.
    pub fn new() -> (r: CompletionTracker)
        ensures
            r.wf(),
            r.watermark() == 0,
            r.pending() == Map::<u64, u64>::empty(),
    {
        CompletionTracker { complete_up_to: 0, uploaded_blocks: HashMap::new() }
    }

    /// Make a new tracker that assumes everything up to the given offset is
    /// complete. Use this if resuming a previously interrupted session.
    pub fn resume_from(complete_up_to: u64) -> (r: CompletionTracker)
        ensures
            r.wf(),
            r.watermark() == complete_up_to,
            r.pending() == Map::<u64, u64>::empty(),
    {
        CompletionTracker { complete_up_to, uploaded_blocks: HashMap::new() }
    }

    /// The offset up to which the upload is completely confirmed. It can be
    /// resumed from this position if something goes wrong.
    pub fn complete_up_to(&self) -> (r: u64)
        ensures
            r == self.watermark(),
    {
        self.complete_up_to
    }

    /// Mark a block as completely uploaded.
    ///
    /// The watermark never decreases, whatever the order of completions.
    pub fn complete_block(&mut self, block_offset: u64, block_len: u64)
        requires
            old(self).wf(),
            block_offset + block_len <= u64::MAX,
        ensures
            final(self).wf(),
            (final(self).pending(), final(self).watermark()) == spec_complete_block(
                old(self).pending(),
                old(self).watermark(),
                block_offset,
                block_len,
            ),
            old(self).watermark() <= final(self).watermark(),
    {
        if block_offset == self.complete_up_to {
            // Advance the cursor.
            self.complete_up_to = block_offset + block_len;
            let ghost p0 = self.uploaded_blocks@;
            let ghost w0 = self.complete_up_to;

            // Also look if we can advance it further still.
            loop
                invariant
                    self.wf(),
                    spec_absorb(self.pending(), self.watermark()) == spec_absorb(p0, w0),
                    w0 <= self.watermark(),
                ensures
                    (self.pending(), self.watermark()) == spec_absorb(p0, w0),
                    w0 <= self.watermark(),
                decreases self.pending().dom().len(),
            {
                let w = self.complete_up_to;
                match self.uploaded_blocks.remove(&w) {
                    Some(len) => {
                        self.complete_up_to = w + len;
                    },
                    None => {
                        proof {
                            assert(self.uploaded_blocks@.remove(w) =~= self.uploaded_blocks@);
                        }
                        break ;
                    },
                }
            }
        } else if block_offset > self.complete_up_to {
            // This block isn't at the low-water mark; there's a gap behind
            // it. Save it for later.
            self.uploaded_blocks.insert(block_offset, block_len);
        }
        // A block below the watermark is a duplicate of one already
        // absorbed; it is ignored.
    }
}

impl std::default::Default for CompletionTracker {
    /// The default tracker has nothing confirmed.
    fn default() -> (r: CompletionTracker)
        ensures
            r.wf(),
            r.watermark() == 0,
            r.pending() == Map::<u64, u64>::empty(),
    {
        CompletionTracker::new()
    }
}

/// The state after a sequence of completion steps, one per block, in order.
pub open spec fn spec_run(blocks: Seq<(u64, u64)>, pend: Map<u64, u64>, w: u64) -> (
    Map<u64, u64>,
    u64,
)
    decreases blocks.len(),
{
    if blocks.len() == 0 {
        (pend, w)
    } else {
        let s = spec_complete_block(pend, w, blocks[0].0, blocks[0].1);
        spec_run(blocks.drop_first(), s.0, s.1)
    }
}

/// The watermark never decreases across any sequence of completions.
pub proof fn lemma_watermark_monotonic(blocks: Seq<(u64, u64)>, pend: Map<u64, u64>, w: u64)
    ensures
        w <= spec_run(blocks, pend, w).1,
    decreases blocks.len(),
{
    if blocks.len() != 0 {
        let s = spec_complete_block(pend, w, blocks[0].0, blocks[0].1);
        if blocks[0].0 == w && blocks[0].0 + blocks[0].1 <= u64::MAX {
            lemma_absorb_monotonic(pend, (blocks[0].0 + blocks[0].1) as u64);
        }
        lemma_watermark_monotonic(blocks.drop_first(), s.0, s.1);
    }
}

/// The blocks do not overlap each other.
pub open spec fn blocks_disjoint(blocks: Seq<(u64, u64)>) -> bool {
    forall|i: int, j: int|
        0 <= i < blocks.len() && 0 <= j < blocks.len() && i != j ==> ((#[trigger] blocks[i]).0
            + blocks[i].1 <= (#[trigger] blocks[j]).0 || blocks[j].0 + blocks[j].1 <= blocks[i].0)
}

/// Whether one of the first `k` blocks is `(o, l)`.
pub open spec fn is_early_block(blocks: Seq<(u64, u64)>, k: int, o: u64, l: u64) -> bool {
    exists|i: int| 0 <= i < k && #[trigger] blocks[i] == (o, l)
}

/// Whether one of the first `k` blocks covers position `p`.
pub open spec fn covered_by_first(blocks: Seq<(u64, u64)>, k: int, p: u64) -> bool {
    exists|i: int| 0 <= i < k && (#[trigger] blocks[i]).0 <= p < blocks[i].0 + blocks[i].1
}

/// Every position below `n` lies in some block.
pub open spec fn blocks_cover(blocks: Seq<(u64, u64)>, n: u64) -> bool {
    forall|p: u64| p < n ==> #[trigger] covered_by_first(blocks, blocks.len() as int, p)
}

/// Every block is non-empty and ends within `n`.
pub open spec fn blocks_within(blocks: Seq<(u64, u64)>, n: u64) -> bool {
    forall|i: int|
        0 <= i < blocks.len() ==> ((#[trigger] blocks[i]).1 > 0 && blocks[i].0 + blocks[i].1 <= n)
}

/// The invariant carried while completing blocks in an arbitrary order,
/// with `k` blocks processed so far: every pending entry is a processed
/// block strictly above the watermark, every position below the watermark
/// lies in a processed block, and every processed block is either absorbed
/// below the watermark or pending.
pub open spec fn tracker_inv(
    blocks: Seq<(u64, u64)>,
    k: int,
    pend: Map<u64, u64>,
    w: u64,
    n: u64,
) -> bool {
    &&& pend.dom().finite()
    &&& forall|o: u64| #[trigger]
        pend.dom().contains(o) ==> (o > w && is_early_block(blocks, k, o, pend[o]))
    &&& forall|p: u64| p < w ==> #[trigger] covered_by_first(blocks, k, p)
    &&& forall|i: int|
        0 <= i < k ==> ((#[trigger] blocks[i]).0 + blocks[i].1 <= w || (pend.dom().contains(
            blocks[i].0,
        ) && pend[blocks[i].0] == blocks[i].1))
    &&& w <= n
}

/// Absorbing preserves the invariant, starting from a state whose pending
/// entries may sit at (not only above) the watermark.
proof fn lemma_absorb_inv(blocks: Seq<(u64, u64)>, k: int, pend: Map<u64, u64>, w: u64, n: u64)
    requires
        blocks_within(blocks, n),
        blocks_disjoint(blocks),
        0 <= k <= blocks.len(),
        pend.dom().finite(),
        forall|o: u64| #[trigger]
            pend.dom().contains(o) ==> (o >= w && is_early_block(blocks, k, o, pend[o])),
        forall|p: u64| p < w ==> #[trigger] covered_by_first(blocks, k, p),
        forall|i: int|
            0 <= i < k ==> ((#[trigger] blocks[i]).0 + blocks[i].1 <= w || (pend.dom().contains(
                blocks[i].0,
            ) && pend[blocks[i].0] == blocks[i].1)),
        w <= n,
    ensures
        tracker_inv(blocks, k, spec_absorb(pend, w).0, spec_absorb(pend, w).1, n),
    decreases pend.dom().len(),
{
    if pend.dom().contains(w) {
        // The entry at the watermark is a processed block, so it ends within
        // `n` and absorbing it cannot overflow.
        assert(is_early_block(blocks, k, w, pend[w]));
        let i0 = choose|i: int| 0 <= i < k && #[trigger] blocks[i] == (w, pend[w]);
        assert(w + pend[w] <= n);
        let w2 = (w + pend[w]) as u64;
        let pend2 = pend.remove(w);
        // Entries other than the absorbed one stay at or beyond the new
        // watermark: a processed block starting inside the absorbed one
        // would overlap it.
        assert forall|o: u64| #[trigger] pend2.dom().contains(o) implies (o >= w2
            && is_early_block(blocks, k, o, pend2[o])) by {
            assert(pend.dom().contains(o));
            assert(is_early_block(blocks, k, o, pend[o]));
            let i = choose|i: int| 0 <= i < k && #[trigger] blocks[i] == (o, pend[o]);
            if o < w2 {
                assert(blocks[i].0 + blocks[i].1 <= blocks[i0].0 || blocks[i0].0 + blocks[i0].1
                    <= blocks[i].0);
                assert(false);
            }
        }
        // Positions newly below the watermark lie in the absorbed block.
        assert forall|p: u64| p < w2 implies #[trigger] covered_by_first(blocks, k, p) by {
            if p >= w {
                assert(blocks[i0].0 <= p < blocks[i0].0 + blocks[i0].1);
            }
        }
        // Every processed block is still absorbed or pending.
        assert forall|i: int| 0 <= i < k implies ((#[trigger] blocks[i]).0 + blocks[i].1 <= w2 || (
        pend2.dom().contains(blocks[i].0) && pend2[blocks[i].0] == blocks[i].1)) by {
            if !(blocks[i].0 + blocks[i].1 <= w) && blocks[i].0 == w {
                // The block pending at the watermark is the absorbed one:
                // two distinct processed blocks cannot share an offset.
                if i != i0 {
                    assert(blocks[i].0 + blocks[i].1 <= blocks[i0].0 || blocks[i0].0 + blocks[i0].1
                        <= blocks[i].0);
                }
                assert(blocks[i].0 + blocks[i].1 <= w2);
            }
        }
        lemma_absorb_inv(blocks, k, pend2, w2, n);
    } else {
        // Absorbing stops; entries at the watermark are ruled out, so the
        // strict invariant holds.
        assert(spec_absorb(pend, w) == (pend, w));
    }
}

/// One completion step preserves the invariant.
proof fn lemma_step_inv(blocks: Seq<(u64, u64)>, k: int, pend: Map<u64, u64>, w: u64, n: u64)
    requires
        blocks_within(blocks, n),
        blocks_disjoint(blocks),
        0 <= k < blocks.len(),
        tracker_inv(blocks, k, pend, w, n),
    ensures
        tracker_inv(
            blocks,
            k + 1,
            spec_complete_block(pend, w, blocks[k].0, blocks[k].1).0,
            spec_complete_block(pend, w, blocks[k].0, blocks[k].1).1,
            n,
        ),
{
    let off = blocks[k].0;
    let len = blocks[k].1;
    if off < w {
        // Impossible: the position `off` already lies inside a processed
        // block, which block `k` would overlap.
        assert(covered_by_first(blocks, k, off));
        let i = choose|i: int|
            0 <= i < k && (#[trigger] blocks[i]).0 <= off < blocks[i].0 + blocks[i].1;
        assert(blocks[i].0 + blocks[i].1 <= blocks[k].0 || blocks[k].0 + blocks[k].1
            <= blocks[i].0);
        assert(false);
    } else if off == w {
        // The step absorbs from watermark `off + len`; the weakened
        // pre-state of absorption holds with block `k` processed.
        assert(off + len <= n);
        let w1 = (off + len) as u64;
        assert forall|o: u64| #[trigger] pend.dom().contains(o) implies (o >= w1
            && is_early_block(blocks, k + 1, o, pend[o])) by {
            assert(is_early_block(blocks, k, o, pend[o]));
            let i = choose|i: int| 0 <= i < k && #[trigger] blocks[i] == (o, pend[o]);
            assert(0 <= i < k + 1 && blocks[i] == (o, pend[o]));
            if o < w1 {
                assert(blocks[i].0 + blocks[i].1 <= blocks[k].0 || blocks[k].0 + blocks[k].1
                    <= blocks[i].0);
                assert(false);
            }
        }
        assert forall|p: u64| p < w1 implies #[trigger] covered_by_first(blocks, k + 1, p) by {
            if p < w {
                assert(covered_by_first(blocks, k, p));
                let i = choose|i: int|
                    0 <= i < k && (#[trigger] blocks[i]).0 <= p < blocks[i].0 + blocks[i].1;
                assert(0 <= i < k + 1 && blocks[i].0 <= p < blocks[i].0 + blocks[i].1);
            } else {
                assert(0 <= k < k + 1 && blocks[k].0 <= p < blocks[k].0 + blocks[k].1);
            }
        }
        assert forall|i: int| 0 <= i < k + 1 implies ((#[trigger] blocks[i]).0 + blocks[i].1 <= w1
            || (pend.dom().contains(blocks[i].0) && pend[blocks[i].0] == blocks[i].1)) by {
            if i == k {
                assert(blocks[i].0 + blocks[i].1 <= w1);
            }
        }
        lemma_absorb_inv(blocks, k + 1, pend, w1, n);
    } else {
        // The block is saved for later. Its offset cannot collide with a
        // pending entry: that entry would be a processed block overlapping
        // this one.
        let pend2 = pend.insert(off, len);
        if pend.dom().contains(off) {
            assert(is_early_block(blocks, k, off, pend[off]));
            let i = choose|i: int| 0 <= i < k && #[trigger] blocks[i] == (off, pend[off]);
            assert(blocks[i].0 + blocks[i].1 <= blocks[k].0 || blocks[k].0 + blocks[k].1
                <= blocks[i].0);
            assert(false);
        }
        assert forall|o: u64| #[trigger] pend2.dom().contains(o) implies (o > w && is_early_block(
            blocks,
            k + 1,
            o,
            pend2[o],
        )) by {
            if o == off {
                assert(0 <= k < k + 1 && blocks[k] == (o, pend2[o]));
            } else {
                assert(pend.dom().contains(o));
                assert(is_early_block(blocks, k, o, pend[o]));
                let i = choose|i: int| 0 <= i < k && #[trigger] blocks[i] == (o, pend[o]);
                assert(0 <= i < k + 1 && blocks[i] == (o, pend2[o]));
            }
        }
        assert forall|p: u64| p < w implies #[trigger] covered_by_first(blocks, k + 1, p) by {
            assert(covered_by_first(blocks, k, p));
            let i = choose|i: int|
                0 <= i < k && (#[trigger] blocks[i]).0 <= p < blocks[i].0 + blocks[i].1;
            assert(0 <= i < k + 1 && blocks[i].0 <= p < blocks[i].0 + blocks[i].1);
        }
        assert forall|i: int| 0 <= i < k + 1 implies ((#[trigger] blocks[i]).0 + blocks[i].1 <= w
            || (pend2.dom().contains(blocks[i].0) && pend2[blocks[i].0] == blocks[i].1)) by {
            if i == k {
                assert(pend2.dom().contains(off) && pend2[off] == len);
            } else if !(blocks[i].0 + blocks[i].1 <= w) {
                assert(pend.dom().contains(blocks[i].0));
                assert(blocks[i].0 != off);
                assert(pend2.dom().contains(blocks[i].0) && pend2[blocks[i].0] == blocks[i].1);
            }
        }
    }
}

/// Processing the remaining blocks from a state satisfying the invariant
/// ends in a state satisfying the invariant with every block processed.
proof fn lemma_run_inv(blocks: Seq<(u64, u64)>, k: int, pend: Map<u64, u64>, w: u64, n: u64)
    requires
        blocks_within(blocks, n),
        blocks_disjoint(blocks),
        0 <= k <= blocks.len(),
        tracker_inv(blocks, k, pend, w, n),
    ensures
        tracker_inv(
            blocks,
            blocks.len() as int,
            spec_run(blocks.skip(k), pend, w).0,
            spec_run(blocks.skip(k), pend, w).1,
            n,
        ),
    decreases blocks.len() - k,
{
    if k == blocks.len() {
        assert(blocks.skip(k).len() == 0);
    } else {
        assert(blocks.skip(k)[0] == blocks[k]);
        lemma_step_inv(blocks, k, pend, w, n);
        let s = spec_complete_block(pend, w, blocks[k].0, blocks[k].1);
        assert(blocks.skip(k).drop_first() =~= blocks.skip(k + 1));
        lemma_run_inv(blocks, k + 1, s.0, s.1, n);
    }
}

/// Completing non-overlapping, non-empty blocks that exactly cover
/// `[0, n)`, in any order, always ends with the watermark at `n`.
pub proof fn lemma_full_coverage(blocks: Seq<(u64, u64)>, n: u64)
    requires
        blocks_within(blocks, n),
        blocks_disjoint(blocks),
        blocks_cover(blocks, n),
    ensures
        spec_run(blocks, Map::<u64, u64>::empty(), 0).1 == n,
{
    let pend0 = Map::<u64, u64>::empty();
    assert(pend0.dom() =~= Set::<u64>::empty());
    assert(tracker_inv(blocks, 0, pend0, 0, n));
    lemma_run_inv(blocks, 0, pend0, 0, n);
    assert(blocks.skip(0) =~= blocks);
    let r = spec_run(blocks, pend0, 0);
    let w = r.1;
    if w < n {
        // The position at the watermark lies in some block; that block can
        // be neither absorbed (it ends above the watermark) nor pending (it
        // would start above the watermark).
        assert(covered_by_first(blocks, blocks.len() as int, w));
        let i = choose|i: int|
            0 <= i < blocks.len() && (#[trigger] blocks[i]).0 <= w < blocks[i].0 + blocks[i].1;
        assert(blocks[i].0 + blocks[i].1 <= w || (r.0.dom().contains(blocks[i].0)
            && r.0[blocks[i].0] == blocks[i].1));
        assert(false);
    }
}

} // verus!
