//! The pixel mapping algorithm: how one batch of RGB commands lands on the
//! strip buffer, honoring offset, stride and wraparound.

use vstd::prelude::*;
use crate::batch::PixelBatch;

verus! {

/// The four-channel value written to one physical LED: red, green, blue and
/// a fourth channel that this pipeline always leaves at zero.
pub open spec fn rgba(c: (u8, u8, u8)) -> (u8, u8, u8, u8) {
    (c.0, c.1, c.2, 0u8)
}

/// The strip index the q-th emitted pixel lands on: the write cursor starts
/// at `offset` and advances by `step` after every write.
pub open spec fn write_index(offset: nat, step: nat, q: int) -> int {
    offset + q * step
}

/// How many pixels a mapping pass still emits when `p` pixels are already
/// out and the cursor stands at `i`, for a run of `len` pixels on a strip of
/// length `n` with stride `step`. Emission stops at the strip end; without
/// `looping` it also stops after one full pass over the run; an empty run
/// emits nothing.
pub open spec fn write_count(len: nat, p: nat, i: nat, step: nat, looping: bool, n: nat) -> nat
    decreases (if i < n { n - i } else { 0 })
        when step >= 1
{
    if len == 0 || i >= n || (!looping && p >= len) {
        0
    } else {
        1 + write_count(len, p + 1, i + step, step, looping, n)
    }
}

/// The total number of writes one batch performs on a strip of length `n`.
pub open spec fn batch_write_count(b: PixelBatch, n: nat) -> nat {
    write_count(b.pixels@.len(), 0, b.offset as nat, b.step as nat, b.loop_enabled, n)
}

/// Whether strip index `j` is touched by the first `count` writes of a pass
/// starting at `offset` with stride `step`.
pub open spec fn in_write_set(offset: nat, step: nat, count: nat, j: int) -> bool {
    exists|q: int| 0 <= q < count && j == #[trigger] write_index(offset, step, q)
}

/// What one mapping pass reports back to the render worker.
#[derive(PartialEq, Eq, Structural, Debug, Clone, Copy)]
pub struct MapOutcome {
    /// How many pixel writes were performed.
    pub writes: usize,
    /// True when, without looping, the strip end cut the pass short before
    /// the whole run was written; informational, never a failure.
    pub boundary_reached: bool,
}

/// Everything a mapping pass promises of the frame `f1` it produced from
/// `f0` under batch `b`: the q-th write lands on `write_index(.., q)` and
/// carries the q-th cyclic pixel, every untouched index keeps its old value,
/// and the outcome reports the write count and the boundary condition.
pub open spec fn mapping_post(
    b: PixelBatch,
    f0: Seq<(u8, u8, u8, u8)>,
    f1: Seq<(u8, u8, u8, u8)>,
    out: MapOutcome,
) -> bool {
    let offset = b.offset as nat;
    let step = b.step as nat;
    let len = b.pixels@.len();
    &&& f1.len() == f0.len()
    &&& out.writes == batch_write_count(b, f0.len())
    &&& forall|q: int| 0 <= q < out.writes ==> {
        &&& #[trigger] write_index(offset, step, q) < f0.len()
        &&& f1[write_index(offset, step, q)] == rgba(b.pixels@[q % (len as int)])
    }
    &&& forall|j: int|
        0 <= j < f0.len() && !in_write_set(offset, step, out.writes as nat, j) ==> f1[j] == f0[j]
    &&& out.boundary_reached == (!b.loop_enabled && len > 0 && out.writes < len)
}

/// Successive write indices strictly increase, so no two writes of one pass
/// land on the same strip position.
proof fn lemma_write_index_increasing(offset: nat, step: nat, q1: int, q2: int)
    requires
        step >= 1,
        0 <= q1 < q2,
    ensures
        write_index(offset, step, q1) < write_index(offset, step, q2),
{
    assert(q1 * step < q2 * step) by (nonlinear_arith)
        requires
            step >= 1,
            0 <= q1 < q2,
    ;
}

/// Maps one batch onto the frame: the cursor starts at the batch's offset
/// and strides by its step; the pixel run is cycled when looping is on; the
/// pass stops at the strip end or, without looping, after one full run.
pub fn map_batch(batch: &PixelBatch, frame: &mut Vec<(u8, u8, u8, u8)>) -> (out: MapOutcome)
    requires
        batch.wf(),
    ensures
        mapping_post(*batch, old(frame)@, final(frame)@, out),
{
    let ghost offset_g: nat = batch.offset as nat;
    let ghost step_g: nat = batch.step as nat;
    let ghost frame0: Seq<(u8, u8, u8, u8)> = frame@;
    let len: usize = batch.pixels.len();
    let n: usize = frame.len();
    if len == 0 {
        return MapOutcome { writes: 0, boundary_reached: false };
    }
    let mut p: usize = 0;
    let mut i: usize = batch.offset;
    let mut boundary: bool = false;
    loop
        invariant_except_break
            boundary == false,
            i as int == write_index(offset_g, step_g, p as int),
            p <= i,
            write_count(len as nat, 0, offset_g, step_g, batch.loop_enabled, n as nat) == p
                + write_count(len as nat, p as nat, i as nat, step_g, batch.loop_enabled, n as nat),
        invariant
            batch.step >= 1,
            step_g == batch.step as nat,
            offset_g == batch.offset as nat,
            len == batch.pixels@.len(),
            1 <= len,
            n == frame0.len(),
            frame@.len() == n,
            forall|q: int| 0 <= q < p ==> {
                &&& #[trigger] write_index(offset_g, step_g, q) < n
                &&& frame@[write_index(offset_g, step_g, q)]
                    == rgba(batch.pixels@[q % (len as int)])
            },
            forall|j: int|
                0 <= j < n && !in_write_set(offset_g, step_g, p as nat, j) ==> frame@[j]
                    == frame0[j],
        ensures
            frame@.len() == n,
            p == write_count(len as nat, 0, offset_g, step_g, batch.loop_enabled, n as nat),
            forall|q: int| 0 <= q < p ==> {
                &&& #[trigger] write_index(offset_g, step_g, q) < n
                &&& frame@[write_index(offset_g, step_g, q)]
                    == rgba(batch.pixels@[q % (len as int)])
            },
            forall|j: int|
                0 <= j < n && !in_write_set(offset_g, step_g, p as nat, j) ==> frame@[j]
                    == frame0[j],
            boundary == (!batch.loop_enabled && p < len),
        decreases (if i < n { n - i } else { 0 }),
    {
        if !batch.loop_enabled && p >= len {
            break;
        }
        if i >= n {
            if !batch.loop_enabled {
                boundary = true;
            }
            break;
        }
        let ghost frame_pre = frame@;
        let c: (u8, u8, u8) = batch.pixels[p % len];
        frame[i] = (c.0, c.1, c.2, 0u8);
        proof {
            assert forall|q: int| 0 <= q < p implies #[trigger] write_index(offset_g, step_g, q)
                < i as int by {
                lemma_write_index_increasing(offset_g, step_g, q, p as int);
            }
            assert(in_write_set(offset_g, step_g, (p + 1) as nat, i as int));
            assert forall|j: int|
                0 <= j < n && !in_write_set(offset_g, step_g, (p + 1) as nat, j) implies frame@[j]
                == frame0[j] by {
                assert(!in_write_set(offset_g, step_g, p as nat, j)) by {
                    if in_write_set(offset_g, step_g, p as nat, j) {
                        let q = choose|q: int|
                            0 <= q < p && j == #[trigger] write_index(offset_g, step_g, q);
                        assert(0 <= q < p + 1 && j == write_index(offset_g, step_g, q));
                    }
                }
                assert(j != i as int);
                assert(frame@[j] == frame_pre[j]);
            }
        }
        p = p + 1;
        if batch.step <= usize::MAX - i {
            i = i + batch.step;
            proof {
                assert((p as int) * step_g == (p - 1) * step_g + step_g) by (nonlinear_arith);
            }
        } else {
            proof {
                // The cursor would pass both the strip end and the machine
                // word, so the pass is over; the count closes here.
                assert(write_count(
                    len as nat,
                    p as nat,
                    (i + batch.step) as nat,
                    step_g,
                    batch.loop_enabled,
                    n as nat,
                ) == 0);
            }
            if !batch.loop_enabled && p < len {
                boundary = true;
            }
            break;
        }
    }
    MapOutcome { writes: p, boundary_reached: boundary }
}

/// Bound for one pass without looping: counting from `p` pixels already
/// emitted, at most `len - p` more come out, whatever the cursor and strip.
proof fn lemma_pass_bound(len: nat, p: nat, i: nat, step: nat, n: nat)
    requires
        step >= 1,
        p <= len,
    ensures
        write_count(len, p, i, step, false, n) <= len - p,
    decreases (if i < n { n - i } else { 0 }),
{
    if len == 0 || i >= n || p >= len {
    } else {
        lemma_pass_bound(len, p + 1, i + step, step, n);
    }
}

/// Law: with looping off, a batch writes at most one pixel per element of
/// its run — at most `len(pixels)` writes, whatever the strip length,
/// offset and stride.
pub proof fn lemma_single_pass_write_bound(b: PixelBatch, n: nat)
    requires
        b.wf(),
        !b.loop_enabled,
    ensures
        batch_write_count(b, n) <= b.pixels@.len(),
{
    lemma_pass_bound(b.pixels@.len(), 0, b.offset as nat, b.step as nat, n);
}

/// Every counted write stays on the strip: the k-th write from cursor `i`
/// lands below `n`.
proof fn lemma_writes_in_bounds(len: nat, p: nat, i: nat, step: nat, looping: bool, n: nat, k: int)
    requires
        step >= 1,
        0 <= k < write_count(len, p, i, step, looping, n),
    ensures
        i + k * step < n,
    decreases k,
{
    if k == 0 {
        assert(0 * step == 0) by (nonlinear_arith);
    } else {
        lemma_writes_in_bounds(len, p + 1, i + step, step, looping, n, k - 1);
        assert((i + step) + (k - 1) * step == i + k * step) by (nonlinear_arith);
    }
}

/// Law: every write of a batch lands within the strip: the k-th write goes
/// to `write_index(offset, step, k)`, which lies below the strip length.
pub proof fn lemma_batch_writes_in_bounds(b: PixelBatch, n: nat, k: int)
    requires
        b.wf(),
        0 <= k < batch_write_count(b, n),
    ensures
        write_index(b.offset as nat, b.step as nat, k) < n,
{
    lemma_writes_in_bounds(b.pixels@.len(), 0, b.offset as nat, b.step as nat, b.loop_enabled, n, k);
}

/// Completeness of a looping pass, counting from cursor `i`: whenever the
/// k-th index from here is still on the strip, the k-th write happens.
proof fn lemma_loop_fills(len: nat, p: nat, i: nat, step: nat, n: nat, k: int)
    requires
        step >= 1,
        len > 0,
        0 <= k,
        i + k * step < n,
    ensures
        k < write_count(len, p, i, step, true, n),
    decreases k,
{
    assert(0 <= k * step) by (nonlinear_arith)
        requires
            0 <= k,
            step >= 1,
    ;
    if k == 0 {
    } else {
        assert((i + step) + (k - 1) * step == i + k * step) by (nonlinear_arith);
        lemma_loop_fills(len, p + 1, i + step, step, n, k - 1);
    }
}

/// Law: with looping on and a non-empty run, writing continues to the strip
/// end: every index `offset + k * step` below the strip length is written.
pub proof fn lemma_loop_fills_strip(b: PixelBatch, n: nat, k: int)
    requires
        b.wf(),
        b.loop_enabled,
        b.pixels@.len() > 0,
        0 <= k,
        write_index(b.offset as nat, b.step as nat, k) < n,
    ensures
        k < batch_write_count(b, n),
{
    lemma_loop_fills(b.pixels@.len(), 0, b.offset as nat, b.step as nat, n, k);
}

/// Completeness of a single pass without looping, counting from `p` pixels
/// already emitted: while the run has pixels left and the strip has room,
/// the next write happens.
proof fn lemma_pass_complete(len: nat, p: nat, i: nat, step: nat, n: nat, k: int)
    requires
        step >= 1,
        0 <= k,
        p + k < len,
        i + k * step < n,
    ensures
        k < write_count(len, p, i, step, false, n),
    decreases k,
{
    assert(0 <= k * step) by (nonlinear_arith)
        requires
            0 <= k,
            step >= 1,
    ;
    if k == 0 {
    } else {
        assert((i + step) + (k - 1) * step == i + k * step) by (nonlinear_arith);
        lemma_pass_complete(len, p + 1, i + step, step, n, k - 1);
    }
}

/// Law: with looping off, a pass stops only at the run's end or the strip's
/// end, whichever comes first: the k-th write happens whenever the run still
/// has a k-th pixel and its index is still on the strip.
pub proof fn lemma_single_pass_complete(b: PixelBatch, n: nat, k: int)
    requires
        b.wf(),
        !b.loop_enabled,
        0 <= k < b.pixels@.len(),
        write_index(b.offset as nat, b.step as nat, k) < n,
    ensures
        k < batch_write_count(b, n),
{
    lemma_pass_complete(b.pixels@.len(), 0, b.offset as nat, b.step as nat, n, k);
}

/// Law: a batch with an empty pixel run performs no writes at all.
pub proof fn lemma_empty_batch_no_writes(b: PixelBatch, n: nat)
    requires
        b.wf(),
        b.pixels@.len() == 0,
    ensures
        batch_write_count(b, n) == 0,
{
}

} // verus!
