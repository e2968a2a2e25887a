//! The intake surface's acceptance decision: a submission passes only
//! through an open gate into a queue with room.

use vstd::prelude::*;
use crate::batch::PixelBatch;
use crate::boot::{BootResult, IntakeGate};
use crate::queue::BatchQueue;

verus! {

/// Why a submission was not accepted.
#[derive(PartialEq, Eq, Structural, Debug, Clone, Copy)]
pub enum IntakeError {
    /// The readiness gate is closed: the strip capability was never
    /// constructed, so intake is not open.
    NotReady,
    /// The queue is full; the batch was dropped, non-fatally.
    QueueFull,
}

/// Whether a submission goes through: intake must be ready and the queue
/// must have room.
pub open spec fn intake_accepts(gate: IntakeGate, pending: Seq<PixelBatch>, cap: nat) -> bool {
    gate.is_open() && pending.len() < cap
}

/// Best-effort submission: it goes through exactly when intake is ready
/// and the queue has room; anything else leaves the queue untouched and
/// tells the caller why.
pub fn submit(gate: &IntakeGate, queue: &mut BatchQueue, b: PixelBatch) -> (r: Result<
    (),
    IntakeError,
>)
    requires
        old(queue).wf(),
    ensures
        final(queue).wf(),
        final(queue).cap() == old(queue).cap(),
        r is Ok <==> intake_accepts(*gate, old(queue).contents(), old(queue).cap()),
        r is Ok ==> final(queue).contents() == old(queue).contents().push(b),
        r is Err ==> final(queue).contents() == old(queue).contents(),
        !gate.is_open() ==> r == Err::<(), IntakeError>(IntakeError::NotReady),
        gate.is_open() && old(queue).contents().len() >= old(queue).cap() ==> r == Err::<
            (),
            IntakeError,
        >(IntakeError::QueueFull),
{
    if !gate.accepts_work() {
        return Err(IntakeError::NotReady);
    }
    match queue.try_enqueue(b) {
        Ok(()) => Ok(()),
        Err(_) => Err(IntakeError::QueueFull),
    }
}

/// Law: after a failed bootstrap, intake is never ready, so no submission
/// ever goes through, whatever the queue holds.
pub proof fn lemma_failed_boot_never_accepts(
    outcome: BootResult,
    gate: IntakeGate,
    pending: Seq<PixelBatch>,
    cap: nat,
)
    requires
        outcome is Failed,
        gate.is_open() == (outcome is Ready),
    ensures
        !intake_accepts(gate, pending, cap),
{
}

} // verus!
