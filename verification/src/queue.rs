//! The batch queue: a bounded FIFO channel from intake to the render
//! worker. Batches leave in exactly the order they entered; a full queue
//! refuses a best-effort enqueue instead of blocking.

use vstd::prelude::*;
use crate::batch::PixelBatch;

verus! {

/// A best-effort enqueue found no capacity; the batch was dropped. Never
/// fatal: the caller is informed and the worker is unaffected.
#[derive(PartialEq, Eq, Structural, Debug, Clone, Copy)]
pub struct QueueFullError;

/// A bounded FIFO of pending batches with a single consumer. The capacity
/// is fixed when the queue is built.
pub struct BatchQueue {
    items: Vec<PixelBatch>,
    capacity: usize,
}

impl BatchQueue {
    /// The pending batches, oldest first.
    pub closed spec fn contents(&self) -> Seq<PixelBatch> {
        self.items@
    }

    /// The fixed number of batches the queue can hold.
    pub closed spec fn cap(&self) -> nat {
        self.capacity as nat
    }

    /// The queue never holds more than its capacity.
    pub open spec fn wf(&self) -> bool {
        self.contents().len() <= self.cap()
    }

    /// Builds an empty queue with the given capacity.
    pub fn new(capacity: usize) -> (q: BatchQueue)
        ensures
            q.wf(),
            q.cap() == capacity,
            q.contents() == Seq::<PixelBatch>::empty(),
    {
        BatchQueue { items: Vec::new(), capacity }
    }

    /// How many batches are pending.
    pub fn len(&self) -> (n: usize)
        ensures
            n == self.contents().len(),
    {
        self.items.len()
    }

    /// The capacity the queue was built with.
    pub fn capacity(&self) -> (c: usize)
        ensures
            c == self.cap(),
    {
        self.capacity
    }

    /// Best-effort enqueue: appends the batch when there is room, otherwise
    /// returns at once with the batch dropped and the queue unchanged.
    pub fn try_enqueue(&mut self, b: PixelBatch) -> (r: Result<(), QueueFullError>)
        requires
            old(self).wf(),
        ensures
            final(self).wf(),
            final(self).cap() == old(self).cap(),
            old(self).contents().len() < old(self).cap() ==> r is Ok
                && final(self).contents() == old(self).contents().push(b),
            old(self).contents().len() >= old(self).cap() ==> r == Err::<(), QueueFullError>(
                QueueFullError,
            )
                && final(self).contents() == old(self).contents(),
    {
        if self.items.len() < self.capacity {
            self.items.push(b);
            Ok(())
        } else {
            Err(QueueFullError)
        }
    }

    /// Guaranteed enqueue, taken once the caller has waited for room: the
    /// caller owes the queue space, and the batch is always appended.
    pub fn enqueue(&mut self, b: PixelBatch)
        requires
            old(self).wf(),
            old(self).contents().len() < old(self).cap(),
        ensures
            final(self).wf(),
            final(self).cap() == old(self).cap(),
            final(self).contents() == old(self).contents().push(b),
    {
        self.items.push(b);
    }

    /// Takes the oldest pending batch, or nothing when the queue is empty.
    pub fn dequeue(&mut self) -> (r: Option<PixelBatch>)
        requires
            old(self).wf(),
        ensures
            final(self).wf(),
            final(self).cap() == old(self).cap(),
            old(self).contents().len() > 0 ==> (r matches Some(b)
                && b == old(self).contents()[0]
                && final(self).contents() == old(self).contents().drop_first()),
            old(self).contents().len() == 0 ==> r is None
                && final(self).contents() == old(self).contents(),
    {
        if self.items.len() > 0 {
            let b = self.items.remove(0);
            proof {
                assert(self.contents() =~= old(self).contents().drop_first());
            }
            Some(b)
        } else {
            None
        }
    }
}

} // verus!
