//! The render worker's control decisions. The worker is a long-lived loop:
//! it takes one item from the queue at a time, maps it onto the frame, and
//! asks for one render cycle — render, then wait, the wait only after a
//! successful render. A render or wait failure is logged by the shell and
//! the worker simply awaits the next batch; only a closed queue stops it.

use vstd::prelude::*;
use crate::batch::PixelBatch;
use crate::mapping::{map_batch, mapping_post, MapOutcome};

verus! {

/// What the worker must do after handling one dequeued item.
#[derive(PartialEq, Eq, Structural, Debug, Clone, Copy)]
pub enum WorkerDirective {
    /// Push the frame to the hardware: issue render, then wait.
    RenderFrame,
    /// The queue closed; the worker stops for good.
    Shutdown,
}

/// Handles one item taken from the queue. A present batch is mapped onto
/// the frame and always asks for a render cycle — even a batch that wrote
/// nothing still gets one. A closed queue (`None`) shuts the worker down
/// and leaves the frame alone.
pub fn worker_step(item: Option<PixelBatch>, frame: &mut Vec<(u8, u8, u8, u8)>) -> (r: (
    WorkerDirective,
    Option<MapOutcome>,
))
    requires
        item matches Some(b) ==> b.wf(),
    ensures
        match item {
            Option::Some(b) => {
                &&& r.0 == WorkerDirective::RenderFrame
                &&& r.1 matches Some(out) && mapping_post(b, old(frame)@, final(frame)@, out)
            },
            Option::None => {
                &&& r.0 == WorkerDirective::Shutdown
                &&& r.1 is None
                &&& final(frame)@ == old(frame)@
            },
        },
{
    match item {
        Option::Some(b) => {
            let out = map_batch(&b, frame);
            (WorkerDirective::RenderFrame, Option::Some(out))
        },
        Option::None => (WorkerDirective::Shutdown, Option::None),
    }
}

} // verus!
