//! The command model: one client-submitted unit of pixel-color work.

use vstd::prelude::*;

verus! {

/// One unit of rendering work: an ordered run of RGB triples together with
/// the placement parameters the render worker honors.
///
/// A batch is immutable once enqueued: the worker only reads it.
#[derive(Debug)]
pub struct PixelBatch {
    /// RGB triples in mapping order, each channel an 8-bit value.
    pub pixels: Vec<(u8, u8, u8)>,
    /// Starting index into the strip buffer.
    pub offset: usize,
    /// Stride between successive writes; always at least 1.
    pub step: usize,
    /// When true, the pixel run is cycled to fill the strip to its end.
    pub loop_enabled: bool,
}

/// Why an inbound batch description was rejected before reaching the queue.
#[derive(PartialEq, Eq, Structural, Debug, Clone, Copy)]
pub enum DecodeError {
    /// A stride of zero would pin the write cursor in place; strides must be
    /// positive.
    ZeroStep,
}

impl PixelBatch {
    /// A batch is well formed when its stride is positive, so the write
    /// cursor always advances.
    pub open spec fn wf(&self) -> bool {
        self.step >= 1
    }

    /// Builds a batch from a decoded payload, applying the defaults
    /// (offset 0, stride 1, looping off is the caller's default) and
    /// rejecting a zero stride.
    pub fn decode(
        pixels: Vec<(u8, u8, u8)>,
        offset: Option<usize>,
        step: Option<usize>,
        loop_enabled: bool,
    ) -> (r: Result<PixelBatch, DecodeError>)
        ensures
            step == Some(0usize) <==> (r matches Err(DecodeError::ZeroStep)),
            step != Some(0usize) ==> (r matches Ok(b)
                && b.pixels@ == pixels@
                && b.offset == (match offset { Some(o) => o, None => 0 })
                && b.step == (match step { Some(s) => s, None => 1 })
                && b.loop_enabled == loop_enabled
                && b.wf()),
    {
        let step_v: usize = match step {
            Some(s) => {
                if s == 0 {
                    return Err(DecodeError::ZeroStep);
                }
                s
            },
            None => 1,
        };
        let offset_v: usize = match offset {
            Some(o) => o,
            None => 0,
        };
        Ok(PixelBatch { pixels, offset: offset_v, step: step_v, loop_enabled })
    }
}

} // verus!
