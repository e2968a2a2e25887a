//! A verified core for an LED-strip rendering pipeline.
//!
//! Batches of RGB commands arrive at an intake surface, pass through a
//! bounded FIFO queue, and are mapped by a render worker onto a strip of
//! addressable LEDs, honoring offset, stride and wraparound semantics.
//! This crate holds the command model, the queuing discipline, the pixel
//! mapping algorithm and the bootstrap gating; hardware access and network
//! transport live outside it.

pub mod batch;
pub mod boot;
pub mod intake;
pub mod mapping;
pub mod queue;
pub mod worker;
