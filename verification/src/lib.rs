//! Host-side orchestration for a progressive GPU path tracer.
//!
//! The renderer accumulates one quasi-random sample per dispatched frame into
//! a running-average image until a sample budget is reached.  This crate
//! verifies the host logic: the accumulation state machine and its per-sample
//! blend weights, deterministic generation of the low-discrepancy sampling
//! table, render-target sizing, surface reconfiguration, the frame timer, and
//! the event-loop decision rules.  The GPU backend itself is reached only
//! through small trusted wrappers.

pub mod context;
pub mod driver;
pub mod gpu;
pub mod pathtracer;
pub mod metrics;
pub mod sampling;
pub mod weight;
