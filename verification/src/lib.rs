//! A verified model of a minimal GPU compute-dispatch flow.
//!
//! The library plans and validates every host-side decision of the flow:
//! buffer sizing, binding layouts, pipeline linkage, command recording
//! order, the staging buffer's mapping state machine, and the phase
//! machine that drives one full run. An unverified shell performs the
//! actual device calls and feeds their outcomes back as events.

pub mod binding;
pub mod buffers;
pub mod driver;
pub mod errors;
pub mod mapping;
pub mod readback;
pub mod recorder;
