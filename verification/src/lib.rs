//! Dispatch core for a four-target ATX remote controller.
//!
//! A host sends fixed-width four-byte command frames over a serial
//! transport. A gateway normalizes each frame, decodes it as a big-endian
//! 32-bit command code, and hands the code across a single-slot blocking
//! channel to an actuator, which resolves it through a fixed action table,
//! pulses the selected output line for the configured duration, and answers
//! with a single acknowledgment token before the gateway resumes.
//!
//! This crate holds the verified logic of that design: the codec for the
//! wire format, the action table, the gateway's per-chunk decision, and a
//! model of the cross-core dispatch protocol with its alternation
//! discipline. The hardware itself (USB transport, GPIO lines, the
//! millisecond delay) lives outside the crate and is driven by these
//! functions' results.

pub mod actions;
pub mod codec;
pub mod gateway;
pub mod protocol;

use vstd::prelude::*;

verus! {

/// Word the actuator writes back on the channel when a command has been
/// handled, whether or not the code was recognized. Reserved: it is not a
/// command code.
pub const TASK_COMPLETE: u32 = 0xEE;

} // verus!
