//! The decision core of a resilient serial-to-stdout bridge.
//!
//! The bridge streams bytes from a serial device to an output sink, notices
//! when the device disappears, waits for it to come back and resumes. Every
//! rule of that behaviour lives here as a state machine from events to
//! actions; the caller owns the device, the sink, the filesystem poller and
//! the interrupt handler, performs each action and reports what happened.

pub mod bridge;
pub mod failure;
pub mod gate;
pub mod ports;
pub mod status;
pub mod watcher;
