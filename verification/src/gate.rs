//! The signal gate: whether an interrupt ends the process at once.
//!
//! While an interactive, cancelable operation runs, that operation owns the
//! interrupt, for its own way of cancelling; at every other time an interrupt
//! ends the process, without waiting for a blocking read to return.

use vstd::prelude::*;

verus! {

/// The exit status of a process that a keyboard interrupt ended.
pub const INTERRUPT_STATUS: i32 = 130;

/// What the interrupt handler has to do.
#[derive(Clone, Copy, Debug, PartialEq, Eq, Structural)]
pub enum InterruptAction {
    /// Nothing: the interactive operation deals with the interrupt.
    Ignore,
    /// Write a newline to the diagnostic stream and end the process with
    /// this status.
    Terminate { status: i32 },
}

/// What an interrupt leads to, by the flag of a signal gate.
pub open spec fn interrupt_response(armed: bool) -> InterruptAction {
    if armed {
        InterruptAction::Ignore
    } else {
        InterruptAction::Terminate { status: INTERRUPT_STATUS }
    }
}

/// The flag that the main flow sets and the interrupt handler reads. It is
/// up only while an interactive operation runs.
#[derive(Clone, Copy, Debug, PartialEq, Eq)]
pub struct SignalGate {
    armed: bool,
}

impl SignalGate {
    /// Whether the flag is up.
    pub closed spec fn armed(&self) -> bool {
        self.armed
    }

    /// A gate with the flag down: interrupts end the process.
    pub fn new() -> (gate: SignalGate)
        ensures
            !gate.armed(),
    {
        SignalGate { armed: false }
    }

    /// A gate that stands for a flag as it was read.
    pub fn from_flag(flag: bool) -> (gate: SignalGate)
        ensures
            gate.armed() == flag,
    {
        SignalGate { armed: flag }
    }

    /// Reads the flag.
    pub fn is_armed(&self) -> (flag: bool)
        ensures
            flag == self.armed(),
    {
        self.armed
    }

    /// Puts the flag up, before an interactive operation begins.
    pub fn arm_for_ui(&mut self)
        ensures
            final(self).armed(),
    {
        self.armed = true;
    }

    /// Takes the flag down, once the interactive operation has ended, with a
    /// choice or with a cancellation.
    pub fn disarm(&mut self)
        ensures
            !final(self).armed(),
    {
        self.armed = false;
    }

    /// Decides what the interrupt handler has to do: nothing while the flag
    /// is up, and else to end the process with the interrupt status,
    /// whatever the main flow is doing.
    pub fn on_interrupt(&self) -> (action: InterruptAction)
        ensures
            action == interrupt_response(self.armed()),
            self.armed() ==> action == InterruptAction::Ignore,
            !self.armed() ==> action == (InterruptAction::Terminate { status: INTERRUPT_STATUS }),
    {
        if self.armed {
            InterruptAction::Ignore
        } else {
            InterruptAction::Terminate { status: INTERRUPT_STATUS }
        }
    }
}

} // verus!
