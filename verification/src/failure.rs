//! The error taxonomy of the bridge: what can go wrong, and what each
//! failure leads to.

use vstd::prelude::*;

verus! {

/// The category of an I/O failure, as far as the bridge tells categories
/// apart.
///
/// Which error of the operating system falls under which category differs
/// from platform to platform; the caller maps the errors of its platform to
/// these categories, and everything that it cannot place is `Other`.
#[derive(Clone, Copy, Debug, PartialEq, Eq, Structural)]
pub enum IoErrorKind {
    /// No data arrived within the read wait.
    TimedOut,
    /// The device's backing file has vanished.
    NotFound,
    /// The read or write pipe was severed.
    BrokenPipe,
    /// Any other category.
    Other,
}

/// What an I/O failure means for the copy loop.
#[derive(Clone, Copy, Debug, PartialEq, Eq, Structural)]
pub enum ErrorClass {
    /// Benign: the loop goes on.
    Transient,
    /// The device became unavailable: the reconnect flow starts.
    Disconnect,
    /// Anything else: the bridge stops.
    Fatal,
}

impl IoErrorKind {
    /// The class of a failure of this category.
    pub open spec fn class(self) -> ErrorClass {
        match self {
            IoErrorKind::TimedOut => ErrorClass::Transient,
            IoErrorKind::NotFound => ErrorClass::Disconnect,
            IoErrorKind::BrokenPipe => ErrorClass::Disconnect,
            IoErrorKind::Other => ErrorClass::Fatal,
        }
    }

    /// Classifies a failure of this category.
    pub fn classify(self) -> (class: ErrorClass)
        ensures
            class == self.class(),
    {
        match self {
            IoErrorKind::TimedOut => ErrorClass::Transient,
            IoErrorKind::NotFound | IoErrorKind::BrokenPipe => ErrorClass::Disconnect,
            IoErrorKind::Other => ErrorClass::Fatal,
        }
    }
}

/// What the bridge does about a failure.
#[derive(Clone, Copy, Debug, PartialEq, Eq, Structural)]
pub enum Disposition {
    /// The failure is dropped and the loop continues.
    Ignored,
    /// The failure starts the reconnect flow.
    Recoverable,
    /// The failure ends the process, with a reported cause.
    Fatal,
}

/// A failure reported to the bridge. `reason` is the text that the failing
/// operation gave for it.
#[derive(Clone, Debug, PartialEq, Eq)]
pub enum Failure {
    /// The devices could not be listed.
    Enumeration { reason: String },
    /// The device could not be opened, or opened again.
    PortOpen { reason: String },
    /// A read from the device or a write to the sink failed.
    Io { kind: IoErrorKind, reason: String },
    /// The filesystem watch could not be set up.
    WatchSetup { reason: String },
    /// The filesystem watch delivered an error in place of an event.
    WatchSource { reason: String },
    /// The filesystem watch ended before the device came back.
    WatchExhausted,
}

impl Failure {
    /// What the bridge does about this failure.
    pub open spec fn disposition(self) -> Disposition {
        match self {
            Failure::Io { kind, .. } => match kind.class() {
                ErrorClass::Transient => Disposition::Ignored,
                ErrorClass::Disconnect => Disposition::Recoverable,
                ErrorClass::Fatal => Disposition::Fatal,
            },
            _ => Disposition::Fatal,
        }
    }

    /// The cause to report for this failure.
    pub open spec fn cause_text(self) -> Seq<char> {
        match self {
            Failure::Enumeration { reason } => reason@,
            Failure::PortOpen { reason } => reason@,
            Failure::Io { reason, .. } => reason@,
            Failure::WatchSetup { reason } => reason@,
            Failure::WatchSource { reason } => reason@,
            Failure::WatchExhausted => "unexpected watch termination"@,
        }
    }

    /// Decides what the bridge does about this failure.
    pub fn dispose(&self) -> (d: Disposition)
        ensures
            d == self.disposition(),
    {
        match self {
            Failure::Io { kind, .. } => match kind.classify() {
                ErrorClass::Transient => Disposition::Ignored,
                ErrorClass::Disconnect => Disposition::Recoverable,
                ErrorClass::Fatal => Disposition::Fatal,
            },
            _ => Disposition::Fatal,
        }
    }

    /// The cause to report for this failure.
    pub fn cause(&self) -> (text: String)
        ensures
            text@ == self.cause_text(),
    {
        match self {
            Failure::Enumeration { reason } => reason.clone(),
            Failure::PortOpen { reason } => reason.clone(),
            Failure::Io { reason, .. } => reason.clone(),
            Failure::WatchSetup { reason } => reason.clone(),
            Failure::WatchSource { reason } => reason.clone(),
            Failure::WatchExhausted => String::from_str("unexpected watch termination"),
        }
    }
}

} // verus!
