//! The progress lines that the bridge announces on the diagnostic stream.
//!
//! They never go to the data sink, so log text cannot end up between the
//! forwarded bytes.

use vstd::prelude::*;

verus! {

/// The line announcing the first connection to the device at `path`.
pub open spec fn connected_text(path: Seq<char>) -> Seq<char> {
    "Connected to "@ + path
}

/// The line announcing that the device at `path` was lost, with the reason
/// that the failed operation gave.
pub open spec fn lost_text(path: Seq<char>, reason: Seq<char>) -> Seq<char> {
    "Lost connection to "@ + path + ": "@ + reason
}

/// The line announcing that the device at `path` is back.
pub open spec fn reconnected_text(path: Seq<char>) -> Seq<char> {
    "Reconnected to "@ + path
}

/// Builds the line announcing the first connection to the device at `path`.
pub fn connected_line(path: &str) -> (line: String)
    ensures
        line@ == connected_text(path@),
{
    String::from_str("Connected to ").concat(path)
}

/// Builds the line announcing that the device at `path` was lost.
pub fn lost_line(path: &str, reason: &str) -> (line: String)
    ensures
        line@ == lost_text(path@, reason@),
{
    String::from_str("Lost connection to ").concat(path).concat(": ").concat(reason)
}

/// Builds the line announcing that the device at `path` is back.
pub fn reconnected_line(path: &str) -> (line: String)
    ensures
        line@ == reconnected_text(path@),
{
    String::from_str("Reconnected to ").concat(path)
}

} // verus!
