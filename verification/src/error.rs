//! Errors of the terminal services that carry no data, with the messages that
//! describe them.

use vstd::prelude::*;

verus! {

/// Error returned by the terminal handle initialization when there is already
/// an instance of terminal services running.
#[derive(Debug, Clone, Copy, PartialEq, Eq, Structural)]
pub struct AlreadyRunning;

impl AlreadyRunning {
    /// The message describing the error.
    pub fn message(&self) -> (r: &'static str)
        ensures
            r@ == "there already is an instance of terminal services running"@,
    {
        "there already is an instance of terminal services running"
    }
}

/// Error returned by the events handler when the listener disconnects.
#[derive(Debug, Clone, Copy, PartialEq, Eq, Structural)]
pub struct ServicesOff;

impl ServicesOff {
    /// The message describing the error.
    pub fn message(&self) -> (r: &'static str)
        ensures
            r@ == "terminal event listener and/or screen render disconnected"@,
    {
        "terminal event listener and/or screen render disconnected"
    }
}

/// Happens when the event listener fails and disconnects.
#[derive(Debug, Clone, Copy, Default, PartialEq, Eq, Structural)]
pub struct ListenerFailed;

impl ListenerFailed {
    /// The message describing the error.
    pub fn message(&self) -> (r: &'static str)
        ensures
            r@ == "Event listener failed and disconnected"@,
    {
        "Event listener failed and disconnected"
    }
}

} // verus!
