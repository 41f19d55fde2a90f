use vstd::prelude::*;
use vstd::string::StringExecFns;

verus! {

/// A broken precondition of the one-shot protocol, detected at run time:
/// either a second send on a channel whose single send already happened, or
/// a receive that found no message ready (never sent, or already received).
#[derive(Clone, Copy, Debug, PartialEq, Eq, Structural)]
pub enum MisuseError {
    SecondSend,
    NoMessage,
}

impl MisuseError {
    /// The human-readable reason for the failure.
    pub fn reason(&self) -> (text: String)
        ensures
            *self is SecondSend ==> text@ == "Can't send more than one message!"@,
            *self is NoMessage ==> text@ == "No message available!"@,
    {
        match *self {
            MisuseError::SecondSend => String::from_str("Can't send more than one message!"),
            MisuseError::NoMessage => String::from_str("No message available!"),
        }
    }
}

} // verus!
