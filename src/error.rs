use vstd::prelude::*;

verus! {

/// The error that the session reports: a message for the person at the
/// console.
#[derive(Debug, PartialEq)]
pub struct RuntimeError {
    pub message: String,
}

impl RuntimeError {
    pub fn new(message: &str) -> (r: RuntimeError)
        ensures
            r.message@ == message@,
    {
        RuntimeError { message: String::from_str(message) }
    }

    /// The message, as `Display` would print it.
    pub fn to_message(&self) -> (r: String)
        ensures
            r@ == self.message@,
    {
        self.message.clone()
    }
}

} // verus!
