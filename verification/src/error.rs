//! The library's error type: a plain message carrier.
//!
//! Handler failures surface through dispatch unchanged, wrapped in this type;
//! the registry itself never fails.

use vstd::prelude::*;

verus! {

/// A custom error type for the library. It carries a descriptive message and
/// nothing else; its view is the message's character sequence.
#[derive(Debug)]
pub struct CustomError {
    details: String,
}

impl View for CustomError {
    type V = Seq<char>;

    closed spec fn view(&self) -> Seq<char> {
        self.details@
    }
}

impl CustomError {
    /// Creates a new custom error with the given message.
    pub fn new(msg: &str) -> (e: CustomError)
        ensures
            e@ == msg@,
    {
        CustomError { details: msg.to_owned() }
    }

    /// The error's message.
    pub fn message(&self) -> (m: &str)
        ensures
            m@ == self@,
    {
        self.details.as_str()
    }
}

} // verus!
