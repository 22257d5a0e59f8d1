//! Why something could not be done.

use vstd::prelude::*;

use crate::text::three;

verus! {

/// A failed operation: what to tell the user, and whether the user asked for it.
#[derive(Debug, PartialEq, Eq)]
pub struct Failure {
    pub cancelled: bool,
    pub message: String,
}

impl Clone for Failure {
    fn clone(&self) -> (copy: Self)
        ensures
            copy == *self,
    {
        Failure { cancelled: self.cancelled, message: self.message.clone() }
    }
}

impl Failure {
    /// Something went wrong by itself.
    pub fn new(message: String) -> (failure: Failure)
        ensures
            failure.message == message,
            !failure.cancelled,
    {
        Failure { cancelled: false, message }
    }

    /// The user asked to stop.
    pub fn cancelled() -> (failure: Failure)
        ensures
            failure.cancelled,
            failure.message@ == "cancelled"@,
    {
        Failure { cancelled: true, message: "cancelled".to_owned() }
    }

    /// The same failure, with what it means put in front.
    pub fn context(self, context: &str) -> (failure: Failure)
        ensures
            failure.message@ == context@ + ": "@ + self.message@,
            failure.cancelled == self.cancelled,
    {
        Failure { cancelled: self.cancelled, message: three(context, ": ", self.message.as_str()) }
    }
}

} // verus!
