//! The request with which the adaptor commits its state by a call to itself.
use vstd::prelude::*;

verus! {

/// A call of the adaptor's own `commit_state` method.
pub struct CommitStateRequest {}

impl CommitStateRequest {
    /// The method that the request calls.
    pub fn method(&self) -> (m: &'static str)
        ensures
            m@ == "commit_state"@,
    {
        "commit_state"
    }
}

} // verus!
