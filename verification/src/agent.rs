//! The agent that makes inter-canister calls on the Internet Computer.
use vstd::prelude::*;

verus! {

/// Makes calls through the `ic_cdk` system API; it holds no state.
pub struct CdkAgent {}

impl CdkAgent {
    pub fn new() -> (agent: CdkAgent) {
        CdkAgent {}
    }
}

} // verus!
