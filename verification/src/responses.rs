use vstd::prelude::*;

verus! {

/// The body of a reply that only reports whether a request went through.
#[derive(Clone, Copy, Debug, PartialEq, Eq, Structural)]
pub struct StandardResponse {
    pub success: bool,
}

/// The reply for a request that went through.
pub fn get_standard_success_response() -> (r: StandardResponse)
    ensures
        r.success,
{
    StandardResponse { success: true }
}

/// The reply for a request that did not go through.
pub fn get_standard_failure_response() -> (r: StandardResponse)
    ensures
        !r.success,
{
    StandardResponse { success: false }
}

} // verus!
