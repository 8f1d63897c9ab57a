use vstd::prelude::*;

verus! {

/// `anyhow::Error`, the error that the cache and the repository report for a failed call.
/// The library only carries such an error through to its caller, unread.
#[verifier::external_type_specification]
#[verifier::external_body]
pub struct ExAnyhowError(anyhow::Error);

} // verus!
