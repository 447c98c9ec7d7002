//! The identity assigned when no identity provider is configured.

use vstd::prelude::*;
use crate::auth::guards::AuthPayload;

verus! {

/// The fixed guest identity.
pub fn get_empty_claim() -> (claim: AuthPayload)
    ensures
        claim.token@ == "pass_through_guest_user"@,
        claim.user_id@ == "guest_user"@,
{
    AuthPayload {
        token: String::from_str("pass_through_guest_user"),
        user_id: String::from_str("guest_user"),
    }
}

} // verus!
