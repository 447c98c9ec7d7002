//! Admission without an identity provider.

use vstd::prelude::*;
use crate::auth::guards::AuthPayload;
use crate::auth::passthrough::get_empty_claim;
use crate::routes::session::ProtocolError;

verus! {

/// What a token of the identity provider asserts: its subject and the time at
/// which it expires.
#[derive(Debug, Clone)]
pub struct Claims {
    pub sub: String,
    pub exp: usize,
}

impl Claims {
    /// Admits a caller when no identity provider is configured. Any request
    /// that carries an `Authorization` header, whatever its value, is given
    /// the guest identity; one that carries none is unauthorized.
    /// `authorizations` are the values of the `Authorization` headers of the
    /// request.
    pub fn from_request(authorizations: &Vec<String>) -> (r: Result<AuthPayload, ProtocolError>)
        ensures
            match r {
                Ok(payload) => {
                    &&& authorizations.len() > 0
                    &&& payload.token@ == "pass_through_guest_user"@
                    &&& payload.user_id@ == "guest_user"@
                },
                Err(e) => authorizations.len() == 0 && e == ProtocolError::Unauthorized,
            },
    {
        if authorizations.len() == 0 {
            return Err(ProtocolError::Unauthorized);
        }
        Ok(get_empty_claim())
    }
}

} // verus!
