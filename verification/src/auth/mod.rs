//! Who is calling: the credentials a request carries.

use vstd::prelude::*;

pub mod guards;
pub mod jwt;
pub mod passthrough;

verus! {

/// A public key of the identity provider, as the provider publishes it.
pub struct PublicKey {
    pub kid: String,
    pub pem: String,
    pub der: String,
    pub alg: String,
    pub kty: String,
}

} // verus!
