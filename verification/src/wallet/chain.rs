//! What the wallet needs of Bitcoin: the networks, the address of a key, and
//! the encoding of a signature.

use vstd::prelude::*;
use crate::text::str_eq;

verus! {

/// The networks that an address can belong to.
#[derive(Debug, Clone, Copy, PartialEq, Eq, Structural)]
pub enum Network {
    Bitcoin,
    Testnet,
    Signet,
    Regtest,
}

impl Network {
    /// The network that goes by `name`, if there is one.
    pub open spec fn named(name: Seq<char>) -> Option<Network> {
        if name == "bitcoin"@ {
            Some(Network::Bitcoin)
        } else if name == "testnet"@ {
            Some(Network::Testnet)
        } else if name == "signet"@ {
            Some(Network::Signet)
        } else if name == "regtest"@ {
            Some(Network::Regtest)
        } else {
            None
        }
    }

    /// The network that goes by `name`, if there is one.
    pub fn parse(name: &str) -> (network: Option<Network>)
        ensures
            network == Network::named(name@),
    {
        if str_eq(name, "bitcoin") {
            Some(Network::Bitcoin)
        } else if str_eq(name, "testnet") {
            Some(Network::Testnet)
        } else if str_eq(name, "signet") {
            Some(Network::Signet)
        } else if str_eq(name, "regtest") {
            Some(Network::Regtest)
        } else {
            None
        }
    }
}

/// The native segwit address (pay to witness public key hash) of the public
/// key with the encoding `public_key` on `network`, as the `bitcoin` crate
/// writes it; none if `public_key` is not the 33-byte encoding of a point of
/// the curve.
pub uninterp spec fn p2wpkh_address(public_key: Seq<u8>, network: Network) -> Option<Seq<char>>;

/// The DER encoding of the signature whose compact encoding is `compact`
/// (32 bytes of `r`, then 32 bytes of `s`, both big-endian), as libsecp256k1
/// writes it; none if `compact` is no such encoding.
pub uninterp spec fn der_signature(compact: Seq<u8>) -> Option<Seq<u8>>;

/// Calls `bitcoin::PublicKey::from_slice` and `bitcoin::Address::p2wpkh`, and
/// writes the address out with its `Display`.
///
/// Trusted: the result is what those functions give for the key and the
/// network, and depends on nothing else.
#[verifier::external_body]
pub(crate) fn p2wpkh(public_key: &[u8], network: Network) -> (address: Option<String>)
    ensures
        match address {
            Some(text) => p2wpkh_address(public_key@, network) == Some(text@),
            None => p2wpkh_address(public_key@, network) is None,
        },
{
    let network = match network {
        Network::Bitcoin => bitcoin::Network::Bitcoin,
        Network::Testnet => bitcoin::Network::Testnet,
        Network::Signet => bitcoin::Network::Signet,
        Network::Regtest => bitcoin::Network::Regtest,
    };
    let key = bitcoin::PublicKey::from_slice(public_key).ok()?;
    bitcoin::Address::p2wpkh(&key, network).ok().map(|address| address.to_string())
}

/// Calls `secp256k1::Signature::from_compact` and `serialize_der`.
///
/// Trusted: the result is what those functions give for the 64 bytes, and
/// depends on nothing else.
#[verifier::external_body]
pub(crate) fn der_of_compact(compact: &[u8]) -> (der: Option<Vec<u8>>)
    ensures
        match der {
            Some(bytes) => der_signature(compact@) == Some(bytes@),
            None => der_signature(compact@) is None,
        },
{
    let signature = bitcoin::secp256k1::Signature::from_compact(compact).ok()?;
    Some(signature.serialize_der().to_vec())
}

} // verus!
