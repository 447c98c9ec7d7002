//! The ERC-20 tokens that the server knows, by network and name.

use vstd::prelude::*;
use crate::text::str_eq;

verus! {

/// The path of a token: its network, a slash, and its name.
pub open spec fn spec_token_path(token_network: Seq<char>, token_name: Seq<char>) -> Seq<char> {
    token_network + seq!['/'] + token_name
}

/// The address of the contract of the token at `path`, if the token is known.
pub open spec fn spec_token_address(path: Seq<char>) -> Option<Seq<char>> {
    if path == "rinkeby/usdt"@ {
        Some("0x3B00Ef435fA4FcFF5C209a37d1f3dcff37c705aD"@)
    } else {
        None
    }
}

/// The path of the token `token_name` on `token_network`.
pub fn token_path(token_network: &str, token_name: &str) -> (path: String)
    ensures
        path@ == spec_token_path(token_network@, token_name@),
{
    proof {
        reveal_strlit("/");
    }
    let mut path = String::from_str(token_network);
    path.append("/");
    path.append(token_name);
    path
}

/// The address of the contract of the token `token_name` on `token_network`,
/// if the token is known.
pub fn get_contract_abi(token_network: &str, token_name: &str) -> (address: Option<&'static str>)
    ensures
        match address {
            Some(text) => spec_token_address(spec_token_path(token_network@, token_name@)) == Some(
                text@,
            ),
            None => spec_token_address(spec_token_path(token_network@, token_name@)) is None,
        },
{
    let path = token_path(token_network, token_name);
    if str_eq(path.as_str(), "rinkeby/usdt") {
        Some("0x3B00Ef435fA4FcFF5C209a37d1f3dcff37c705aD")
    } else {
        None
    }
}

} // verus!
