//! The Ethereum endpoints: what a request for a token names.

use vstd::prelude::*;
use crate::utils::erc20::{get_contract_abi, spec_token_address, spec_token_path};

verus! {

/// A request for the contract of a token.
#[derive(Debug, Clone)]
pub struct Erc20ReqBody {
    pub name: String,
    pub network: String,
}

impl Erc20ReqBody {
    /// The address of the contract of the token that the request names, if
    /// the token is known.
    pub fn contract_address(&self) -> (address: Option<&'static str>)
        ensures
            match address {
                Some(text) => spec_token_address(spec_token_path(self.network@, self.name@))
                    == Some(text@),
                None => spec_token_address(spec_token_path(self.network@, self.name@)) is None,
            },
    {
        get_contract_abi(self.network.as_str(), self.name.as_str())
    }
}

} // verus!
