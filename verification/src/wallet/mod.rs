//! The client's wallet: which addresses it has derived, what they hold, and
//! what goes into a payment.

use vstd::prelude::*;
use crate::text::new_id;
use crate::wallet::book::{AddressBook, AddressDerivation};
use crate::wallet::chain::{p2wpkh, p2wpkh_address, Network};

pub mod book;
pub mod chain;
pub mod coins;
pub mod payment;
pub mod send;
pub mod transaction;

verus! {

/// What one address holds, in satoshi.
#[derive(Debug, Clone)]
pub struct GetBalanceResponse {
    pub address: String,
    pub confirmed: u64,
    pub unconfirmed: i64,
}

/// An unspent output.
#[derive(Debug, Clone)]
pub struct GetListUnspentResponse {
    pub height: isize,
    pub tx_hash: String,
    pub tx_pos: usize,
    pub value: usize,
    pub address: String,
}

/// An unspent output, as values.
pub struct GetListUnspentResponseView {
    pub height: isize,
    pub tx_hash: Seq<char>,
    pub tx_pos: usize,
    pub value: usize,
    pub address: Seq<char>,
}

impl View for GetListUnspentResponse {
    type V = GetListUnspentResponseView;

    open spec fn view(&self) -> GetListUnspentResponseView {
        GetListUnspentResponseView {
            height: self.height,
            tx_hash: self.tx_hash@,
            tx_pos: self.tx_pos,
            value: self.value,
            address: self.address@,
        }
    }
}

/// What the whole wallet holds, in satoshi.
#[derive(Debug, Clone, Copy, PartialEq, Eq, Structural)]
pub struct GetWalletBalanceResponse {
    pub confirmed: u64,
    pub unconfirmed: i64,
}

/// Why the wallet could not do what was asked.
#[derive(Debug, Clone, Copy, PartialEq, Eq, Structural)]
pub enum WalletError {
    /// The outputs at hand do not cover the amount.
    NotEnoughFunds,
    /// A sum of amounts does not fit in 64 bits.
    AmountOverflow,
    /// The position of an output in its transaction does not fit in 32 bits.
    OutputIndexTooLarge,
    /// The wallet's network is none that is known.
    UnknownNetwork,
    /// A public key is no compressed point of the curve.
    InvalidPublicKey,
    /// The child index cannot grow any further.
    PositionExhausted,
    /// The keys handed in are not as many as the positions they are for.
    KeyCountMismatch,
    /// The two halves of a signature do not make a signature.
    SignatureAssembly,
    /// An output to be spent lies at an address that the wallet has not derived.
    UnknownAddress,
    /// A transaction hash is no hash.
    InvalidTransactionHash,
    /// An address is no address.
    InvalidAddress,
    /// The signatures handed in are not as many as the inputs they are for.
    SignatureCountMismatch,
}

/// The client's wallet.
///
/// The client's share of the master key is not in it: whoever holds the share
/// derives the child keys and hands their public keys in.
#[derive(Debug)]
pub struct Wallet {
    /// The name of the wallet.
    pub id: String,
    /// The name of the network that the wallet's addresses are for.
    pub network: String,
    /// The name under which the server knows the master key.
    pub key_id: String,
    /// The index of the last child that an address was derived for.
    pub last_derived_pos: u32,
    /// The addresses derived so far.
    pub addresses_derivation_map: AddressBook,
}

/// The path of the child with index `pos`: it lies in the branch zero.
pub open spec fn child_path(pos: u32) -> Seq<u32> {
    seq![0u32, pos]
}

/// The book after the first `n` of `keys` have been entered into `book`, the
/// key with index `i` as the child with index `i + 1`.
pub open spec fn with_children(
    book: Map<Seq<char>, (u32, Seq<u8>)>,
    keys: Seq<Vec<u8>>,
    network: Network,
    n: nat,
) -> Map<Seq<char>, (u32, Seq<u8>)>
    decreases n,
{
    if n == 0 {
        book
    } else {
        let i = (n - 1) as int;
        with_children(book, keys, network, i as nat).insert(
            p2wpkh_address(keys[i]@, network).unwrap(),
            ((i + 1) as u32, keys[i]@),
        )
    }
}

impl Wallet {
    /// A new wallet on the network `net` for the master key that the server
    /// knows as `key_id`. No address has been derived yet.
    pub fn new(key_id: String, net: &String) -> (wallet: Wallet)
        ensures
            wallet.network@ == net@,
            wallet.key_id == key_id,
            wallet.last_derived_pos == 0,
            wallet.addresses_derivation_map@ == Map::<Seq<char>, (u32, Seq<u8>)>::empty(),
    {
        Wallet {
            id: new_id(),
            network: net.clone(),
            key_id,
            last_derived_pos: 0,
            addresses_derivation_map: AddressBook::new(),
        }
    }

    /// The wallet of a recovered share: a new wallet that goes on deriving
    /// after `pos_old`, the last child index that the server has issued.
    pub fn recover_and_save_share(key_id: String, net: &String, pos_old: u32) -> (wallet: Wallet)
        ensures
            wallet.network@ == net@,
            wallet.key_id == key_id,
            wallet.last_derived_pos == pos_old,
            wallet.addresses_derivation_map@ == Map::<Seq<char>, (u32, Seq<u8>)>::empty(),
    {
        Wallet {
            id: new_id(),
            network: net.clone(),
            key_id,
            last_derived_pos: pos_old,
            addresses_derivation_map: AddressBook::new(),
        }
    }

    /// What to tell the user of a backup, once its proof has been checked:
    /// whether the backup was verified.
    pub fn verify_backup(verified: bool) -> (report: &'static str)
        ensures
            report@ == if verified {
                "backup verified 🍻"@
            } else {
                "Backup was not verified correctly 😲"@
            },
    {
        if verified {
            "backup verified 🍻"
        } else {
            "Backup was not verified correctly 😲"
        }
    }

    /// The network of the wallet, if its name is that of a network.
    pub fn get_bitcoin_network(&self) -> (network: Option<Network>)
        ensures
            network == Network::named(self.network@),
    {
        Network::parse(self.network.as_str())
    }

    /// The address of the child key `public_key` on `network`.
    pub fn to_bitcoin_address(public_key: &Vec<u8>, network: Network) -> (address: Option<String>)
        ensures
            match address {
                Some(text) => p2wpkh_address(public_key@, network) == Some(text@),
                None => p2wpkh_address(public_key@, network) is None,
            },
    {
        p2wpkh(public_key.as_slice(), network)
    }

    /// The child that comes after the child with index `pos`: its index and
    /// its path. There is none after the last index.
    pub fn derive_new_key(pos: u32) -> (next: Option<(u32, Vec<u32>)>)
        ensures
            match next {
                Some((index, path)) => pos < u32::MAX && index == pos + 1 && path@ == child_path(
                    index,
                ),
                None => pos == u32::MAX,
            },
    {
        if pos == u32::MAX {
            return None;
        }
        let last_pos: u32 = pos + 1;
        Some((last_pos, vec![0u32, last_pos]))
    }

    /// Why no new address can be derived from `child_key`, if none can.
    pub open spec fn no_new_address(self, child_key: Seq<u8>) -> Option<WalletError> {
        if self.last_derived_pos == u32::MAX {
            Some(WalletError::PositionExhausted)
        } else {
            match Network::named(self.network@) {
                None => Some(WalletError::UnknownNetwork),
                Some(network) => if p2wpkh_address(child_key, network) is None {
                    Some(WalletError::InvalidPublicKey)
                } else {
                    None
                },
            }
        }
    }

    /// Derives the next address. `child_key` is the public key of the child
    /// that [`Wallet::derive_new_key`] names for the wallet's last position.
    /// The address is entered into the wallet and the position moves on; if
    /// there is no address, the wallet stays as it is.
    pub fn get_new_bitcoin_address(&mut self, child_key: Vec<u8>) -> (r: Result<
        String,
        WalletError,
    >)
        ensures
            match r {
                Ok(address) => {
                    &&& old(self).no_new_address(child_key@) is None
                    &&& Some(address@) == p2wpkh_address(
                        child_key@,
                        Network::named(old(self).network@).unwrap(),
                    )
                    &&& final(self).last_derived_pos == old(self).last_derived_pos + 1
                    &&& final(self).addresses_derivation_map@ == old(
                        self,
                    ).addresses_derivation_map@.insert(
                        address@,
                        (final(self).last_derived_pos, child_key@),
                    )
                    &&& final(self).id == old(self).id
                    &&& final(self).network == old(self).network
                    &&& final(self).key_id == old(self).key_id
                },
                Err(e) => old(self).no_new_address(child_key@) == Some(e) && *final(self) == *old(
                    self,
                ),
            },
    {
        let pos = match Wallet::derive_new_key(self.last_derived_pos) {
            Some((pos, _)) => pos,
            None => return Err(WalletError::PositionExhausted),
        };
        let network = match self.get_bitcoin_network() {
            Some(network) => network,
            None => return Err(WalletError::UnknownNetwork),
        };
        let address = match Wallet::to_bitcoin_address(&child_key, network) {
            Some(address) => address,
            None => return Err(WalletError::InvalidPublicKey),
        };
        self.addresses_derivation_map.insert(
            address.clone(),
            AddressDerivation { pos, public_key: child_key },
        );
        self.last_derived_pos = pos;
        Ok(address)
    }

    /// Why the addresses of `keys` cannot be derived, if they cannot: the
    /// keys must be `count` in number, the network known, and each key a key.
    pub open spec fn no_addresses(self, keys: Seq<Vec<u8>>, count: int) -> Option<WalletError> {
        if keys.len() != count {
            Some(WalletError::KeyCountMismatch)
        } else {
            match Network::named(self.network@) {
                None => Some(WalletError::UnknownNetwork),
                Some(network) => if exists|i: int|
                    0 <= i < keys.len() && #[trigger] p2wpkh_address(keys[i]@, network) is None {
                    Some(WalletError::InvalidPublicKey)
                } else {
                    None
                },
            }
        }
    }

    /// The addresses of `keys` on the wallet's network, in order.
    fn addresses_of(&self, keys: &Vec<Vec<u8>>, count: u64) -> (r: Result<
        (Network, Vec<String>),
        WalletError,
    >)
        ensures
            match r {
                Ok((network, addresses)) => {
                    &&& self.no_addresses(keys@, count as int) is None
                    &&& Some(network) == Network::named(self.network@)
                    &&& addresses.len() == keys.len()
                    &&& forall|i: int|
                        0 <= i < keys.len() ==> Some(#[trigger] addresses[i]@) == p2wpkh_address(
                            keys[i]@,
                            network,
                        )
                },
                Err(e) => self.no_addresses(keys@, count as int) == Some(e),
            },
    {
        if keys.len() as u64 != count {
            return Err(WalletError::KeyCountMismatch);
        }
        let network = match self.get_bitcoin_network() {
            Some(network) => network,
            None => return Err(WalletError::UnknownNetwork),
        };
        let mut addresses: Vec<String> = Vec::new();
        let mut i: usize = 0;
        while i < keys.len()
            invariant
                i <= keys.len(),
                keys.len() == count,
                Some(network) == Network::named(self.network@),
                addresses.len() == i,
                forall|j: int|
                    0 <= j < i ==> Some(#[trigger] addresses[j]@) == p2wpkh_address(
                        keys[j]@,
                        network,
                    ),
            decreases keys.len() - i,
        {
            match Wallet::to_bitcoin_address(&keys[i], network) {
                Some(address) => addresses.push(address),
                None => {
                    return Err(WalletError::InvalidPublicKey);
                },
            }
            i += 1;
        }
        assert forall|j: int| 0 <= j < keys.len() implies !(#[trigger] p2wpkh_address(
            keys[j]@,
            network,
        ) is None) by {
            assert(Some(addresses[j]@) == p2wpkh_address(keys[j]@, network));
        }
        Ok((network, addresses))
    }

    /// The addresses of all children up to the wallet's last position, the
    /// child with index zero included. `child_keys` are their public keys, in
    /// order of their indices.
    pub fn get_all_addresses(&self, child_keys: &Vec<Vec<u8>>) -> (r: Result<
        Vec<String>,
        WalletError,
    >)
        ensures
            match r {
                Ok(addresses) => {
                    &&& self.no_addresses(child_keys@, self.last_derived_pos + 1) is None
                    &&& addresses.len() == child_keys.len()
                    &&& forall|i: int|
                        0 <= i < child_keys.len() ==> Some(#[trigger] addresses[i]@)
                            == p2wpkh_address(
                            child_keys[i]@,
                            Network::named(self.network@).unwrap(),
                        )
                },
                Err(e) => self.no_addresses(child_keys@, self.last_derived_pos + 1) == Some(e),
            },
    {
        match self.addresses_of(child_keys, self.last_derived_pos as u64 + 1) {
            Ok((_, addresses)) => Ok(addresses),
            Err(e) => Err(e),
        }
    }

    /// Enters the addresses of the children with the indices from one up to
    /// the wallet's last position. `child_keys` are their public keys, in
    /// order of their indices. If an address is missing, the wallet stays as
    /// it is.
    pub fn derived(&mut self, child_keys: &Vec<Vec<u8>>) -> (r: Result<(), WalletError>)
        ensures
            match r {
                Ok(()) => {
                    &&& old(self).no_addresses(child_keys@, old(self).last_derived_pos as int)
                        is None
                    &&& final(self).addresses_derivation_map@ == with_children(
                        old(self).addresses_derivation_map@,
                        child_keys@,
                        Network::named(old(self).network@).unwrap(),
                        child_keys.len() as nat,
                    )
                    &&& final(self).last_derived_pos == old(self).last_derived_pos
                    &&& final(self).id == old(self).id
                    &&& final(self).network == old(self).network
                    &&& final(self).key_id == old(self).key_id
                },
                Err(e) => old(self).no_addresses(child_keys@, old(self).last_derived_pos as int)
                    == Some(e) && *final(self) == *old(self),
            },
    {
        let (network, addresses) = match self.addresses_of(
            child_keys,
            self.last_derived_pos as u64,
        ) {
            Ok(found) => found,
            Err(e) => return Err(e),
        };
        let ghost before = self.addresses_derivation_map@;
        let mut n: usize = 0;
        while n < child_keys.len()
            invariant
                n <= child_keys.len(),
                child_keys.len() == old(self).last_derived_pos,
                addresses.len() == child_keys.len(),
                forall|i: int|
                    0 <= i < child_keys.len() ==> Some(#[trigger] addresses[i]@) == p2wpkh_address(
                        child_keys[i]@,
                        network,
                    ),
                self.last_derived_pos == old(self).last_derived_pos,
                self.id == old(self).id,
                self.network == old(self).network,
                self.key_id == old(self).key_id,
                self.addresses_derivation_map@ == with_children(
                    before,
                    child_keys@,
                    network,
                    n as nat,
                ),
            decreases child_keys.len() - n,
        {
            let pos: u32 = (n + 1) as u32;
            self.addresses_derivation_map.insert(
                addresses[n].clone(),
                AddressDerivation { pos, public_key: child_keys[n].clone() },
            );
            n += 1;
        }
        Ok(())
    }
}

} // verus!
