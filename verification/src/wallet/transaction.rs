//! A payment as a Bitcoin transaction: its inputs and outputs, the message
//! that each input must sign, and the bytes that go to the network.

use std::str::FromStr;
use bitcoin::hashes::hex::FromHex;
use vstd::prelude::*;
use crate::wallet::chain::Network;

verus! {

/// An input of a transaction, as values.
pub struct TxInputView {
    pub txid: Seq<u8>,
    pub vout: u32,
    pub sequence: u32,
    pub witness: Seq<Seq<u8>>,
}

/// An output of a transaction, as values.
pub struct TxOutputView {
    pub value: u64,
    pub script_pubkey: Seq<u8>,
}

/// A transaction, as values.
pub struct TxView {
    pub version: i32,
    pub lock_time: u32,
    pub input: Seq<TxInputView>,
    pub output: Seq<TxOutputView>,
}

/// An input: the output that it spends, named by the 32 bytes of the hash of
/// its transaction and by its position there, and the witness that allows
/// spending it.
#[derive(Debug, Clone)]
pub struct TxInput {
    pub txid: Vec<u8>,
    pub vout: u32,
    pub sequence: u32,
    pub witness: Vec<Vec<u8>>,
}

/// An output: an amount in satoshi and the script that guards it.
#[derive(Debug, Clone)]
pub struct TxOutput {
    pub value: u64,
    pub script_pubkey: Vec<u8>,
}

/// A transaction.
#[derive(Debug, Clone)]
pub struct Tx {
    pub version: i32,
    pub lock_time: u32,
    pub input: Vec<TxInput>,
    pub output: Vec<TxOutput>,
}

/// The byte strings of `items`, as values.
pub open spec fn byte_strings(items: Seq<Vec<u8>>) -> Seq<Seq<u8>> {
    Seq::new(items.len(), |i: int| items[i]@)
}

impl View for TxInput {
    type V = TxInputView;

    open spec fn view(&self) -> TxInputView {
        TxInputView {
            txid: self.txid@,
            vout: self.vout,
            sequence: self.sequence,
            witness: byte_strings(self.witness@),
        }
    }
}

impl View for TxOutput {
    type V = TxOutputView;

    open spec fn view(&self) -> TxOutputView {
        TxOutputView { value: self.value, script_pubkey: self.script_pubkey@ }
    }
}

impl View for Tx {
    type V = TxView;

    open spec fn view(&self) -> TxView {
        TxView {
            version: self.version,
            lock_time: self.lock_time,
            input: Seq::new(self.input@.len(), |i: int| self.input@[i]@),
            output: Seq::new(self.output@.len(), |i: int| self.output@[i]@),
        }
    }
}

/// Whether every input of `tx` names its transaction by 32 bytes.
pub open spec fn well_formed(tx: TxView) -> bool {
    forall|i: int| 0 <= i < tx.input.len() ==> (#[trigger] tx.input[i]).txid.len() == 32
}

/// The 32 bytes of the transaction hash that `tx_hash` writes in hexadecimal
/// digits, in the order in which a transaction holds them, as the `bitcoin`
/// crate reads them; none if `tx_hash` writes no hash.
pub uninterp spec fn txid_of(tx_hash: Seq<char>) -> Option<Seq<u8>>;

/// The script that pays to `address`, as the `bitcoin` crate reads the
/// address; none if `address` is no address.
pub uninterp spec fn script_of(address: Seq<char>) -> Option<Seq<u8>>;

/// The script that pays to the hash of the public key with the encoding
/// `public_key`, as the `bitcoin` crate builds it; none if `public_key` is no
/// encoding of a key.
pub uninterp spec fn p2pkh_script_of(public_key: Seq<u8>, network: Network) -> Option<Seq<u8>>;

/// The bytes of `tx` as they go to the network, as the `bitcoin` crate
/// encodes the transaction with these inputs and outputs.
pub uninterp spec fn raw_transaction_of(tx: TxView) -> Seq<u8>;

/// The bytes of a transaction of the `bitcoin` crate as they go to the
/// network.
pub uninterp spec fn encoded(t: bitcoin::Transaction) -> Seq<u8>;

/// The number of inputs of a transaction of the `bitcoin` crate.
pub uninterp spec fn input_count(t: bitcoin::Transaction) -> nat;

/// The message that input `index` of the transaction with the bytes `raw`
/// signs to spend an output worth `value` satoshi that `script_code` guards:
/// the BIP 143 digest for a signature that covers all inputs and outputs, as
/// the `bitcoin` crate computes it.
pub uninterp spec fn sighash_all_of(raw: Seq<u8>, index: int, script_code: Seq<u8>, value: u64) -> Seq<
    u8,
>;

/// The digit of `n` to the base 16, in lower case.
pub open spec fn hex_digit(n: int) -> char {
    if n < 10 {
        ('0' as u8 + n) as u8 as char
    } else {
        ('a' as u8 + n - 10) as u8 as char
    }
}

/// `bytes` in hexadecimal digits: two for each byte, the higher first, in
/// lower case.
pub open spec fn hex_text(bytes: Seq<u8>) -> Seq<char> {
    Seq::new(
        2 * bytes.len(),
        |i: int|
            if i % 2 == 0 {
                hex_digit(bytes[i / 2] as int / 16)
            } else {
                hex_digit(bytes[i / 2] as int % 16)
            },
    )
}

#[verifier::external_type_specification]
#[verifier::external_body]
pub struct ExBitcoinTransaction(bitcoin::Transaction);

/// Calls `bitcoin::Txid::from_hex` and hands out the bytes of the hash.
///
/// Trusted: the result is what that function gives for the text, and depends
/// on nothing else; a hash has 32 bytes.
#[verifier::external_body]
pub(crate) fn txid_bytes(tx_hash: &str) -> (txid: Option<Vec<u8>>)
    ensures
        match txid {
            Some(bytes) => txid_of(tx_hash@) == Some(bytes@) && bytes.len() == 32,
            None => txid_of(tx_hash@) is None,
        },
{
    bitcoin::Txid::from_hex(tx_hash).ok().map(|txid| txid.to_vec())
}

/// Calls `bitcoin::Address::from_str` and `script_pubkey`.
///
/// Trusted: the result is what those functions give for the text, and
/// depends on nothing else.
#[verifier::external_body]
pub(crate) fn address_script(address: &str) -> (script: Option<Vec<u8>>)
    ensures
        match script {
            Some(bytes) => script_of(address@) == Some(bytes@),
            None => script_of(address@) is None,
        },
{
    bitcoin::Address::from_str(address).ok().map(|address| address.script_pubkey().to_bytes())
}

/// Calls `bitcoin::PublicKey::from_slice`, `bitcoin::Address::p2pkh` and
/// `script_pubkey`.
///
/// Trusted: the result is what those functions give for the key and the
/// network, and depends on nothing else.
#[verifier::external_body]
pub(crate) fn p2pkh_script(public_key: &[u8], network: Network) -> (script: Option<Vec<u8>>)
    ensures
        match script {
            Some(bytes) => p2pkh_script_of(public_key@, network) == Some(bytes@),
            None => p2pkh_script_of(public_key@, network) is None,
        },
{
    let network = match network {
        Network::Bitcoin => bitcoin::Network::Bitcoin,
        Network::Testnet => bitcoin::Network::Testnet,
        Network::Signet => bitcoin::Network::Signet,
        Network::Regtest => bitcoin::Network::Regtest,
    };
    let key = bitcoin::PublicKey::from_slice(public_key).ok()?;
    Some(bitcoin::Address::p2pkh(&key, network).script_pubkey().to_bytes())
}

/// Builds the `bitcoin::Transaction` with the inputs and outputs of `tx`;
/// each transaction hash is made with `Txid::from_slice`, which takes 32
/// bytes and no other number.
///
/// Trusted: there is a result if and only if every hash has 32 bytes; it has
/// the inputs of `tx`, and its encoding is the one named after `tx`.
#[verifier::external_body]
pub(crate) fn outside_transaction(tx: &Tx) -> (t: Option<bitcoin::Transaction>)
    ensures
        match t {
            Some(t) => {
                &&& well_formed(tx@)
                &&& encoded(t) == raw_transaction_of(tx@)
                &&& input_count(t) == tx.input.len()
            },
            None => !well_formed(tx@),
        },
{
    let mut input = Vec::new();
    for i in &tx.input {
        let txid = <bitcoin::Txid as bitcoin::hashes::Hash>::from_slice(&i.txid).ok()?;
        let previous_output = bitcoin::OutPoint { txid, vout: i.vout };
        let script_sig = bitcoin::Script::default();
        input.push(bitcoin::TxIn { previous_output, script_sig, sequence: i.sequence, witness: i.witness.clone() });
    }
    let mut output = Vec::new();
    for o in &tx.output {
        output.push(bitcoin::TxOut { value: o.value, script_pubkey: o.script_pubkey.clone().into() });
    }
    Some(bitcoin::Transaction { version: tx.version, lock_time: tx.lock_time, input, output })
}

/// Calls `bitcoin::consensus::encode::serialize`.
///
/// Trusted: the result is the encoding of the transaction.
#[verifier::external_body]
pub(crate) fn serialize(t: &bitcoin::Transaction) -> (raw: Vec<u8>)
    ensures
        raw@ == encoded(*t),
{
    bitcoin::consensus::encode::serialize(t)
}

/// Calls `SighashComponents::new` and `sighash_all` of the `bitcoin` crate.
///
/// Trusted: the result is what those functions give for the transaction, the
/// input, the script and the value, and depends on nothing else.
#[verifier::external_body]
#[allow(deprecated)]
pub(crate) fn sighash_all(
    t: &bitcoin::Transaction,
    index: usize,
    script_code: &[u8],
    value: u64,
) -> (hash: Vec<u8>)
    requires
        index < input_count(*t),
    ensures
        hash@ == sighash_all_of(encoded(*t), index as int, script_code@, value),
{
    let script = bitcoin::Script::from(script_code.to_vec());
    let parts = bitcoin::util::bip143::SighashComponents::new(t);
    parts.sighash_all(&t.input[index], &script, value).to_vec()
}

/// Calls `hex::encode`.
///
/// Trusted: the result has two digits for each byte, the higher first, in
/// lower case.
#[verifier::external_body]
pub(crate) fn hex_of(bytes: &[u8]) -> (text: String)
    ensures
        text@ == hex_text(bytes@),
{
    hex::encode(bytes)
}

impl Tx {
    /// The message that input `index` signs to spend an output worth `value`
    /// satoshi that `script_code` guards. None if there is no such input or
    /// an input names its transaction by other than 32 bytes.
    pub fn message(&self, index: usize, script_code: &Vec<u8>, value: u64) -> (hash: Option<
        Vec<u8>,
    >)
        ensures
            match hash {
                Some(bytes) => {
                    &&& index < self.input.len()
                    &&& well_formed(self@)
                    &&& bytes@ == sighash_all_of(
                        raw_transaction_of(self@),
                        index as int,
                        script_code@,
                        value,
                    )
                },
                None => index >= self.input.len() || !well_formed(self@),
            },
    {
        if index >= self.input.len() {
            return None;
        }
        match outside_transaction(self) {
            Some(t) => Some(sighash_all(&t, index, script_code.as_slice(), value)),
            None => None,
        }
    }

    /// The transaction as it goes to the network, in hexadecimal digits. None
    /// if an input names its transaction by other than 32 bytes.
    pub fn raw_hex(&self) -> (text: Option<String>)
        ensures
            match text {
                Some(text) => well_formed(self@) && text@ == hex_text(raw_transaction_of(self@)),
                None => !well_formed(self@),
            },
    {
        match outside_transaction(self) {
            Some(t) => Some(hex_of(serialize(&t).as_slice())),
            None => None,
        }
    }
}

} // verus!
