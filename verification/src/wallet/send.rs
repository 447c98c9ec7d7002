//! Sending: from the outputs chosen to the transaction that spends them.
//!
//! A payment is made in two steps, because the signatures come from the two
//! parties together. [`Wallet::send`] drafts the transaction and says what
//! each input must sign; [`Draft::complete`] puts the signatures in.

use vstd::prelude::*;
use crate::wallet::{GetListUnspentResponse, Wallet, WalletError};
use crate::wallet::book::AddressDerivation;
use crate::wallet::chain::{p2wpkh_address, Network};
use crate::wallet::coins::total_value;
use crate::wallet::payment::{assemble_signature, fund, output_index, unfunded, witness_signature};
use crate::wallet::transaction::{
    address_script, hex_text, p2pkh_script, p2pkh_script_of, raw_transaction_of, script_of,
    sighash_all_of, txid_bytes, txid_of, well_formed, Tx, TxInput, TxInputView, TxOutput,
    TxOutputView, TxView,
};

verus! {

/// The sequence number of an input that does not ask to be replaced.
pub const SEQUENCE_FINAL: u32 = 0xFFFF_FFFF;

/// A transaction that waits for its signatures.
#[derive(Debug)]
pub struct Draft {
    /// The transaction, without witnesses.
    pub transaction: Tx,
    /// For each input, the message that its signature signs.
    pub messages: Vec<Vec<u8>>,
    /// For each input, the index of the child whose key signs.
    pub positions: Vec<u32>,
    /// For each input, the public key of that child.
    pub keys: Vec<Vec<u8>>,
}

/// The inputs that spend `selected`.
pub open spec fn inputs_of(selected: Seq<GetListUnspentResponse>) -> Seq<TxInputView> {
    Seq::new(
        selected.len(),
        |i: int|
            TxInputView {
                txid: txid_of(selected[i].tx_hash@).unwrap(),
                vout: selected[i].tx_pos as u32,
                sequence: SEQUENCE_FINAL,
                witness: Seq::empty(),
            },
    )
}

/// The transaction that spends `selected` to pay `amount` to the script
/// `to_script`; the rest goes to the script `change_script`.
pub open spec fn payment_of(
    selected: Seq<GetListUnspentResponse>,
    to_script: Seq<u8>,
    amount: u64,
    change_script: Seq<u8>,
) -> TxView {
    TxView {
        version: 0,
        lock_time: 0,
        input: inputs_of(selected),
        output: seq![
            TxOutputView { value: amount, script_pubkey: to_script },
            TxOutputView {
                value: (total_value(selected) - amount) as u64,
                script_pubkey: change_script,
            },
        ],
    }
}

impl Wallet {
    /// The address that the change of a payment goes to: the address of
    /// `change_key` on the wallet's network.
    pub open spec fn change_address(self, change_key: Seq<u8>) -> Seq<char> {
        p2wpkh_address(change_key, Network::named(self.network@).unwrap()).unwrap()
    }

    /// The transaction that [`Wallet::send`] drafts.
    pub open spec fn payment(
        self,
        selected: Seq<GetListUnspentResponse>,
        to_address: Seq<char>,
        amount: u64,
        change_key: Seq<u8>,
    ) -> TxView {
        payment_of(
            selected,
            script_of(to_address).unwrap(),
            amount,
            script_of(self.change_address(change_key)).unwrap(),
        )
    }

    /// The script that guards the output `coin`: the one that pays to the
    /// hash of the key from which the wallet derived the address of `coin`.
    pub open spec fn script_code(self, coin: GetListUnspentResponse) -> Option<Seq<u8>> {
        p2pkh_script_of(
            self.addresses_derivation_map@[coin.address@].1,
            Network::named(self.network@).unwrap(),
        )
    }

    /// The message that input `i` of the payment signs.
    pub open spec fn message(
        self,
        selected: Seq<GetListUnspentResponse>,
        to_address: Seq<char>,
        amount: u64,
        change_key: Seq<u8>,
        i: int,
    ) -> Seq<u8> {
        sighash_all_of(
            raw_transaction_of(self.payment(selected, to_address, amount, change_key)),
            i,
            self.script_code(selected[i]).unwrap(),
            selected[i].value as u64,
        )
    }

    /// Why `selected` cannot be sent, if it cannot. In this order: the
    /// outputs must cover the amount; the position of each must fit in 32
    /// bits; the transaction hash of each must be a hash; each must lie at an
    /// address of the wallet; there must be a new address for the change; the
    /// key of each must be a key; and the payee's address and the address for
    /// the change must be addresses.
    pub open spec fn unsendable(
        self,
        selected: Seq<GetListUnspentResponse>,
        to_address: Seq<char>,
        amount: u64,
        change_key: Seq<u8>,
    ) -> Option<WalletError> {
        if unfunded(selected, amount) is Some {
            unfunded(selected, amount)
        } else if exists|i: int|
            0 <= i < selected.len() && (#[trigger] selected[i]).tx_pos > u32::MAX {
            Some(WalletError::OutputIndexTooLarge)
        } else if exists|i: int|
            0 <= i < selected.len() && txid_of((#[trigger] selected[i]).tx_hash@) is None {
            Some(WalletError::InvalidTransactionHash)
        } else if exists|i: int|
            0 <= i < selected.len() && !self.addresses_derivation_map@.contains_key(
                (#[trigger] selected[i]).address@,
            ) {
            Some(WalletError::UnknownAddress)
        } else if self.no_new_address(change_key) is Some {
            self.no_new_address(change_key)
        } else if exists|i: int|
            0 <= i < selected.len() && self.script_code(#[trigger] selected[i]) is None {
            Some(WalletError::InvalidPublicKey)
        } else if script_of(to_address) is None || script_of(self.change_address(change_key))
            is None {
            Some(WalletError::InvalidAddress)
        } else {
            None
        }
    }

    /// Drafts the transaction that spends `selected` to pay `amount_satoshi`
    /// to `to_address`. The change goes to a new address of the wallet, the
    /// one of `change_key`, which is the public key of the child that
    /// [`Wallet::derive_new_key`] names for the wallet's last position. The
    /// new address is entered into the wallet. If there is no draft, the
    /// wallet stays as it is.
    #[verifier::loop_isolation(false)]
    pub fn send(
        &mut self,
        selected: &Vec<GetListUnspentResponse>,
        to_address: &str,
        amount_satoshi: u64,
        change_key: Vec<u8>,
    ) -> (r: Result<Draft, WalletError>)
        ensures
            match r {
                Ok(draft) => {
                    &&& old(self).unsendable(selected@, to_address@, amount_satoshi, change_key@)
                        is None
                    &&& draft.transaction@ == old(self).payment(
                        selected@,
                        to_address@,
                        amount_satoshi,
                        change_key@,
                    )
                    &&& draft.messages.len() == selected.len()
                    &&& draft.positions.len() == selected.len()
                    &&& draft.keys.len() == selected.len()
                    &&& forall|i: int|
                        0 <= i < selected.len() ==> {
                            &&& (#[trigger] draft.messages[i])@ == old(self).message(
                                selected@,
                                to_address@,
                                amount_satoshi,
                                change_key@,
                                i,
                            )
                            &&& (draft.positions[i], draft.keys[i]@) == old(
                                self,
                            ).addresses_derivation_map@[selected[i].address@]
                        }
                    &&& final(self).last_derived_pos == old(self).last_derived_pos + 1
                    &&& final(self).addresses_derivation_map@ == old(
                        self,
                    ).addresses_derivation_map@.insert(
                        old(self).change_address(change_key@),
                        (final(self).last_derived_pos, change_key@),
                    )
                    &&& final(self).id == old(self).id
                    &&& final(self).network == old(self).network
                    &&& final(self).key_id == old(self).key_id
                },
                Err(e) => old(self).unsendable(selected@, to_address@, amount_satoshi, change_key@)
                    == Some(e) && *final(self) == *old(self),
            },
    {
        let payment = match fund(selected, amount_satoshi) {
            Ok(payment) => payment,
            Err(e) => return Err(e),
        };
        let n = selected.len();
        let mut vouts: Vec<u32> = Vec::new();
        let mut a: usize = 0;
        while a < n
            invariant
                a <= n,
                vouts.len() == a,
                *self == *old(self),
                forall|j: int| 0 <= j < a ==> (#[trigger] selected[j]).tx_pos == vouts[j],
            decreases n - a,
        {
            match output_index(selected[a].tx_pos) {
                Ok(vout) => vouts.push(vout),
                Err(e) => return Err(e),
            }
            a += 1;
        }
        let mut input: Vec<TxInput> = Vec::new();
        let mut b: usize = 0;
        while b < n
            invariant
                b <= n,
                input.len() == b,
                *self == *old(self),
                forall|j: int| 0 <= j < b ==> !(txid_of((#[trigger] selected[j]).tx_hash@) is None),
                forall|j: int|
                    0 <= j < b ==> (#[trigger] input[j])@ == inputs_of(selected@)[j]
                        && input[j].txid.len() == 32,
            decreases n - b,
        {
            let txid = match txid_bytes(selected[b].tx_hash.as_str()) {
                Some(txid) => txid,
                None => return Err(WalletError::InvalidTransactionHash),
            };
            let spent = TxInput { txid, vout: vouts[b], sequence: SEQUENCE_FINAL, witness: Vec::new() };
            assert(spent@.witness =~= Seq::<Seq<u8>>::empty());
            input.push(spent);
            b += 1;
        }
        let mut positions: Vec<u32> = Vec::new();
        let mut keys: Vec<Vec<u8>> = Vec::new();
        let mut c: usize = 0;
        while c < n
            invariant
                c <= n,
                positions.len() == c,
                keys.len() == c,
                *self == *old(self),
                forall|j: int|
                    0 <= j < c ==> self.addresses_derivation_map@.contains_key(
                        (#[trigger] selected[j]).address@,
                    ),
                forall|j: int|
                    0 <= j < c ==> (#[trigger] positions[j], keys[j]@)
                        == self.addresses_derivation_map@[selected[j].address@],
            decreases n - c,
        {
            match self.addresses_derivation_map.get(&selected[c].address) {
                Some(derivation) => {
                    positions.push(derivation.pos);
                    keys.push(derivation.public_key.clone());
                },
                None => return Err(WalletError::UnknownAddress),
            }
            c += 1;
        }
        let pos = match Wallet::derive_new_key(self.last_derived_pos) {
            Some((pos, _)) => pos,
            None => return Err(WalletError::PositionExhausted),
        };
        let network = match self.get_bitcoin_network() {
            Some(network) => network,
            None => return Err(WalletError::UnknownNetwork),
        };
        let change_address = match Wallet::to_bitcoin_address(&change_key, network) {
            Some(address) => address,
            None => return Err(WalletError::InvalidPublicKey),
        };
        let mut scripts: Vec<Vec<u8>> = Vec::new();
        let mut d: usize = 0;
        while d < n
            invariant
                d <= n,
                scripts.len() == d,
                *self == *old(self),
                forall|j: int|
                    0 <= j < d ==> Some((#[trigger] scripts[j])@) == self.script_code(selected[j]),
            decreases n - d,
        {
            assert((positions[d as int], keys[d as int]@)
                == self.addresses_derivation_map@[selected[d as int].address@]);
            match p2pkh_script(keys[d].as_slice(), network) {
                Some(script) => scripts.push(script),
                None => {
                    return Err(WalletError::InvalidPublicKey);
                },
            }
            d += 1;
        }
        assert forall|j: int| 0 <= j < n implies !(self.script_code(#[trigger] selected[j])
            is None) by {
            assert(Some(scripts[j]@) == self.script_code(selected[j]));
        }
        let to_script = match address_script(to_address) {
            Some(script) => script,
            None => return Err(WalletError::InvalidAddress),
        };
        let change_script = match address_script(change_address.as_str()) {
            Some(script) => script,
            None => return Err(WalletError::InvalidAddress),
        };
        let output = vec![
            TxOutput { value: payment.amount, script_pubkey: to_script },
            TxOutput { value: payment.change, script_pubkey: change_script },
        ];
        let transaction = Tx { version: 0, lock_time: 0, input, output };
        let ghost planned = self.payment(selected@, to_address@, amount_satoshi, change_key@);
        assert(transaction@ == planned) by {
            assert(transaction@.input =~= planned.input);
            assert(transaction@.output =~= planned.output);
        }
        let mut messages: Vec<Vec<u8>> = Vec::new();
        let mut m: usize = 0;
        while m < n
            invariant
                m <= n,
                messages.len() == m,
                *self == *old(self),
                forall|j: int|
                    0 <= j < m ==> (#[trigger] messages[j])@ == self.message(
                        selected@,
                        to_address@,
                        amount_satoshi,
                        change_key@,
                        j,
                    ),
            decreases n - m,
        {
            match transaction.message(m, &scripts[m], selected[m].value as u64) {
                Some(message) => messages.push(message),
                None => return Err(WalletError::InvalidTransactionHash),
            }
            m += 1;
        }
        self.addresses_derivation_map.insert(
            change_address,
            AddressDerivation { pos, public_key: change_key },
        );
        self.last_derived_pos = pos;
        Ok(Draft { transaction, messages, positions, keys })
    }
}

/// The witness of an input: the signature, then the public key.
pub open spec fn witness_of(signature: Seq<u8>, public_key: Seq<u8>) -> Seq<Seq<u8>> {
    seq![signature, public_key]
}

/// `tx` with the witness of input `i` made of the signature `signatures[i]`
/// and the public key `keys[i]`.
pub open spec fn signed(
    tx: TxView,
    signatures: Seq<(Vec<u8>, Vec<u8>)>,
    keys: Seq<Vec<u8>>,
) -> TxView {
    TxView {
        input: Seq::new(
            tx.input.len(),
            |i: int|
                TxInputView {
                    witness: witness_of(
                        witness_signature(signatures[i].0@, signatures[i].1@).unwrap(),
                        keys[i]@,
                    ),
                    ..tx.input[i]
                },
        ),
        ..tx
    }
}

impl Draft {
    /// Why the draft cannot be completed with `signatures`, if it cannot:
    /// there must be a key and a signature for each input, each signature
    /// must be one, and each input must name its transaction by 32 bytes.
    pub open spec fn incomplete(self, signatures: Seq<(Vec<u8>, Vec<u8>)>) -> Option<WalletError> {
        if self.keys.len() != self.transaction.input.len() {
            Some(WalletError::KeyCountMismatch)
        } else if signatures.len() != self.transaction.input.len() {
            Some(WalletError::SignatureCountMismatch)
        } else if exists|i: int|
            0 <= i < signatures.len() && (#[trigger] witness_signature(
                signatures[i].0@,
                signatures[i].1@,
            )) is None {
            Some(WalletError::SignatureAssembly)
        } else if !well_formed(self.transaction@) {
            Some(WalletError::InvalidTransactionHash)
        } else {
            None
        }
    }

    /// Puts the signatures into the draft and writes the transaction out in
    /// hexadecimal digits, as it goes to the network. `signatures[i]` is the
    /// signature `(r, s)` of the message of input `i`, each half a big-endian
    /// number.
    #[verifier::loop_isolation(false)]
    pub fn complete(self, signatures: &Vec<(Vec<u8>, Vec<u8>)>) -> (r: Result<String, WalletError>)
        ensures
            match r {
                Ok(text) => {
                    &&& self.incomplete(signatures@) is None
                    &&& text@ == hex_text(
                        raw_transaction_of(signed(self.transaction@, signatures@, self.keys@)),
                    )
                },
                Err(e) => self.incomplete(signatures@) == Some(e),
            },
    {
        let n = self.transaction.input.len();
        if self.keys.len() != n {
            return Err(WalletError::KeyCountMismatch);
        }
        if signatures.len() != n {
            return Err(WalletError::SignatureCountMismatch);
        }
        let ghost target = signed(self.transaction@, signatures@, self.keys@);
        let mut input: Vec<TxInput> = Vec::new();
        let mut i: usize = 0;
        while i < n
            invariant
                i <= n,
                input.len() == i,
                forall|j: int|
                    0 <= j < i ==> !((#[trigger] witness_signature(
                        signatures[j].0@,
                        signatures[j].1@,
                    )) is None),
                forall|j: int| 0 <= j < i ==> (#[trigger] input[j])@ == target.input[j],
            decreases n - i,
        {
            let signature = match assemble_signature(&signatures[i].0, &signatures[i].1) {
                Ok(signature) => signature,
                Err(e) => {
                    assert(witness_signature(signatures[i as int].0@, signatures[i as int].1@)
                        is None);
                    return Err(e);
                },
            };
            let spent = &self.transaction.input[i];
            let with_witness = TxInput {
                txid: spent.txid.clone(),
                vout: spent.vout,
                sequence: spent.sequence,
                witness: vec![signature, self.keys[i].clone()],
            };
            assert(with_witness@.witness =~= target.input[i as int].witness);
            input.push(with_witness);
            i += 1;
        }
        let transaction = Tx {
            version: self.transaction.version,
            lock_time: self.transaction.lock_time,
            input,
            output: self.transaction.output,
        };
        assert(transaction@ == target) by {
            assert(transaction@.input =~= target.input);
        }
        assert(well_formed(target) == well_formed(self.transaction@)) by {
            assert forall|j: int| 0 <= j < target.input.len() implies (#[trigger] target.input[j]).txid
                == self.transaction@.input[j].txid by {}
            if well_formed(target) {
                assert forall|j: int| 0 <= j < self.transaction@.input.len() implies (
                #[trigger] self.transaction@.input[j]).txid.len() == 32 by {
                    assert(target.input[j].txid.len() == 32);
                }
            }
        }
        match transaction.raw_hex() {
            Some(text) => Ok(text),
            None => Err(WalletError::InvalidTransactionHash),
        }
    }
}

} // verus!
