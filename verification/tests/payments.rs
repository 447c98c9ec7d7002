use std::str::FromStr;

use bitcoin::hashes::hex::FromHex;
use threshold_wallet::wallet::chain::Network;
use threshold_wallet::wallet::send::{Draft, SEQUENCE_FINAL};
use threshold_wallet::wallet::transaction::{Tx, TxInput, TxOutput};
use threshold_wallet::wallet::{GetListUnspentResponse, Wallet, WalletError};

const G: &str = "0279be667ef9dcbbac55a06295ce870b07029bfcdb2dce28d959f2815b16f81798";
const TWO_G: &str = "02c6047f9441ed7d6d3045406e95c07cd85c778e4b8cef3ca7abac09b95c709ee5";
const THREE_G: &str = "02f9308a019258c31049344f85f89d5229b531c845836f99b08601f113bce036f9";
const PAYEE: &str = "tb1qw508d6qejxtdg4y5r3zarvary0c5xw7kxpjzsx";
const HASH_A: &str = "9f96ade4b41d5433f4eda31e1738ec2b36f6e7d1420d94a6af99801a88f7f7ff";
const HASH_B: &str = "8ac60eb9575db5b2d987e29f301b5b819ea83a5c6579d282d189cc04b8e151ef";

fn key(text: &str) -> Vec<u8> {
    hex::decode(text).unwrap()
}

fn coin(tx_hash: &str, tx_pos: usize, value: usize, address: &str) -> GetListUnspentResponse {
    GetListUnspentResponse {
        height: 100,
        tx_hash: String::from(tx_hash),
        tx_pos,
        value,
        address: String::from(address),
    }
}

/// The bytes of a transaction hash in the order in which a transaction holds
/// them: the reverse of the order in which the hash is written.
fn txid(tx_hash: &str) -> Vec<u8> {
    let mut bytes = hex::decode(tx_hash).unwrap();
    bytes.reverse();
    bytes
}

fn p2pkh_script(public_key: &str) -> Vec<u8> {
    bitcoin::Address::p2pkh(
        &bitcoin::PublicKey::from_slice(&key(public_key)).unwrap(),
        bitcoin::Network::Bitcoin,
    )
    .script_pubkey()
    .to_bytes()
}

/// The transaction of the native P2WPKH example of BIP 143.
fn bip143_example() -> Tx {
    Tx {
        version: 1,
        lock_time: 17,
        input: vec![
            TxInput { txid: txid(HASH_A), vout: 0, sequence: 0xffff_ffee, witness: vec![] },
            TxInput { txid: txid(HASH_B), vout: 1, sequence: 0xffff_ffff, witness: vec![] },
        ],
        output: vec![
            TxOutput {
                value: 112_340_000,
                script_pubkey: key("76a9148280b37df378db99f66f85c95a783a76ac7a6d5988ac"),
            },
            TxOutput {
                value: 223_450_000,
                script_pubkey: key("76a9143bde42dbee7e4dbe6a21b2d50ce2f0167faa815988ac"),
            },
        ],
    }
}

/// A wallet on the test network that has derived the addresses of G and 2G.
fn funded_wallet() -> (Wallet, String, String) {
    let mut w = Wallet::new(String::from("key-1"), &String::from("testnet"));
    let first = w.get_new_bitcoin_address(key(G)).unwrap();
    let second = w.get_new_bitcoin_address(key(TWO_G)).unwrap();
    (w, first, second)
}

fn outside(tx: &Tx) -> bitcoin::Transaction {
    bitcoin::Transaction {
        version: tx.version,
        lock_time: tx.lock_time,
        input: tx
            .input
            .iter()
            .map(|i| bitcoin::TxIn {
                previous_output: bitcoin::OutPoint {
                    txid: bitcoin::Txid::from_hex(&{
                        let mut b = i.txid.clone();
                        b.reverse();
                        hex::encode(b)
                    })
                    .unwrap(),
                    vout: i.vout,
                },
                script_sig: bitcoin::Script::default(),
                sequence: i.sequence,
                witness: i.witness.clone(),
            })
            .collect(),
        output: tx
            .output
            .iter()
            .map(|o| bitcoin::TxOut {
                value: o.value,
                script_pubkey: bitcoin::Script::from(o.script_pubkey.clone()),
            })
            .collect(),
    }
}

#[test]
fn unsigned_transaction_goes_out_as_bip143_writes_it() {
    assert_eq!(
        bip143_example().raw_hex().unwrap(),
        "0100000002fff7f7881a8099afa6940d42d1e7f6362bec38171ea3edf433541db4e4ad969f\
         0000000000eeffffffef51e1b804cc89d182d279655c3aa89e815b1b309fe287d9b2b55d57\
         b90ec68a0100000000ffffffff02202cb206000000001976a9148280b37df378db99f66f85\
         c95a783a76ac7a6d5988ac9093510d000000001976a9143bde42dbee7e4dbe6a21b2d50ce2\
         f0167faa815988ac11000000"
    );
}

#[test]
fn message_of_the_bip143_example() {
    let script_code =
        p2pkh_script("025476c2e83188368da1ff3e292e7acafcdb3566bb0ad253f62fc70f07aeee6357");
    assert_eq!(script_code, key("76a9141d0f172a0ecb48aee1be1f2687d2963ae33f71a188ac"));
    assert_eq!(
        bip143_example().message(1, &script_code, 600_000_000).unwrap(),
        key("c37af31116d1b27caf68aae9e3ac82f1477929014d5b917657d0eb49478cb670")
    );
}

#[test]
fn message_depends_on_input_script_and_value() {
    let tx = bip143_example();
    let script_code =
        p2pkh_script("025476c2e83188368da1ff3e292e7acafcdb3566bb0ad253f62fc70f07aeee6357");
    let message = tx.message(1, &script_code, 600_000_000).unwrap();
    assert_eq!(message.len(), 32);
    assert_ne!(tx.message(0, &script_code, 600_000_000).unwrap(), message);
    assert_ne!(tx.message(1, &p2pkh_script(G), 600_000_000).unwrap(), message);
    assert_ne!(tx.message(1, &script_code, 600_000_001).unwrap(), message);
}

#[test]
fn no_message_without_input_or_transaction_hash() {
    let script_code = p2pkh_script(G);
    let tx = bip143_example();
    assert_eq!(tx.message(2, &script_code, 1), None);
    let mut short_hash = bip143_example();
    short_hash.input[0].txid = vec![1, 2, 3];
    assert_eq!(short_hash.message(0, &script_code, 1), None);
    assert_eq!(short_hash.message(1, &script_code, 1), None);
    assert_eq!(short_hash.raw_hex(), None);
    let mut long_hash = bip143_example();
    long_hash.input[1].txid = vec![0; 33];
    assert_eq!(long_hash.raw_hex(), None);
}

#[test]
fn a_payment_is_drafted() {
    let (mut w, first, second) = funded_wallet();
    let selected = vec![coin(HASH_A, 0, 30_000, &first), coin(HASH_B, 3, 50_000, &second)];
    let draft = w.send(&selected, PAYEE, 70_000, key(THREE_G)).unwrap();

    let change = Wallet::to_bitcoin_address(&key(THREE_G), Network::Testnet).unwrap();
    let tx = &draft.transaction;
    assert_eq!(tx.version, 0);
    assert_eq!(tx.lock_time, 0);
    assert_eq!(tx.input.len(), 2);
    assert_eq!(tx.input[0].txid, txid(HASH_A));
    assert_eq!(tx.input[0].vout, 0);
    assert_eq!(tx.input[0].sequence, SEQUENCE_FINAL);
    assert!(tx.input[0].witness.is_empty());
    assert_eq!(tx.input[1].txid, txid(HASH_B));
    assert_eq!(tx.input[1].vout, 3);
    assert_eq!(tx.output.len(), 2);
    assert_eq!(tx.output[0].value, 70_000);
    assert_eq!(
        tx.output[0].script_pubkey,
        key("0014751e76e8199196d454941c45d1b3a323f1433bd6")
    );
    assert_eq!(tx.output[1].value, 10_000);
    assert_eq!(
        tx.output[1].script_pubkey,
        bitcoin::Address::from_str(&change).unwrap().script_pubkey().to_bytes()
    );

    assert_eq!(draft.positions, vec![1, 2]);
    assert_eq!(draft.keys, vec![key(G), key(TWO_G)]);

    assert_eq!(w.last_derived_pos, 3);
    let entry = w.addresses_derivation_map.get(&change).unwrap();
    assert_eq!(entry.pos, 3);
    assert_eq!(entry.public_key, key(THREE_G));
}

#[test]
fn messages_of_a_draft_are_what_the_bitcoin_crate_computes() {
    let (mut w, first, second) = funded_wallet();
    let selected = vec![coin(HASH_A, 0, 30_000, &first), coin(HASH_B, 3, 50_000, &second)];
    let draft = w.send(&selected, PAYEE, 70_000, key(THREE_G)).unwrap();
    let tx = outside(&draft.transaction);
    #[allow(deprecated)]
    let parts = bitcoin::util::bip143::SighashComponents::new(&tx);
    for (i, (public_key, value)) in [(G, 30_000u64), (TWO_G, 50_000u64)].iter().enumerate() {
        let script = bitcoin::Address::p2pkh(
            &bitcoin::PublicKey::from_slice(&key(public_key)).unwrap(),
            bitcoin::Network::Testnet,
        )
        .script_pubkey();
        #[allow(deprecated)]
        let expected = parts.sighash_all(&tx.input[i], &script, *value);
        assert_eq!(draft.messages[i], expected.to_vec());
    }
}

#[test]
fn what_cannot_be_sent_leaves_the_wallet_as_it_is() {
    let (mut w, first, second) = funded_wallet();
    let selected = vec![coin(HASH_A, 0, 30_000, &first), coin(HASH_B, 3, 50_000, &second)];
    let cases: Vec<(Vec<GetListUnspentResponse>, &str, u64, Vec<u8>, WalletError)> = vec![
        (vec![], PAYEE, 1, key(THREE_G), WalletError::NotEnoughFunds),
        (selected.clone(), PAYEE, 80_001, key(THREE_G), WalletError::NotEnoughFunds),
        (
            vec![coin(HASH_A, 0, 30_000, "tb1qelsewhere")],
            PAYEE,
            1,
            key(THREE_G),
            WalletError::UnknownAddress,
        ),
        (selected.clone(), PAYEE, 1, vec![9, 9], WalletError::InvalidPublicKey),
        (selected.clone(), "nobody", 1, key(THREE_G), WalletError::InvalidAddress),
        (
            vec![coin("not a hash", 0, 30_000, &first)],
            PAYEE,
            1,
            key(THREE_G),
            WalletError::InvalidTransactionHash,
        ),
        (
            vec![coin(&HASH_A[2..], 0, 30_000, &first)],
            PAYEE,
            1,
            key(THREE_G),
            WalletError::InvalidTransactionHash,
        ),
    ];
    for (selected, to, amount, change_key, expected) in cases {
        assert_eq!(w.send(&selected, to, amount, change_key).unwrap_err(), expected);
        assert_eq!(w.last_derived_pos, 2);
        assert_eq!(w.addresses_derivation_map.entries.len(), 2);
    }
    if usize::MAX as u128 > u32::MAX as u128 {
        let far = vec![coin(HASH_A, u32::MAX as usize + 1, 30_000, &first)];
        assert_eq!(
            w.send(&far, PAYEE, 1, key(THREE_G)).unwrap_err(),
            WalletError::OutputIndexTooLarge
        );
    }
    w.network = String::from("moon");
    assert_eq!(
        w.send(&selected, PAYEE, 1, key(THREE_G)).unwrap_err(),
        WalletError::UnknownNetwork
    );
    w.network = String::from("testnet");
    w.last_derived_pos = u32::MAX;
    assert_eq!(
        w.send(&selected, PAYEE, 1, key(THREE_G)).unwrap_err(),
        WalletError::PositionExhausted
    );
}

#[test]
fn a_draft_is_completed_with_its_signatures() {
    let (mut w, first, second) = funded_wallet();
    let selected = vec![coin(HASH_A, 0, 30_000, &first), coin(HASH_B, 3, 50_000, &second)];
    let draft = w.send(&selected, PAYEE, 70_000, key(THREE_G)).unwrap();
    let mut expected = outside(&draft.transaction);
    expected.input[0].witness = vec![hex::decode("300602010102010201").unwrap(), key(G)];
    expected.input[1].witness = vec![hex::decode("30070202008002017f01").unwrap(), key(TWO_G)];
    let signatures = vec![(vec![1u8], vec![2u8]), (vec![0x80u8], vec![0, 0x7fu8])];
    let raw = draft.complete(&signatures).unwrap();
    assert_eq!(raw, hex::encode(bitcoin::consensus::encode::serialize(&expected)));
    assert!(raw.starts_with("00000000000102fff7f7881a8099af"));
    assert!(raw.ends_with("00000000"));
    assert!(raw.contains(&format!("0209300602010102010201210{}", &G[1..])));
}

#[test]
fn a_draft_needs_a_signature_for_each_input() {
    let (mut w, first, second) = funded_wallet();
    let selected = vec![coin(HASH_A, 0, 30_000, &first), coin(HASH_B, 3, 50_000, &second)];
    let draft = w.send(&selected, PAYEE, 70_000, key(THREE_G)).unwrap();
    assert_eq!(
        draft.complete(&vec![(vec![1u8], vec![2u8])]).unwrap_err(),
        WalletError::SignatureCountMismatch
    );
    let draft = w.send(&selected, PAYEE, 70_000, key(G)).unwrap();
    let too_long = vec![1u8; 33];
    assert_eq!(
        draft.complete(&vec![(vec![1u8], vec![2u8]), (too_long, vec![2u8])]).unwrap_err(),
        WalletError::SignatureAssembly
    );
    let draft = w.send(&selected, PAYEE, 70_000, key(G)).unwrap();
    let short = Draft { keys: vec![key(G)], ..draft };
    assert_eq!(
        short.complete(&vec![(vec![1u8], vec![2u8]), (vec![1u8], vec![2u8])]).unwrap_err(),
        WalletError::KeyCountMismatch
    );
}
