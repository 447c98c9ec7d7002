use threshold_wallet::wallet::book::{AddressBook, AddressDerivation};
use threshold_wallet::wallet::chain::Network;
use threshold_wallet::wallet::{Wallet, WalletError};

const G: &str = "0279be667ef9dcbbac55a06295ce870b07029bfcdb2dce28d959f2815b16f81798";
const TWO_G: &str = "02c6047f9441ed7d6d3045406e95c07cd85c778e4b8cef3ca7abac09b95c709ee5";
const THREE_G: &str = "02f9308a019258c31049344f85f89d5229b531c845836f99b08601f113bce036f9";

fn key(text: &str) -> Vec<u8> {
    hex::decode(text).unwrap()
}

fn wallet(network: &str) -> Wallet {
    Wallet::new(String::from("key-1"), &String::from(network))
}

#[test]
fn networks_go_by_their_names() {
    assert_eq!(Network::parse("bitcoin"), Some(Network::Bitcoin));
    assert_eq!(Network::parse("testnet"), Some(Network::Testnet));
    assert_eq!(Network::parse("signet"), Some(Network::Signet));
    assert_eq!(Network::parse("regtest"), Some(Network::Regtest));
    assert_eq!(Network::parse("Bitcoin"), None);
    assert_eq!(Network::parse("testnet "), None);
    assert_eq!(Network::parse(""), None);
}

#[test]
fn a_new_wallet_has_derived_nothing() {
    let w = wallet("testnet");
    assert_eq!(w.network, "testnet");
    assert_eq!(w.key_id, "key-1");
    assert_eq!(w.last_derived_pos, 0);
    assert!(w.addresses_derivation_map.entries.is_empty());
    assert_eq!(w.get_bitcoin_network(), Some(Network::Testnet));
    assert_eq!(wallet("nowhere").get_bitcoin_network(), None);
}

#[test]
fn wallets_are_told_apart_by_their_ids() {
    let a = wallet("testnet");
    let b = wallet("testnet");
    assert_eq!(a.id.len(), 36);
    assert_ne!(a.id, b.id);
}

#[test]
fn a_recovered_wallet_goes_on_where_the_server_stands() {
    let w = Wallet::recover_and_save_share(String::from("key-9"), &String::from("bitcoin"), 3);
    assert_eq!(w.last_derived_pos, 3);
    assert_eq!(w.key_id, "key-9");
    assert_eq!(w.network, "bitcoin");
    assert!(w.addresses_derivation_map.entries.is_empty());
    let w = Wallet::recover_and_save_share(String::from("k"), &String::from("bitcoin"), 0);
    assert_eq!(w.last_derived_pos, 0);
    let w = Wallet::recover_and_save_share(String::from("k"), &String::from("bitcoin"), 11);
    assert_eq!(w.last_derived_pos, 11);
}

#[test]
fn next_child_lies_in_branch_zero() {
    assert_eq!(Wallet::derive_new_key(0), Some((1, vec![0, 1])));
    assert_eq!(Wallet::derive_new_key(41), Some((42, vec![0, 42])));
    assert_eq!(Wallet::derive_new_key(u32::MAX - 1), Some((u32::MAX, vec![0, u32::MAX])));
    assert_eq!(Wallet::derive_new_key(u32::MAX), None);
}

#[test]
fn address_of_the_generator() {
    assert_eq!(
        Wallet::to_bitcoin_address(&key(G), Network::Bitcoin).unwrap(),
        "bc1qw508d6qejxtdg4y5r3zarvary0c5xw7kv8f3t4"
    );
    assert_eq!(
        Wallet::to_bitcoin_address(&key(G), Network::Testnet).unwrap(),
        "tb1qw508d6qejxtdg4y5r3zarvary0c5xw7kxpjzsx"
    );
}

#[test]
fn address_agrees_with_the_bitcoin_crate() {
    for text in [G, TWO_G, THREE_G] {
        let public_key = bitcoin::PublicKey::from_slice(&key(text)).unwrap();
        for (ours, theirs) in [
            (Network::Bitcoin, bitcoin::Network::Bitcoin),
            (Network::Testnet, bitcoin::Network::Testnet),
            (Network::Signet, bitcoin::Network::Signet),
            (Network::Regtest, bitcoin::Network::Regtest),
        ] {
            assert_eq!(
                Wallet::to_bitcoin_address(&key(text), ours).unwrap(),
                bitcoin::Address::p2wpkh(&public_key, theirs).unwrap().to_string()
            );
        }
    }
}

#[test]
fn what_is_no_compressed_key_has_no_address() {
    assert_eq!(Wallet::to_bitcoin_address(&vec![], Network::Bitcoin), None);
    let mut zero_x = vec![0u8; 33];
    zero_x[0] = 2;
    assert_eq!(Wallet::to_bitcoin_address(&zero_x, Network::Bitcoin), None);
    let mut wrong_mark = key(G);
    wrong_mark[0] = 5;
    assert_eq!(Wallet::to_bitcoin_address(&wrong_mark, Network::Bitcoin), None);
    assert_eq!(Wallet::to_bitcoin_address(&key(G)[..32].to_vec(), Network::Bitcoin), None);
    let uncompressed = key(
        "0479be667ef9dcbbac55a06295ce870b07029bfcdb2dce28d959f2815b16f81798\
         483ada7726a3c4655da4fbfc0e1108a8fd17b448a68554199c47d08ffb10d4b8",
    );
    assert_eq!(Wallet::to_bitcoin_address(&uncompressed, Network::Bitcoin), None);
}

#[test]
fn derivation_is_the_same_every_time() {
    let (_, path_a) = Wallet::derive_new_key(41).unwrap();
    let (_, path_b) = Wallet::derive_new_key(41).unwrap();
    assert_eq!(path_a, vec![0, 42]);
    assert_eq!(path_a, path_b);
    let mut first = wallet("testnet");
    let mut second = wallet("testnet");
    first.last_derived_pos = 41;
    second.last_derived_pos = 41;
    let a = first.get_new_bitcoin_address(key(TWO_G)).unwrap();
    let b = second.get_new_bitcoin_address(key(TWO_G)).unwrap();
    assert_eq!(a, b);
    assert_eq!(first.last_derived_pos, 42);
    assert_eq!(
        first.addresses_derivation_map.get(&a).unwrap().pos,
        second.addresses_derivation_map.get(&b).unwrap().pos
    );
}

#[test]
fn a_new_address_is_entered_and_the_position_moves_on() {
    let mut w = wallet("testnet");
    let address = w.get_new_bitcoin_address(key(G)).unwrap();
    assert_eq!(address, "tb1qw508d6qejxtdg4y5r3zarvary0c5xw7kxpjzsx");
    assert_eq!(w.last_derived_pos, 1);
    let entry = w.addresses_derivation_map.get(&address).unwrap();
    assert_eq!(entry.pos, 1);
    assert_eq!(entry.public_key, key(G));
    let second = w.get_new_bitcoin_address(key(TWO_G)).unwrap();
    assert_ne!(second, address);
    assert_eq!(w.last_derived_pos, 2);
    assert_eq!(w.addresses_derivation_map.get(&second).unwrap().pos, 2);
    assert_eq!(w.addresses_derivation_map.get(&address).unwrap().pos, 1);
    assert_eq!(w.addresses_derivation_map.entries.len(), 2);
}

#[test]
fn without_an_address_the_wallet_stays_as_it_is() {
    let mut w = wallet("nowhere");
    assert_eq!(w.get_new_bitcoin_address(key(G)).unwrap_err(), WalletError::UnknownNetwork);
    assert_eq!(w.last_derived_pos, 0);
    assert!(w.addresses_derivation_map.entries.is_empty());
    let mut w = wallet("testnet");
    assert_eq!(w.get_new_bitcoin_address(vec![1, 2, 3]).unwrap_err(), WalletError::InvalidPublicKey);
    assert_eq!(w.last_derived_pos, 0);
    assert!(w.addresses_derivation_map.entries.is_empty());
    w.last_derived_pos = u32::MAX;
    assert_eq!(w.get_new_bitcoin_address(key(G)).unwrap_err(), WalletError::PositionExhausted);
    assert_eq!(w.last_derived_pos, u32::MAX);
}

#[test]
fn all_addresses_begin_with_child_zero() {
    let mut w = wallet("bitcoin");
    w.last_derived_pos = 2;
    let keys = vec![key(G), key(TWO_G), key(THREE_G)];
    let addresses = w.get_all_addresses(&keys).unwrap();
    assert_eq!(addresses.len(), 3);
    assert_eq!(addresses[0], "bc1qw508d6qejxtdg4y5r3zarvary0c5xw7kv8f3t4");
    assert_eq!(
        addresses[2],
        Wallet::to_bitcoin_address(&key(THREE_G), Network::Bitcoin).unwrap()
    );
    assert_eq!(
        w.get_all_addresses(&vec![key(G), key(TWO_G)]).unwrap_err(),
        WalletError::KeyCountMismatch
    );
    assert_eq!(
        w.get_all_addresses(&vec![key(G), vec![], key(THREE_G)]).unwrap_err(),
        WalletError::InvalidPublicKey
    );
    w.network = String::from("moon");
    assert_eq!(w.get_all_addresses(&keys).unwrap_err(), WalletError::UnknownNetwork);
}

#[test]
fn derived_enters_the_children_from_one_on() {
    let mut w = wallet("testnet");
    w.last_derived_pos = 2;
    w.derived(&vec![key(G), key(TWO_G)]).unwrap();
    assert_eq!(w.last_derived_pos, 2);
    let first = Wallet::to_bitcoin_address(&key(G), Network::Testnet).unwrap();
    let second = Wallet::to_bitcoin_address(&key(TWO_G), Network::Testnet).unwrap();
    assert_eq!(w.addresses_derivation_map.get(&first).unwrap().pos, 1);
    assert_eq!(w.addresses_derivation_map.get(&second).unwrap().pos, 2);
    assert_eq!(w.addresses_derivation_map.get(&second).unwrap().public_key, key(TWO_G));
    w.derived(&vec![key(G), key(TWO_G)]).unwrap();
    assert_eq!(w.addresses_derivation_map.entries.len(), 2);
}

#[test]
fn derived_takes_the_later_child_where_two_share_a_key() {
    let mut w = wallet("testnet");
    w.last_derived_pos = 3;
    w.derived(&vec![key(G), key(TWO_G), key(G)]).unwrap();
    let shared = Wallet::to_bitcoin_address(&key(G), Network::Testnet).unwrap();
    assert_eq!(w.addresses_derivation_map.get(&shared).unwrap().pos, 3);
    assert_eq!(w.addresses_derivation_map.entries.len(), 2);
}

#[test]
fn derived_is_all_or_nothing() {
    let mut w = wallet("testnet");
    w.last_derived_pos = 2;
    assert_eq!(w.derived(&vec![key(G)]).unwrap_err(), WalletError::KeyCountMismatch);
    assert_eq!(w.derived(&vec![key(G), vec![7]]).unwrap_err(), WalletError::InvalidPublicKey);
    assert!(w.addresses_derivation_map.entries.is_empty());
    w.network = String::from("moon");
    assert_eq!(w.derived(&vec![key(G), key(TWO_G)]).unwrap_err(), WalletError::UnknownNetwork);
}

#[test]
fn the_book_maps_each_address_to_its_last_derivation() {
    let mut book = AddressBook::new();
    assert!(book.get(&String::from("a")).is_none());
    book.insert(String::from("a"), AddressDerivation { pos: 1, public_key: vec![1] });
    book.insert(String::from("b"), AddressDerivation { pos: 2, public_key: vec![2] });
    book.insert(String::from("a"), AddressDerivation { pos: 3, public_key: vec![3] });
    assert_eq!(book.get(&String::from("a")).unwrap().pos, 3);
    assert_eq!(book.get(&String::from("a")).unwrap().public_key, vec![3]);
    assert_eq!(book.get(&String::from("b")).unwrap().pos, 2);
    assert!(book.get(&String::from("c")).is_none());
    assert_eq!(book.entries.len(), 2);
}

#[test]
fn backup_report_says_whether_the_proof_held() {
    assert_eq!(Wallet::verify_backup(true), "backup verified 🍻");
    assert_eq!(Wallet::verify_backup(false), "Backup was not verified correctly 😲");
}
