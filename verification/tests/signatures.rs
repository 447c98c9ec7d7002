use threshold_wallet::number::{first_digit, is_zero, less};
use threshold_wallet::routes::session::ProtocolError;
use threshold_wallet::routes::signature::SignatureRecid;
use threshold_wallet::wallet::payment::{assemble_signature, SIGHASH_ALL};
use threshold_wallet::wallet::WalletError;

const ORDER: &str = "fffffffffffffffffffffffffffffffebaaedce6af48a03bbfd25e8cd0364141";
const HALF_ORDER: &str = "7fffffffffffffffffffffffffffffff5d576e7357a4501ddfe92f46681b20a0";

fn bytes(text: &str) -> Vec<u8> {
    hex::decode(text).unwrap()
}

fn plus(text: &str, n: i16) -> Vec<u8> {
    let mut v = bytes(text);
    let last = v.len() - 1;
    v[last] = (v[last] as i16 + n) as u8;
    v
}

#[test]
fn numbers_are_ordered_by_value() {
    assert!(less(&vec![1], &vec![2]));
    assert!(!less(&vec![2], &vec![1]));
    assert!(!less(&vec![7], &vec![7]));
    assert!(less(&vec![0xff], &vec![1, 0]));
    assert!(!less(&vec![1, 0], &vec![0xff]));
    assert!(less(&vec![0, 0, 0xff], &vec![1, 0]));
    assert!(!less(&vec![0, 0, 1, 0], &vec![0xff]));
    assert!(less(&vec![], &vec![1]));
    assert!(!less(&vec![], &vec![0, 0]));
    assert!(!less(&vec![0], &vec![]));
    assert!(less(&vec![1, 2, 3], &vec![1, 2, 4]));
    assert!(less(&vec![1, 2, 0xff], &vec![1, 3, 0]));
}

#[test]
fn zero_is_told_from_the_rest() {
    assert!(is_zero(&vec![]));
    assert!(is_zero(&vec![0]));
    assert!(is_zero(&vec![0, 0, 0]));
    assert!(!is_zero(&vec![0, 0, 1]));
    assert!(!is_zero(&vec![1, 0]));
    assert_eq!(first_digit(&vec![0, 0, 5, 0]), 2);
    assert_eq!(first_digit(&vec![0, 0]), 2);
    assert_eq!(first_digit(&vec![9]), 0);
}

#[test]
fn a_signature_in_range_is_given_out() {
    let sig = SignatureRecid::checked(vec![1], vec![1], 0).unwrap();
    assert_eq!(sig.r, vec![1]);
    assert_eq!(sig.s, vec![1]);
    assert_eq!(sig.recid, 0);
    assert!(SignatureRecid::checked(plus(ORDER, -1), bytes(HALF_ORDER), 3).is_ok());
    let mut padded = vec![0u8, 0u8];
    padded.extend(bytes(HALF_ORDER));
    assert!(SignatureRecid::checked(padded.clone(), padded, 1).is_ok());
}

#[test]
fn s_above_half_the_order_is_held_back() {
    assert_eq!(
        SignatureRecid::checked(vec![1], plus(HALF_ORDER, 1), 0).unwrap_err(),
        ProtocolError::InvariantViolation
    );
    assert!(SignatureRecid::checked(vec![1], plus(ORDER, -1), 0).is_err());
    assert!(SignatureRecid::checked(vec![1], bytes(ORDER), 0).is_err());
}

#[test]
fn r_outside_the_field_is_held_back() {
    assert!(SignatureRecid::checked(bytes(ORDER), vec![1], 0).is_err());
    assert!(SignatureRecid::checked(plus(ORDER, 1), vec![1], 0).is_err());
    let mut long = vec![1u8];
    long.extend(vec![0u8; 32]);
    assert!(SignatureRecid::checked(long, vec![1], 0).is_err());
}

#[test]
fn zero_halves_and_unknown_recovery_ids_are_held_back() {
    assert!(SignatureRecid::checked(vec![], vec![1], 0).is_err());
    assert!(SignatureRecid::checked(vec![0, 0], vec![1], 0).is_err());
    assert!(SignatureRecid::checked(vec![1], vec![0], 0).is_err());
    assert!(SignatureRecid::checked(vec![1], vec![1], 4).is_err());
    assert!(SignatureRecid::checked(vec![1], vec![1], 255).is_err());
    assert!(SignatureRecid::checked(vec![1], vec![1], 3).is_ok());
}

#[test]
fn witness_signature_is_der_and_the_sighash_mark() {
    assert_eq!(SIGHASH_ALL, 1);
    assert_eq!(
        assemble_signature(&vec![1], &vec![2]).unwrap(),
        bytes("300602010102010201")
    );
    let mut r = vec![0u8; 31];
    r.push(1);
    let mut s = vec![0u8; 40];
    s.push(2);
    assert_eq!(assemble_signature(&r, &s).unwrap(), bytes("300602010102010201"));
}

#[test]
fn der_keeps_numbers_positive() {
    assert_eq!(
        assemble_signature(&vec![0x80], &vec![0x7f]).unwrap(),
        bytes("30070202008002017f01")
    );
}

#[test]
fn full_width_signature_is_assembled() {
    let r = bytes("79be667ef9dcbbac55a06295ce870b07029bfcdb2dce28d959f2815b16f81798");
    let s = bytes(HALF_ORDER);
    let mut expected = bytes("3044");
    expected.extend(bytes("0220"));
    expected.extend(r.clone());
    expected.extend(bytes("0220"));
    expected.extend(s.clone());
    expected.push(1);
    assert_eq!(assemble_signature(&r, &s).unwrap(), expected);
}

#[test]
fn halves_that_make_no_signature_are_an_error() {
    let mut long = vec![1u8];
    long.extend(vec![0u8; 32]);
    assert_eq!(
        assemble_signature(&long, &vec![1]).unwrap_err(),
        WalletError::SignatureAssembly
    );
    assert_eq!(
        assemble_signature(&vec![1], &long).unwrap_err(),
        WalletError::SignatureAssembly
    );
    assert_eq!(
        assemble_signature(&bytes(ORDER), &vec![1]).unwrap_err(),
        WalletError::SignatureAssembly
    );
    assert_eq!(
        assemble_signature(&vec![1], &plus(ORDER, 5)).unwrap_err(),
        WalletError::SignatureAssembly
    );
}
