use threshold_wallet::wallet::coins::{sort_by_value, TxRef};
use threshold_wallet::wallet::payment::{fund, output_index, Payment};
use threshold_wallet::wallet::{
    GetBalanceResponse, GetListUnspentResponse, GetWalletBalanceResponse, Wallet, WalletError,
};

fn coin(name: &str, value: usize) -> GetListUnspentResponse {
    GetListUnspentResponse {
        height: 1,
        tx_hash: String::from(name),
        tx_pos: 0,
        value,
        address: String::from("addr"),
    }
}

fn names(coins: &Vec<GetListUnspentResponse>) -> Vec<String> {
    coins.iter().map(|c| c.tx_hash.clone()).collect()
}

fn balance(confirmed: u64, unconfirmed: i64) -> GetBalanceResponse {
    GetBalanceResponse { address: String::from("a"), confirmed, unconfirmed }
}

#[test]
fn balances_add_up() {
    let total = Wallet::get_balance(&vec![balance(5, -2), balance(7, 10), balance(0, -20)]);
    assert_eq!(total, Some(GetWalletBalanceResponse { confirmed: 12, unconfirmed: -12 }));
    assert_eq!(
        Wallet::get_balance(&vec![]),
        Some(GetWalletBalanceResponse { confirmed: 0, unconfirmed: 0 })
    );
}

#[test]
fn balances_at_the_limits() {
    assert_eq!(
        Wallet::get_balance(&vec![balance(u64::MAX, i64::MAX), balance(0, i64::MIN)]),
        Some(GetWalletBalanceResponse { confirmed: u64::MAX, unconfirmed: -1 })
    );
    assert_eq!(Wallet::get_balance(&vec![balance(u64::MAX, 0), balance(1, 0)]), None);
    assert_eq!(Wallet::get_balance(&vec![balance(0, i64::MAX), balance(0, 1)]), None);
    assert_eq!(Wallet::get_balance(&vec![balance(0, i64::MIN), balance(0, -1)]), None);
    assert_eq!(
        Wallet::get_balance(&vec![balance(0, i64::MAX), balance(0, i64::MAX), balance(0, i64::MIN)]),
        Some(GetWalletBalanceResponse { confirmed: 0, unconfirmed: i64::MAX - 1 })
    );
}

#[test]
fn sorting_is_ascending_and_keeps_ties_in_order() {
    let sorted = sort_by_value(vec![
        coin("a", 5),
        coin("b", 3),
        coin("c", 5),
        coin("d", 1),
        coin("e", 3),
        coin("f", 5),
    ]);
    assert_eq!(names(&sorted), vec!["d", "b", "e", "a", "c", "f"]);
    assert!(sort_by_value(vec![]).is_empty());
    assert_eq!(names(&sort_by_value(vec![coin("x", 9)])), vec!["x"]);
}

#[test]
fn sorting_agrees_with_the_standard_stable_sort() {
    let mut seed: u64 = 12345;
    for round in 0..50 {
        let mut coins = Vec::new();
        for i in 0..(round % 17) {
            seed = seed.wrapping_mul(6364136223846793005).wrapping_add(1442695040888963407);
            coins.push(coin(&format!("c{}", i), ((seed >> 33) % 5) as usize));
        }
        let mut expected = coins.clone();
        expected.sort_by_key(|c| c.value);
        assert_eq!(names(&sort_by_value(coins)), names(&expected));
    }
}

#[test]
fn the_cheapest_outputs_are_chosen_until_they_exceed_the_amount() {
    let unspent = vec![coin("five", 5), coin("three", 3), coin("eight", 8)];
    assert_eq!(names(&Wallet::select_tx_in(unspent.clone(), 7)), vec!["three", "five"]);
    assert_eq!(names(&Wallet::select_tx_in(unspent.clone(), 2)), vec!["three"]);
    assert_eq!(names(&Wallet::select_tx_in(unspent.clone(), 3)), vec!["three", "five"]);
    assert_eq!(
        names(&Wallet::select_tx_in(unspent.clone(), 8)),
        vec!["three", "five", "eight"]
    );
    assert_eq!(
        names(&Wallet::select_tx_in(unspent.clone(), 15)),
        vec!["three", "five", "eight"]
    );
}

#[test]
fn all_outputs_are_chosen_when_they_do_not_exceed_the_amount() {
    let unspent = vec![coin("five", 5), coin("three", 3)];
    assert_eq!(names(&Wallet::select_tx_in(unspent.clone(), 8)), vec!["three", "five"]);
    assert_eq!(names(&Wallet::select_tx_in(unspent.clone(), 1_000)), vec!["three", "five"]);
    assert_eq!(names(&Wallet::select_tx_in(unspent, i64::MAX)), vec!["three", "five"]);
    assert!(Wallet::select_tx_in(vec![], 5).is_empty());
}

#[test]
fn one_output_is_chosen_for_nothing_or_less() {
    let unspent = vec![coin("five", 5), coin("three", 3)];
    assert_eq!(names(&Wallet::select_tx_in(unspent.clone(), 0)), vec!["three"]);
    assert_eq!(names(&Wallet::select_tx_in(unspent.clone(), -1)), vec!["three"]);
    assert_eq!(names(&Wallet::select_tx_in(unspent, i64::MIN)), vec!["three"]);
    let worthless = vec![coin("zero", 0), coin("one", 1)];
    assert_eq!(names(&Wallet::select_tx_in(worthless, 0)), vec!["zero", "one"]);
}

#[test]
fn huge_outputs_are_chosen_without_overflow() {
    let unspent = vec![coin("a", usize::MAX), coin("b", usize::MAX), coin("c", 1)];
    assert_eq!(names(&Wallet::select_tx_in(unspent, i64::MAX)), vec!["c", "a"]);
}

#[test]
fn payment_splits_amount_and_change() {
    let selected = vec![coin("a", 3), coin("b", 5)];
    assert_eq!(fund(&selected, 7), Ok(Payment { amount: 7, change: 1 }));
    assert_eq!(fund(&selected, 8), Ok(Payment { amount: 8, change: 0 }));
    assert_eq!(fund(&selected, 0), Ok(Payment { amount: 0, change: 8 }));
}

#[test]
fn payment_needs_funds() {
    assert_eq!(fund(&vec![], 0), Err(WalletError::NotEnoughFunds));
    assert_eq!(fund(&vec![coin("a", 3), coin("b", 5)], 9), Err(WalletError::NotEnoughFunds));
}

#[test]
fn payment_total_must_fit() {
    let selected = vec![coin("a", usize::MAX), coin("b", 1)];
    if usize::MAX as u128 == u64::MAX as u128 {
        assert_eq!(fund(&selected, 1), Err(WalletError::AmountOverflow));
    }
    assert_eq!(
        fund(&vec![coin("a", usize::MAX)], 1),
        Ok(Payment { amount: 1, change: usize::MAX as u64 - 1 })
    );
}

#[test]
fn output_index_fits_in_32_bits() {
    assert_eq!(output_index(0), Ok(0));
    assert_eq!(output_index(u32::MAX as usize), Ok(u32::MAX));
    if usize::MAX as u128 > u32::MAX as u128 {
        assert_eq!(output_index(u32::MAX as usize + 1), Err(WalletError::OutputIndexTooLarge));
    }
}

#[test]
fn reported_outputs_become_unspent_outputs_of_the_address() {
    let refs = vec![
        TxRef { tx_hash: String::from("h1"), block_height: 10, tx_output_n: 1, value: 100 },
        TxRef { tx_hash: String::from("h2"), block_height: -1, tx_output_n: 0, value: 5 },
    ];
    let unspent = Wallet::list_unspent_for_addresss("tb1q", Some(refs));
    assert_eq!(unspent.len(), 2);
    assert_eq!(unspent[0].tx_hash, "h1");
    assert_eq!(unspent[0].height, 10);
    assert_eq!(unspent[0].tx_pos, 1);
    assert_eq!(unspent[0].value, 100);
    assert_eq!(unspent[0].address, "tb1q");
    assert_eq!(unspent[1].tx_hash, "h2");
    assert_eq!(unspent[1].height, -1);
    assert_eq!(unspent[1].address, "tb1q");
    assert!(Wallet::list_unspent_for_addresss("tb1q", None).is_empty());
    assert!(Wallet::list_unspent_for_addresss("tb1q", Some(vec![])).is_empty());
}

#[test]
fn unspent_outputs_are_listed_address_by_address() {
    let all = Wallet::list_unspent(vec![
        vec![coin("a", 1), coin("b", 2)],
        vec![],
        vec![coin("c", 3)],
    ]);
    assert_eq!(names(&all), vec!["a", "b", "c"]);
    assert!(Wallet::list_unspent(vec![]).is_empty());
}
