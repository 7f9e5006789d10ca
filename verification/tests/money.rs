use pig_farm::money::{Money, Transaction, MONEY_CAP, PIG_PRICE, PIG_SALE};

#[test]
fn spend_with_enough_money_takes_the_exact_amount() {
    let mut money = Money::new(10_000);
    assert!(money.try_spend(PIG_PRICE));
    assert_eq!(money.balance(), 9_000);
}

#[test]
fn spend_with_too_little_money_changes_nothing() {
    let mut money = Money::new(999);
    assert!(!money.try_spend(PIG_PRICE));
    assert_eq!(money.balance(), 999);
}

#[test]
fn spend_of_the_whole_balance_leaves_zero() {
    let mut money = Money::new(1_000);
    assert!(money.try_spend(1_000));
    assert_eq!(money.balance(), 0);
}

#[test]
fn credit_adds_the_exact_amount() {
    let mut money = Money::new(9_000);
    money.credit(PIG_SALE);
    assert_eq!(money.balance(), 10_500);
}

#[test]
fn credit_stops_at_the_cap() {
    let mut money = Money::new(MONEY_CAP - 10);
    money.credit(PIG_SALE);
    assert_eq!(money.balance(), MONEY_CAP);
}

#[test]
fn no_run_of_transactions_overdraws_the_purse() {
    let mut money = Money::new(500);
    let run = vec![
        Transaction::Spend(600),
        Transaction::Credit(100),
        Transaction::Spend(600),
        Transaction::Spend(1),
        Transaction::Credit(u64::MAX),
        Transaction::Spend(u64::MAX),
        Transaction::Spend(1),
    ];
    let expected = vec![500, 600, 0, 0, u64::MAX, 0, 0];
    let done = vec![false, true, true, false, true, true, false];
    for i in 0..run.len() {
        assert_eq!(money.apply(run[i]), done[i]);
        assert_eq!(money.balance(), expected[i]);
    }
}
