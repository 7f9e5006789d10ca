//! The purse: the one balance that buying a pig debits and selling one credits.

use vstd::prelude::*;

verus! {

/// What one pig costs, in cents.
pub const PIG_PRICE: u64 = 1_000;

/// What a pig is sold for when its lifetime is over, in cents.
pub const PIG_SALE: u64 = 1_500;

/// The balance a new game starts with, in cents.
pub const STARTING_MONEY: u64 = 10_000;

/// The highest balance the purse can hold, in cents.
pub const MONEY_CAP: u64 = 0xffff_ffff_ffff_ffff;

/// The balance after an attempt to spend `amount`: the debit happens whole or
/// not at all.
pub open spec fn after_spend(balance: int, amount: int) -> int {
    if balance >= amount {
        balance - amount
    } else {
        balance
    }
}

/// The balance after `amount` was credited. The purse is full at `MONEY_CAP`
/// and stays there.
pub open spec fn after_credit(balance: int, amount: int) -> int {
    if balance + amount <= MONEY_CAP {
        balance + amount
    } else {
        MONEY_CAP as int
    }
}

/// One movement on the purse.
#[derive(Clone, Copy, Debug, PartialEq, Eq, Structural)]
pub enum Transaction {
    /// An attempt to spend the amount.
    Spend(u64),
    /// A credit of the amount.
    Credit(u64),
}

/// The balance after one transaction.
pub open spec fn after_transaction(balance: int, t: Transaction) -> int {
    match t {
        Transaction::Spend(amount) => after_spend(balance, amount as int),
        Transaction::Credit(amount) => after_credit(balance, amount as int),
    }
}

/// The balance after a run of transactions, taken in order.
pub open spec fn after_all(balance: int, ts: Seq<Transaction>) -> int
    decreases ts.len(),
{
    if ts.len() == 0 {
        balance
    } else {
        after_transaction(after_all(balance, ts.drop_last()), ts.last())
    }
}

/// The player's spendable balance, in cents.
#[derive(Clone, Copy, Debug, PartialEq, Eq, Structural)]
pub struct Money(pub u64);

impl View for Money {
    type V = int;

    open spec fn view(&self) -> int {
        self.0 as int
    }
}

impl Money {
    /// A purse that holds `cents`.
    pub fn new(cents: u64) -> (m: Money)
        ensures
            m@ == cents,
    {
        Money(cents)
    }

    /// The balance, in cents.
    pub fn balance(&self) -> (cents: u64)
        ensures
            cents == self@,
    {
        self.0
    }

    /// Whether the balance covers `amount`.
    pub fn can_afford(&self, amount: u64) -> (yes: bool)
        ensures
            yes == (self@ >= amount),
    {
        self.0 >= amount
    }

    /// Takes `amount` from the balance when the balance covers it, and says
    /// whether it did. A balance that does not cover the amount stays as it is.
    pub fn try_spend(&mut self, amount: u64) -> (spent: bool)
        ensures
            spent == (old(self)@ >= amount),
            final(self)@ == after_spend(old(self)@, amount as int),
    {
        if self.0 >= amount {
            self.0 = self.0 - amount;
            true
        } else {
            false
        }
    }

    /// Adds `amount` to the balance, which stops at `MONEY_CAP`.
    pub fn credit(&mut self, amount: u64)
        ensures
            final(self)@ == after_credit(old(self)@, amount as int),
    {
        if amount <= MONEY_CAP - self.0 {
            self.0 = self.0 + amount;
        } else {
            self.0 = MONEY_CAP;
        }
    }

    /// Carries out one transaction, and says whether it went through: a credit
    /// always does, a spend only when the balance covers it.
    pub fn apply(&mut self, t: Transaction) -> (done: bool)
        ensures
            final(self)@ == after_transaction(old(self)@, t),
            done == match t {
                Transaction::Spend(amount) => old(self)@ >= amount,
                Transaction::Credit(_) => true,
            },
    {
        match t {
            Transaction::Spend(amount) => self.try_spend(amount),
            Transaction::Credit(amount) => {
                self.credit(amount);
                true
            },
        }
    }
}

/// A spend never takes the balance below zero, and never raises it.
pub proof fn lemma_spend_keeps_balance_non_negative(balance: int, amount: int)
    requires
        balance >= 0,
        amount >= 0,
    ensures
        0 <= after_spend(balance, amount) <= balance,
        after_spend(balance, amount) == balance || after_spend(balance, amount) == balance
            - amount,
{
}

/// A credit never lowers the balance, and below the cap it adds the exact
/// amount.
pub proof fn lemma_credit_adds(balance: int, amount: int)
    requires
        0 <= balance <= MONEY_CAP,
        amount >= 0,
    ensures
        balance <= after_credit(balance, amount) <= MONEY_CAP,
        balance + amount <= MONEY_CAP ==> after_credit(balance, amount) == balance + amount,
{
}

/// Whatever transactions are made and in whatever order, the balance is
/// between zero and the cap after each of them.
pub proof fn lemma_balance_never_negative(balance: int, ts: Seq<Transaction>, n: int)
    requires
        0 <= balance <= MONEY_CAP,
        0 <= n <= ts.len(),
    ensures
        0 <= after_all(balance, ts.take(n)) <= MONEY_CAP,
    decreases n,
{
    if n > 0 {
        lemma_balance_never_negative(balance, ts, n - 1);
        assert(ts.take(n).drop_last() =~= ts.take(n - 1));
    }
}

/// Buying a pig with at least its price in the purse lowers the balance by
/// exactly the price; with less, the balance stays as it is.
pub proof fn lemma_pig_price(balance: int)
    requires
        balance >= 0,
    ensures
        balance >= PIG_PRICE ==> after_spend(balance, PIG_PRICE as int) == balance - 1_000,
        balance < PIG_PRICE ==> after_spend(balance, PIG_PRICE as int) == balance,
{
}

} // verus!
