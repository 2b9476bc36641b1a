//! Wallets, their transaction logs, and the store that holds one wallet per
//! owner.

use crate::error::WalletError;
use vstd::prelude::*;

verus! {

/// The balance that a wallet is created with.
pub const INITIAL_BALANCE: u64 = 1;

/// The label that stands for the sender of funds that come from outside.
pub const FUNDING_SOURCE: &'static str = "funding";

/// The description that a funding carries in the log.
pub const FUNDING_NARRATION: &'static str = "Wallet has been funded";

/// One entry of a wallet's log.
#[derive(Debug, PartialEq, Eq)]
pub struct Transaction {
    pub from: String,
    pub to: String,
    pub amount: u64,
    pub narration: String,
    pub created_at: u64,
}

/// What a transaction holds.
pub struct TransactionView {
    pub from: Seq<char>,
    pub to: Seq<char>,
    pub amount: u64,
    pub narration: Seq<char>,
    pub created_at: u64,
}

impl View for Transaction {
    type V = TransactionView;

    open spec fn view(&self) -> TransactionView {
        TransactionView {
            from: self.from@,
            to: self.to@,
            amount: self.amount,
            narration: self.narration@,
            created_at: self.created_at,
        }
    }
}

impl Clone for Transaction {
    fn clone(&self) -> (copy: Self)
        ensures
            copy@ == self@,
    {
        Transaction {
            from: self.from.clone(),
            to: self.to.clone(),
            amount: self.amount,
            narration: self.narration.clone(),
            created_at: self.created_at,
        }
    }
}

/// What a log holds, entry by entry.
pub open spec fn transaction_views(log: Seq<Transaction>) -> Seq<TransactionView> {
    log.map_values(|t: Transaction| t@)
}

/// The sum of the amounts in a log.
pub open spec fn total_amount(log: Seq<TransactionView>) -> int
    decreases log.len(),
{
    if log.len() == 0 {
        0
    } else {
        total_amount(log.drop_last()) + log.last().amount
    }
}

/// The later of two timestamps.
pub open spec fn later(a: u64, b: u64) -> u64 {
    if a >= b {
        a
    } else {
        b
    }
}

/// A user's account: a balance, the address that receives funds for it, and
/// the log of what changed the balance.
#[derive(Debug, PartialEq, Eq)]
pub struct Wallet {
    pub user_id: String,
    pub balance: u64,
    pub transaction: Vec<Transaction>,
    pub address: String,
    pub created_at: u64,
    pub updated_at: u64,
}

/// What a wallet holds.
pub struct WalletView {
    pub user_id: Seq<char>,
    pub balance: u64,
    pub transaction: Seq<TransactionView>,
    pub address: Seq<char>,
    pub created_at: u64,
    pub updated_at: u64,
}

impl View for Wallet {
    type V = WalletView;

    open spec fn view(&self) -> WalletView {
        WalletView {
            user_id: self.user_id@,
            balance: self.balance,
            transaction: transaction_views(self.transaction@),
            address: self.address@,
            created_at: self.created_at,
            updated_at: self.updated_at,
        }
    }
}

/// The balance is the initial credit plus all that the log records.
pub open spec fn balance_agrees(w: WalletView) -> bool {
    w.balance == INITIAL_BALANCE + total_amount(w.transaction)
}

/// The entries of a log stand in the order of their times.
pub open spec fn chronological(log: Seq<TransactionView>) -> bool {
    forall|i: int, j: int| 0 <= i <= j < log.len() ==> log[i].created_at <= log[j].created_at
}

/// The wallet was not updated before it was created, and its log runs in
/// order of time from the creation to the last update.
pub open spec fn times_in_order(w: WalletView) -> bool {
    &&& w.created_at <= w.updated_at
    &&& chronological(w.transaction)
    &&& forall|i: int|
        0 <= i < w.transaction.len() ==> w.created_at <= (#[trigger] w.transaction[i]).created_at
            <= w.updated_at
}

/// A wallet is valid when its balance agrees with its log and its times are
/// in order.
pub open spec fn valid_wallet(w: WalletView) -> bool {
    balance_agrees(w) && times_in_order(w)
}

/// The wallet that creation makes for an owner.
pub open spec fn new_wallet(owner: Seq<char>, address: Seq<char>, now: u64) -> WalletView {
    WalletView {
        user_id: owner,
        balance: INITIAL_BALANCE,
        transaction: Seq::empty(),
        address,
        created_at: now,
        updated_at: now,
    }
}

/// The log entry for a funding of `owner` that took effect at `at`.
pub open spec fn funding_record(owner: Seq<char>, amount: u64, at: u64) -> TransactionView {
    TransactionView {
        from: FUNDING_SOURCE@,
        to: owner,
        amount,
        narration: FUNDING_NARRATION@,
        created_at: at,
    }
}

/// A wallet after a funding by `amount` when the clock shows `now`: the
/// balance grows by the amount, the log by one entry, and the time of the
/// last update moves on to `now` unless it is already later.
pub open spec fn funded_wallet(w: WalletView, amount: u64, now: u64) -> WalletView {
    WalletView {
        user_id: w.user_id,
        balance: (w.balance + amount) as u64,
        transaction: w.transaction.push(
            funding_record(w.user_id, amount, later(w.updated_at, now)),
        ),
        address: w.address,
        created_at: w.created_at,
        updated_at: later(w.updated_at, now),
    }
}

impl Clone for Wallet {
    fn clone(&self) -> (copy: Self)
        ensures
            copy@ == self@,
    {
        let mut log: Vec<Transaction> = Vec::new();
        let mut i: usize = 0;
        while i < self.transaction.len()
            invariant
                i <= self.transaction@.len(),
                log@.len() == i,
                transaction_views(log@) == transaction_views(self.transaction@).subrange(
                    0,
                    i as int,
                ),
            decreases self.transaction@.len() - i,
        {
            let entry = self.transaction[i].clone();
            log.push(entry);
            i += 1;
            assert(transaction_views(log@) =~= transaction_views(self.transaction@).subrange(
                0,
                i as int,
            ));
        }
        assert(transaction_views(log@) =~= transaction_views(self.transaction@));
        Wallet {
            user_id: self.user_id.clone(),
            balance: self.balance,
            transaction: log,
            address: self.address.clone(),
            created_at: self.created_at,
            updated_at: self.updated_at,
        }
    }
}

/// Adding an entry to a log adds its amount to the total.
pub proof fn lemma_total_amount_push(log: Seq<TransactionView>, entry: TransactionView)
    ensures
        total_amount(log.push(entry)) == total_amount(log) + entry.amount,
{
    assert(log.push(entry).drop_last() =~= log);
}

/// The total of the first entries of a log is at most the total of all.
pub proof fn lemma_total_amount_prefix(log: Seq<TransactionView>, n: int)
    requires
        0 <= n <= log.len(),
    ensures
        0 <= total_amount(log.subrange(0, n)) <= total_amount(log),
    decreases log.len(),
{
    if n == log.len() {
        assert(log.subrange(0, n) =~= log);
        if log.len() > 0 {
            lemma_total_amount_prefix(log.drop_last(), n - 1);
            assert(log.drop_last().subrange(0, n - 1) =~= log.drop_last());
        }
    } else {
        lemma_total_amount_prefix(log.drop_last(), n);
        assert(log.drop_last().subrange(0, n) =~= log.subrange(0, n));
    }
}

} // verus!
