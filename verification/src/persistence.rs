//! Carrying the store over a restart: the wallets are handed out whole, and
//! what comes back is taken only if it is a valid store.

use crate::env::Environment;
use crate::error::WalletError;
use crate::service::RuntimeState;
use crate::store::{unique_owners, valid_store, wallet_views, Data};
use crate::wallet::{
    balance_agrees, lemma_total_amount_prefix, times_in_order, total_amount, transaction_views,
    valid_wallet, Wallet, WalletView, INITIAL_BALANCE,
};
use vstd::prelude::*;

verus! {

/// What restoring gives for the wallets that were read back: the same
/// wallets where they make a valid store, and nothing where they do not.
pub open spec fn restored(wallets: Seq<WalletView>) -> Option<Seq<WalletView>> {
    if valid_store(wallets) {
        Some(wallets)
    } else {
        None
    }
}

/// The store that the service goes on with after a restart: the restored
/// one, or an empty one where nothing valid came back.
pub open spec fn recovered(wallets: Option<Seq<WalletView>>) -> Seq<WalletView> {
    match wallets {
        Some(w) => match restored(w) {
            Some(s) => s,
            None => Seq::empty(),
        },
        None => Seq::empty(),
    }
}

/// Whether a wallet's balance is the initial credit plus the amounts of its
/// log.
pub fn balance_is_consistent(wallet: &Wallet) -> (consistent: bool)
    ensures
        consistent == balance_agrees(wallet@),
{
    let ghost log = transaction_views(wallet.transaction@);
    proof {
        lemma_total_amount_prefix(log, 0);
    }
    if wallet.balance < INITIAL_BALANCE {
        return false;
    }
    let mut remaining: u64 = wallet.balance - INITIAL_BALANCE;
    let mut i: usize = 0;
    assert(log.subrange(0, 0) =~= Seq::empty());
    while i < wallet.transaction.len()
        invariant
            i <= wallet.transaction@.len(),
            log == transaction_views(wallet.transaction@),
            remaining + total_amount(log.subrange(0, i as int)) == wallet.balance
                - INITIAL_BALANCE,
        decreases wallet.transaction@.len() - i,
    {
        let amount = wallet.transaction[i].amount;
        proof {
            assert(log.subrange(0, i + 1).drop_last() =~= log.subrange(0, i as int));
            lemma_total_amount_prefix(log, i + 1);
        }
        if amount > remaining {
            return false;
        }
        remaining = remaining - amount;
        i += 1;
    }
    assert(log.subrange(0, i as int) =~= log);
    remaining == 0
}

/// Whether a wallet's log runs in order of time from the creation to the
/// last update.
pub fn log_is_in_order(wallet: &Wallet) -> (ordered: bool)
    ensures
        ordered == times_in_order(wallet@),
{
    let ghost log = transaction_views(wallet.transaction@);
    if wallet.created_at > wallet.updated_at {
        return false;
    }
    let mut latest: u64 = wallet.created_at;
    let mut i: usize = 0;
    while i < wallet.transaction.len()
        invariant
            i <= wallet.transaction@.len(),
            log == transaction_views(wallet.transaction@),
            wallet.created_at <= latest,
            i == 0 ==> latest == wallet.created_at,
            i > 0 ==> latest == log[i - 1].created_at,
            forall|k: int| 0 <= k < i ==> wallet.created_at <= (#[trigger] log[k]).created_at <= latest,
            forall|a: int, b: int| 0 <= a <= b < i ==> log[a].created_at <= log[b].created_at,
        decreases wallet.transaction@.len() - i,
    {
        let at = wallet.transaction[i].created_at;
        assert(at == log[i as int].created_at);
        if at < latest {
            proof {
                if i > 0 {
                    assert(log[i - 1].created_at > log[i as int].created_at);
                }
            }
            return false;
        }
        latest = at;
        i += 1;
    }
    proof {
        if i > 0 {
            assert(log[i - 1].created_at == latest);
        }
    }
    latest <= wallet.updated_at
}

/// Whether a wallet is valid: its balance agrees with its log and its times
/// are in order.
pub fn wallet_is_valid(wallet: &Wallet) -> (valid: bool)
    ensures
        valid == valid_wallet(wallet@),
{
    balance_is_consistent(wallet) && log_is_in_order(wallet)
}

/// Whether no two of the wallets belong to the same owner.
pub fn owners_are_unique(wallets: &Vec<Wallet>) -> (unique: bool)
    ensures
        unique == unique_owners(wallet_views(wallets@)),
{
    let ghost s = wallet_views(wallets@);
    let mut i: usize = 0;
    while i < wallets.len()
        invariant
            i <= wallets@.len(),
            s == wallet_views(wallets@),
            forall|a: int, b: int| 0 <= b < a < i ==> s[a].user_id != s[b].user_id,
        decreases wallets@.len() - i,
    {
        let mut j: usize = 0;
        while j < i
            invariant
                j <= i < wallets@.len(),
                s == wallet_views(wallets@),
                forall|b: int| 0 <= b < j ==> s[i as int].user_id != (#[trigger] s[b]).user_id,
            decreases i - j,
        {
            if wallets[j].user_id == wallets[i].user_id {
                assert(s[j as int].user_id == s[i as int].user_id);
                return false;
            }
            j += 1;
        }
        i += 1;
    }
    assert forall|a: int, b: int| 0 <= a < s.len() && 0 <= b < s.len() && a != b implies s[a].user_id
        != s[b].user_id by {
        if a < b {
            assert(s[b].user_id != s[a].user_id);
        }
    }
    true
}

/// Whether the wallets make a valid store.
pub fn store_is_valid(wallets: &Vec<Wallet>) -> (valid: bool)
    ensures
        valid == valid_store(wallet_views(wallets@)),
{
    let ghost s = wallet_views(wallets@);
    let mut i: usize = 0;
    while i < wallets.len()
        invariant
            i <= wallets@.len(),
            s == wallet_views(wallets@),
            forall|k: int| 0 <= k < i ==> valid_wallet(#[trigger] s[k]),
        decreases wallets@.len() - i,
    {
        if !wallet_is_valid(&wallets[i]) {
            assert(!valid_wallet(s[i as int]));
            return false;
        }
        i += 1;
    }
    owners_are_unique(wallets)
}

/// Hands out a copy of every wallet, in the store's order, to be written
/// down before a restart.
pub fn snapshot(data: &Data) -> (wallets: Vec<Wallet>)
    ensures
        wallet_views(wallets@) == data@,
{
    let held = data.wallets();
    let mut wallets: Vec<Wallet> = Vec::new();
    let mut i: usize = 0;
    while i < held.len()
        invariant
            i <= held@.len(),
            wallets@.len() == i,
            wallet_views(held@) == data@,
            wallet_views(wallets@) == data@.subrange(0, i as int),
        decreases held@.len() - i,
    {
        let copy = held[i].clone();
        wallets.push(copy);
        i += 1;
        assert(wallet_views(wallets@) =~= data@.subrange(0, i as int));
    }
    assert(wallet_views(wallets@) =~= data@);
    wallets
}

/// Makes a store of the wallets that were read back. They are taken as they
/// are where they make a valid store; where not, the failure is reported and
/// no store is made.
pub fn restore(wallets: Vec<Wallet>) -> (outcome: Result<Data, WalletError>)
    ensures
        match outcome {
            Ok(data) => restored(wallet_views(wallets@)) == Some(data@),
            Err(e) => e == WalletError::PersistenceFailure && restored(
                wallet_views(wallets@),
            ).is_none(),
        },
{
    if store_is_valid(&wallets) {
        Ok(Data::adopt(wallets))
    } else {
        Err(WalletError::PersistenceFailure)
    }
}

/// The state that the service goes on with after a restart. `wallets` is
/// what was read back, or nothing where reading failed. Where a valid store
/// came back it is kept; otherwise the service starts with no wallets, and
/// the flag beside the state is set to say that the earlier ones are lost.
pub fn post_upgrade<E: Environment>(env: E, wallets: Option<Vec<Wallet>>) -> (outcome: (
    RuntimeState<E>,
    bool,
))
    ensures
        outcome.0.env == env,
        outcome.0.data@ == recovered(
            match wallets {
                Some(w) => Some(wallet_views(w@)),
                None => None,
            },
        ),
        outcome.1 == match wallets {
            Some(w) => restored(wallet_views(w@)).is_none(),
            None => true,
        },
{
    match wallets {
        Some(w) => match restore(w) {
            Ok(data) => (RuntimeState { env, data }, false),
            Err(_) => (RuntimeState::new(env), true),
        },
        None => (RuntimeState::new(env), true),
    }
}

/// A valid store that is written down and read back is restored as it was:
/// the same owners, balances, logs and timestamps.
pub proof fn lemma_restore_of_snapshot(store: Seq<WalletView>)
    requires
        valid_store(store),
    ensures
        restored(store) == Some(store),
        recovered(Some(store)) == store,
{
}

} // verus!
