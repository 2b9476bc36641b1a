//! The wallet store: at most one wallet per owner, created once, changed
//! only by funding, never removed.

use crate::error::WalletError;
use crate::wallet::{
    funded_wallet, funding_record, later, lemma_total_amount_push, new_wallet, valid_wallet,
    Transaction, TransactionView, Wallet, WalletView, FUNDING_NARRATION, FUNDING_SOURCE,
    INITIAL_BALANCE,
};
use vstd::prelude::*;

verus! {

/// What a sequence of wallets holds, wallet by wallet.
pub open spec fn wallet_views(wallets: Seq<Wallet>) -> Seq<WalletView> {
    wallets.map_values(|w: Wallet| w@)
}

/// No two wallets belong to the same owner.
pub open spec fn unique_owners(s: Seq<WalletView>) -> bool {
    forall|i: int, j: int|
        0 <= i < s.len() && 0 <= j < s.len() && i != j ==> s[i].user_id != s[j].user_id
}

/// Every wallet is valid and no owner has two.
pub open spec fn valid_store(s: Seq<WalletView>) -> bool {
    &&& unique_owners(s)
    &&& forall|i: int| 0 <= i < s.len() ==> valid_wallet(#[trigger] s[i])
}

/// Whether `owner` has a wallet.
pub open spec fn has_wallet(s: Seq<WalletView>, owner: Seq<char>) -> bool {
    exists|i: int| 0 <= i < s.len() && #[trigger] s[i].user_id == owner
}

/// The place of the wallet of `owner`, where there is one.
pub open spec fn wallet_index(s: Seq<WalletView>, owner: Seq<char>) -> int {
    choose|i: int| 0 <= i < s.len() && #[trigger] s[i].user_id == owner
}

/// The wallet of `owner`, if there is one.
pub open spec fn wallet_of(s: Seq<WalletView>, owner: Seq<char>) -> Option<WalletView> {
    if has_wallet(s, owner) {
        Some(s[wallet_index(s, owner)])
    } else {
        None
    }
}

/// The store after `owner` asked for a wallet: unchanged where one exists,
/// else with a new wallet at its end.
pub open spec fn created(s: Seq<WalletView>, owner: Seq<char>, address: Seq<char>, now: u64) -> Seq<
    WalletView,
> {
    if has_wallet(s, owner) {
        s
    } else {
        s.push(new_wallet(owner, address, now))
    }
}

/// Whether a funding of `owner` by `amount` is carried out, and if not, why.
pub open spec fn funding_refusal(s: Seq<WalletView>, owner: Seq<char>, amount: u64) -> Option<
    WalletError,
> {
    if !has_wallet(s, owner) {
        Some(WalletError::NotFound)
    } else if s[wallet_index(s, owner)].balance + amount > u64::MAX {
        Some(WalletError::Overflow)
    } else {
        None
    }
}

/// The store after a funding of `owner` by `amount` at the time `now`:
/// unchanged where the funding is refused, else with that one wallet funded.
pub open spec fn funded(s: Seq<WalletView>, owner: Seq<char>, amount: u64, now: u64) -> Seq<
    WalletView,
> {
    if funding_refusal(s, owner, amount).is_some() {
        s
    } else {
        s.update(
            wallet_index(s, owner),
            funded_wallet(s[wallet_index(s, owner)], amount, now),
        )
    }
}

/// Where owners are unique, a wallet found at some place is the owner's wallet.
pub proof fn lemma_wallet_index(s: Seq<WalletView>, owner: Seq<char>, i: int)
    requires
        unique_owners(s),
        0 <= i < s.len(),
        s[i].user_id == owner,
    ensures
        has_wallet(s, owner),
        wallet_index(s, owner) == i,
        wallet_of(s, owner) == Some(s[i]),
{
}

/// Creation is idempotent: after an owner asked for a wallet, asking again,
/// with whatever address and at whatever time, leaves the store as it is and
/// gives the same wallet, with the same address and balance.
pub proof fn lemma_create_idempotent(
    s: Seq<WalletView>,
    owner: Seq<char>,
    address: Seq<char>,
    now: u64,
    other_address: Seq<char>,
    later_now: u64,
)
    requires
        valid_store(s),
    ensures
        valid_store(created(s, owner, address, now)),
        has_wallet(created(s, owner, address, now), owner),
        created(created(s, owner, address, now), owner, other_address, later_now) == created(
            s,
            owner,
            address,
            now,
        ),
        wallet_of(
            created(created(s, owner, address, now), owner, other_address, later_now),
            owner,
        ) == wallet_of(created(s, owner, address, now), owner),
        !has_wallet(s, owner) ==> wallet_of(created(s, owner, address, now), owner) == Some(
            new_wallet(owner, address, now),
        ),
{
    let once = created(s, owner, address, now);
    if !has_wallet(s, owner) {
        assert(once[s.len() as int].user_id == owner);
        assert(unique_owners(once));
        lemma_wallet_index(once, owner, s.len() as int);
    }
}

/// A funding that is carried out adds exactly `amount` to the owner's
/// balance and exactly one entry, of that amount, to the end of the owner's
/// log. Every other wallet stays as it was, and the store stays valid.
pub proof fn lemma_fund_adds_amount(s: Seq<WalletView>, owner: Seq<char>, amount: u64, now: u64)
    requires
        valid_store(s),
        has_wallet(s, owner),
        wallet_of(s, owner).unwrap().balance + amount <= u64::MAX,
    ensures
        valid_store(funded(s, owner, amount, now)),
        funded(s, owner, amount, now).len() == s.len(),
        wallet_of(funded(s, owner, amount, now), owner) == Some(
            funded_wallet(wallet_of(s, owner).unwrap(), amount, now),
        ),
        wallet_of(funded(s, owner, amount, now), owner).unwrap().balance == wallet_of(
            s,
            owner,
        ).unwrap().balance + amount,
        wallet_of(funded(s, owner, amount, now), owner).unwrap().transaction.len() == wallet_of(
            s,
            owner,
        ).unwrap().transaction.len() + 1,
        wallet_of(funded(s, owner, amount, now), owner).unwrap().transaction.drop_last()
            == wallet_of(s, owner).unwrap().transaction,
        wallet_of(funded(s, owner, amount, now), owner).unwrap().transaction.last().amount
            == amount,
        wallet_of(funded(s, owner, amount, now), owner).unwrap().updated_at >= wallet_of(
            s,
            owner,
        ).unwrap().updated_at,
        forall|i: int|
            0 <= i < s.len() && i != wallet_index(s, owner) ==> #[trigger] funded(
                s,
                owner,
                amount,
                now,
            )[i] == s[i],
{
    let i = wallet_index(s, owner);
    let w = s[i];
    let after = funded(s, owner, amount, now);
    let entry = funding_record(w.user_id, amount, later(w.updated_at, now));
    lemma_total_amount_push(w.transaction, entry);
    assert(after[i] == funded_wallet(w, amount, now));
    assert(unique_owners(after));
    lemma_wallet_index(after, owner, i);
    assert(w.transaction.push(entry).drop_last() =~= w.transaction);
}

/// Creating and funding keep a store valid: after either, no owner has two
/// wallets, every balance is the initial credit plus what the log records,
/// and every log runs in order of time.
pub proof fn lemma_operations_keep_store_valid(
    s: Seq<WalletView>,
    owner: Seq<char>,
    address: Seq<char>,
    amount: u64,
    now: u64,
)
    requires
        valid_store(s),
    ensures
        valid_store(created(s, owner, address, now)),
        valid_store(funded(s, owner, amount, now)),
{
    lemma_create_idempotent(s, owner, address, now, address, now);
    if funding_refusal(s, owner, amount).is_none() {
        lemma_fund_adds_amount(s, owner, amount, now);
    }
}

/// A funding for an owner without a wallet is refused as not found, and the
/// store stays as it was.
pub proof fn lemma_fund_without_wallet(s: Seq<WalletView>, owner: Seq<char>, amount: u64, now: u64)
    requires
        !has_wallet(s, owner),
    ensures
        funding_refusal(s, owner, amount) == Some(WalletError::NotFound),
        funded(s, owner, amount, now) == s,
{
}

/// All the wallets of the service. A store is always valid: it is made
/// empty or from wallets that were checked, and every change keeps it so.
#[derive(Debug)]
pub struct Data {
    pub(crate) wallet: Vec<Wallet>,
}

impl View for Data {
    type V = Seq<WalletView>;

    closed spec fn view(&self) -> Seq<WalletView> {
        wallet_views(self.wallet@)
    }
}

impl Default for Data {
    fn default() -> (data: Self)
        ensures
            data@ == Seq::<WalletView>::empty(),
    {
        let data = Data { wallet: Vec::new() };
        assert(data@ =~= Seq::<WalletView>::empty());
        data
    }
}

impl Data {
    /// The store's invariant: see `valid_store`.
    #[verifier::type_invariant]
    pub open spec fn well_formed(&self) -> bool {
        valid_store(self@)
    }

    /// A store of the given wallets, which are known to make a valid one.
    pub(crate) fn adopt(wallets: Vec<Wallet>) -> (data: Self)
        requires
            valid_store(wallet_views(wallets@)),
        ensures
            data@ == wallet_views(wallets@),
    {
        Data { wallet: wallets }
    }

    /// The wallets of the store, in the order of their creation.
    pub fn wallets(&self) -> (wallets: &Vec<Wallet>)
        ensures
            wallet_views(wallets@) == self@,
            valid_store(self@),
    {
        proof {
            use_type_invariant(self);
        }
        &self.wallet
    }

    /// The place of the wallet of `user_id`, if there is one.
    pub fn find(&self, user_id: &String) -> (place: Option<usize>)
        ensures
            match place {
                Some(i) => has_wallet(self@, user_id@) && i == wallet_index(self@, user_id@),
                None => !has_wallet(self@, user_id@),
            },
    {
        proof {
            use_type_invariant(self);
        }
        let mut i: usize = 0;
        while i < self.wallet.len()
            invariant
                i <= self.wallet@.len(),
                valid_store(self@),
                forall|k: int| 0 <= k < i ==> (#[trigger] self@[k]).user_id != user_id@,
            decreases self.wallet@.len() - i,
        {
            if self.wallet[i].user_id == *user_id {
                proof {
                    lemma_wallet_index(self@, user_id@, i as int);
                }
                return Some(i);
            }
            i += 1;
        }
        None
    }

    /// The wallet of `user_id`, or nothing where the owner has none.
    pub fn get(&self, user_id: &String) -> (found: Option<&Wallet>)
        ensures
            match found {
                Some(w) => wallet_of(self@, user_id@) == Some(w@),
                None => wallet_of(self@, user_id@).is_none(),
            },
    {
        match self.find(user_id) {
            Some(i) => Some(&self.wallet[i]),
            None => None,
        }
    }

    /// The balance of `user_id`, and zero where the owner has no wallet.
    pub fn balance_of(&self, user_id: &String) -> (balance: u64)
        ensures
            balance == match wallet_of(self@, user_id@) {
                Some(w) => w.balance,
                None => 0,
            },
    {
        match self.find(user_id) {
            Some(i) => self.wallet[i].balance,
            None => 0,
        }
    }

    /// Gives `user_id` a wallet with the address `address`, created at `now`,
    /// unless the owner has one already: then the store stays as it is.
    /// Either way the owner's wallet is returned.
    pub fn create(&mut self, user_id: String, address: String, now: u64) -> (wallet: Wallet)
        ensures
            valid_store(final(self)@),
            final(self)@ == created(old(self)@, user_id@, address@, now),
            wallet_of(final(self)@, user_id@) == Some(wallet@),
    {
        proof {
            use_type_invariant(&*self);
        }
        match self.find(&user_id) {
            Some(i) => self.wallet[i].clone(),
            None => {
                let wallet = Wallet {
                    user_id,
                    balance: INITIAL_BALANCE,
                    transaction: Vec::new(),
                    address,
                    created_at: now,
                    updated_at: now,
                };
                let copy = wallet.clone();
                let mut wallets: Vec<Wallet> = Vec::new();
                assert(wallet_views(wallets@) =~= Seq::<WalletView>::empty());
                std::mem::swap(&mut wallets, &mut self.wallet);
                wallets.push(wallet);
                proof {
                    let before = old(self)@;
                    let after = wallet_views(wallets@);
                    assert(wallet@.transaction =~= Seq::<TransactionView>::empty());
                    assert(after =~= before.push(new_wallet(user_id@, address@, now)));
                    assert(unique_owners(after));
                    lemma_wallet_index(after, user_id@, before.len() as int);
                }
                self.wallet = wallets;
                copy
            },
        }
    }

    /// Credits `amount` to the wallet of `user_id` and records it in the log.
    /// Returns the new balance and the log entry. Without a wallet, or where
    /// the balance would pass 64 bits, nothing changes and the error says which.
    pub fn fund(&mut self, user_id: &String, amount: u64, now: u64) -> (outcome: Result<
        (u64, Transaction),
        WalletError,
    >)
        ensures
            valid_store(final(self)@),
            final(self)@ == funded(old(self)@, user_id@, amount, now),
            match outcome {
                Ok((balance, entry)) => {
                    &&& funding_refusal(old(self)@, user_id@, amount).is_none()
                    &&& wallet_of(final(self)@, user_id@) == Some(
                        funded_wallet(wallet_of(old(self)@, user_id@).unwrap(), amount, now),
                    )
                    &&& balance == wallet_of(old(self)@, user_id@).unwrap().balance + amount
                    &&& entry@ == funding_record(
                        user_id@,
                        amount,
                        later(wallet_of(old(self)@, user_id@).unwrap().updated_at, now),
                    )
                },
                Err(e) => funding_refusal(old(self)@, user_id@, amount) == Some(e),
            },
    {
        proof {
            use_type_invariant(&*self);
        }
        let i = match self.find(user_id) {
            Some(i) => i,
            None => {
                return Err(WalletError::NotFound);
            },
        };
        let balance = self.wallet[i].balance;
        if amount > u64::MAX - balance {
            return Err(WalletError::Overflow);
        }
        let updated = self.wallet[i].updated_at;
        let at = if updated >= now {
            updated
        } else {
            now
        };
        let entry = Transaction {
            from: String::from_str(FUNDING_SOURCE),
            to: self.wallet[i].user_id.clone(),
            amount,
            narration: String::from_str(FUNDING_NARRATION),
            created_at: at,
        };
        let copy = entry.clone();
        let mut wallets: Vec<Wallet> = Vec::new();
        assert(wallet_views(wallets@) =~= Seq::<WalletView>::empty());
        std::mem::swap(&mut wallets, &mut self.wallet);
        let funded = &mut wallets[i];
        funded.balance = balance + amount;
        funded.updated_at = at;
        funded.transaction.push(entry);
        proof {
            let before = old(self)@;
            let after = wallet_views(wallets@);
            let w = before[i as int];
            lemma_total_amount_push(w.transaction, entry@);
            assert(after[i as int].transaction =~= w.transaction.push(entry@));
            assert(after =~= before.update(i as int, funded_wallet(w, amount, now)));
            assert(unique_owners(after));
            lemma_wallet_index(after, user_id@, i as int);
        }
        self.wallet = wallets;
        Ok((balance + amount, copy))
    }
}

} // verus!
