//! The operations of the wallet service on its state: create, get, balance
//! and fund.

use crate::env::{EmptyEnvironment, Environment};
use crate::error::WalletError;
use crate::identifier::{
    derived_address, generate_account_identifier, principal_from_text, principal_text_bytes,
};
use crate::store::{
    created, funded, funding_refusal, has_wallet, wallet_of, wallet_views, Data,
};
use crate::wallet::{funding_record, later, new_wallet, Transaction, Wallet, WalletView};
use vstd::prelude::*;

verus! {

/// The service's own identity on the network, in its textual form.
pub const SERVICE_PRINCIPAL: &'static str = "bd3sg-teaaa-aaaaa-qaaba-cai";

/// The address that the service derives for an owner, or the reason why it
/// cannot derive one.
pub open spec fn service_address(owner: Seq<char>) -> Result<Seq<char>, WalletError> {
    match principal_text_bytes(SERVICE_PRINCIPAL@) {
        Some(service) => derived_address(owner, service),
        None => Err(WalletError::InvalidServiceIdentity),
    }
}

/// The state of the service: its clock and its wallets.
pub struct RuntimeState<E: Environment> {
    pub env: E,
    pub data: Data,
}

impl Default for RuntimeState<EmptyEnvironment> {
    fn default() -> (state: Self)
        ensures
            state.data@ == Seq::<WalletView>::empty(),
    {
        RuntimeState { env: EmptyEnvironment::new(), data: Data::default() }
    }
}

impl<E: Environment> RuntimeState<E> {
    /// A state with the given clock and no wallets.
    pub fn new(env: E) -> (state: Self)
        ensures
            state.env == env,
            state.data@ == Seq::<WalletView>::empty(),
    {
        RuntimeState { env, data: Data::default() }
    }
}

/// Derives the address of `user_id` under the service's own identity. This
/// fails only where the service's identity is not a valid textual principal.
pub fn derive_service_address(user_id: String) -> (address: Result<String, WalletError>)
    ensures
        address is Ok <==> principal_text_bytes(SERVICE_PRINCIPAL@).is_some(),
        match address {
            Ok(text) => service_address(user_id@) == Ok::<Seq<char>, WalletError>(text@),
            Err(e) => e == WalletError::InvalidServiceIdentity && service_address(user_id@)
                == Err::<Seq<char>, WalletError>(e),
        },
{
    match principal_from_text(SERVICE_PRINCIPAL) {
        Some(service) => generate_account_identifier(user_id, service.as_slice()),
        None => Err(WalletError::InvalidServiceIdentity),
    }
}

/// Creates the wallet of `user_id`, or returns the one that exists: asking
/// twice gives the same wallet and changes nothing the second time. A new
/// wallet holds the initial balance, an empty log, the address derived for
/// the owner, and one reading of the clock as both of its timestamps. Where
/// no address can be derived, which is only where the service's identity is
/// not a valid principal, nothing is created.
pub fn create_wallet_impl<E: Environment>(
    user_id: String,
    runtime_state: &mut RuntimeState<E>,
) -> (outcome: Result<Wallet, WalletError>)
    ensures
        final(runtime_state).data.well_formed(),
        final(runtime_state).env == old(runtime_state).env,
        match outcome {
            Ok(wallet) => {
                &&& final(runtime_state).data@ == created(
                    old(runtime_state).data@,
                    user_id@,
                    wallet@.address,
                    wallet@.created_at,
                )
                &&& wallet_of(final(runtime_state).data@, user_id@) == Some(wallet@)
                &&& !has_wallet(old(runtime_state).data@, user_id@) ==> {
                    &&& service_address(user_id@) == Ok::<Seq<char>, WalletError>(wallet@.address)
                    &&& wallet@ == new_wallet(user_id@, wallet@.address, wallet@.created_at)
                    &&& old(runtime_state).env.fixed_time() matches Some(t) ==> wallet@.created_at
                        == t
                }
            },
            Err(e) => {
                &&& !has_wallet(old(runtime_state).data@, user_id@)
                &&& e == WalletError::InvalidServiceIdentity
                &&& principal_text_bytes(SERVICE_PRINCIPAL@).is_none()
                &&& service_address(user_id@) == Err::<Seq<char>, WalletError>(e)
                &&& final(runtime_state).data@ == old(runtime_state).data@
            },
        },
{
    proof {
        use_type_invariant(&runtime_state.data);
    }
    match runtime_state.data.get(&user_id) {
        Some(existing) => {
            return Ok(existing.clone());
        },
        None => {},
    }
    let address = match derive_service_address(user_id.clone()) {
        Ok(address) => address,
        Err(e) => {
            return Err(e);
        },
    };
    let now = runtime_state.env.now();
    let wallet = runtime_state.data.create(user_id, address, now);
    Ok(wallet)
}

/// The wallet of `user_id`: one wallet where the owner has one, none where
/// not.
pub fn get_wallet_impl<E: Environment>(user_id: String, runtime_state: &RuntimeState<E>) -> (found:
    Vec<Wallet>)
    ensures
        wallet_views(found@) == match wallet_of(runtime_state.data@, user_id@) {
            Some(w) => seq![w],
            None => Seq::<WalletView>::empty(),
        },
{
    let mut found: Vec<Wallet> = Vec::new();
    match runtime_state.data.get(&user_id) {
        Some(wallet) => {
            found.push(wallet.clone());
            assert(wallet_views(found@) =~= seq![wallet@]);
        },
        None => {
            assert(wallet_views(found@) =~= Seq::<WalletView>::empty());
        },
    }
    found
}

/// The balance of `user_id`. An owner without a wallet gets an error, not a
/// zero that could be taken for an empty wallet.
pub fn get_balance_impl<E: Environment>(user_id: String, runtime_state: &RuntimeState<E>) -> (balance:
    Result<u64, WalletError>)
    ensures
        balance == match wallet_of(runtime_state.data@, user_id@) {
            Some(w) => Ok::<u64, WalletError>(w.balance),
            None => Err::<u64, WalletError>(WalletError::NotFound),
        },
{
    match runtime_state.data.get(&user_id) {
        Some(wallet) => Ok(wallet.balance),
        None => Err(WalletError::NotFound),
    }
}

/// Funds the wallet of `user_id` by `amount` at one reading of the clock.
/// The balance grows by exactly `amount` and the log by one entry of that
/// amount, which is returned with the new balance. Without a wallet, or where
/// the balance would pass 64 bits, the state stays as it was.
pub fn fund_wallet_impl<E: Environment>(
    user_id: String,
    amount: u64,
    runtime_state: &mut RuntimeState<E>,
) -> (outcome: Result<(u64, Transaction), WalletError>)
    ensures
        final(runtime_state).data.well_formed(),
        final(runtime_state).env == old(runtime_state).env,
        match outcome {
            Ok((balance, entry)) => {
                &&& funding_refusal(old(runtime_state).data@, user_id@, amount).is_none()
                &&& final(runtime_state).data@ == funded(
                    old(runtime_state).data@,
                    user_id@,
                    amount,
                    entry@.created_at,
                )
                &&& balance == wallet_of(old(runtime_state).data@, user_id@).unwrap().balance
                    + amount
                &&& entry@ == funding_record(user_id@, amount, entry@.created_at)
                &&& entry@.created_at >= wallet_of(
                    old(runtime_state).data@,
                    user_id@,
                ).unwrap().updated_at
                &&& old(runtime_state).env.fixed_time() matches Some(t) ==> entry@.created_at
                    == later(wallet_of(old(runtime_state).data@, user_id@).unwrap().updated_at, t)
            },
            Err(e) => {
                &&& funding_refusal(old(runtime_state).data@, user_id@, amount) == Some(e)
                &&& final(runtime_state).data@ == old(runtime_state).data@
            },
        },
{
    let now = runtime_state.env.now();
    runtime_state.data.fund(&user_id, amount, now)
}

} // verus!
