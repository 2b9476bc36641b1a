//! The ledger client's decisions: what is asked of the external ledger, and
//! what its answers mean. The requests themselves are sent by the caller.

use crate::error::{WalletError, WalletErrorView};
use vstd::prelude::*;

verus! {

/// The fee that the ledger takes for a transfer, in its smallest unit.
pub const TRANSFER_FEE: u64 = 10_000;

/// The identity of the external ledger, in its textual form.
pub const ICP_LEDGER_CANISTER_ID: &'static str = "bkyz2-fmaaa-aaaaa-qaaaq-cai";

/// The ledger's method that carries out a transfer.
pub const TRANSFER_METHOD: &'static str = "send_dfx";

/// The ledger's method that reports the balance of an account.
pub const BALANCE_METHOD: &'static str = "account_balance_dfx";

/// What the textual form of an account identifier decodes to: the account's
/// bytes, or the message that says why the text is not an account.
pub uninterp spec fn account_hex_decoded(text: Seq<char>) -> Result<Seq<u8>, Seq<char>>;

/// Validates the text with `ic_ledger_types::AccountIdentifier::from_hex` and
/// hands out the account's 32 bytes, or the crate's message. Trusted: the
/// outcome depends on the text alone.
#[verifier::external_body]
fn account_from_hex(text: &str) -> (account: Result<[u8; 32], String>)
    ensures
        match account {
            Ok(bytes) => account_hex_decoded(text@) == Ok::<Seq<u8>, Seq<char>>(bytes@),
            Err(message) => account_hex_decoded(text@) == Err::<Seq<u8>, Seq<char>>(message@),
        },
{
    match ic_ledger_types::AccountIdentifier::from_hex(text) {
        Ok(account) => Ok(*account.as_bytes()),
        Err(message) => Err(message),
    }
}

/// Whether the bytes are an account: what the ledger's parser gives for some
/// text.
pub open spec fn is_account(bytes: Seq<u8>) -> bool {
    exists|text: Seq<char>| #[trigger] account_hex_decoded(text) == Ok::<Seq<u8>, Seq<char>>(bytes)
}

/// An account on the ledger. Every value of this type came out of the
/// validation of an account identifier.
#[derive(Clone, Copy, Debug, PartialEq, Eq)]
pub struct Account {
    bytes: [u8; 32],
}

impl View for Account {
    type V = Seq<u8>;

    closed spec fn view(&self) -> Seq<u8> {
        self.bytes@
    }
}

impl Account {
    /// The invariant of an account: see `is_account`.
    #[verifier::type_invariant]
    pub closed spec fn well_formed(&self) -> bool {
        is_account(self.bytes@)
    }

    /// The 32 bytes of the account: a checksum and the hash that it guards.
    pub fn bytes(&self) -> (bytes: [u8; 32])
        ensures
            bytes@ == self@,
            is_account(self@),
    {
        proof {
            use_type_invariant(self);
        }
        self.bytes
    }
}

/// A request to move funds to an account given as text.
#[derive(Debug, PartialEq, Eq)]
pub struct TransferRequest {
    pub to: String,
    pub amount: u64,
}

/// A request for the ledger's balance of an account given as text.
#[derive(Debug, PartialEq, Eq)]
pub struct BalanceRequest {
    pub account: String,
}

/// How a transfer ended: the index of the block that holds it, or the
/// ledger's message.
#[derive(Debug, PartialEq, Eq)]
pub struct TransferResponse {
    pub block_index: Option<u64>,
    pub error: Option<String>,
}

/// A balance that the ledger reported, in its smallest unit.
#[derive(Debug, PartialEq, Eq)]
pub struct BalanceResponse {
    pub balance: u64,
    pub error: Option<String>,
}

/// What the ledger is asked to do for a transfer.
#[derive(Clone, Copy, Debug, PartialEq, Eq)]
pub struct TransferOrder {
    pub memo: u64,
    pub amount: u64,
    pub fee: u64,
    pub from_subaccount: Option<[u8; 32]>,
    pub to: Account,
    pub created_at_time: Option<u64>,
}

/// The order for a transfer of `amount` to `to`: the memo is the amount, the
/// fee is the ledger's fixed fee, the funds leave the service's main account,
/// and the time of the request is left to the ledger.
pub open spec fn transfer_order(to: Account, amount: u64) -> TransferOrder {
    TransferOrder {
        memo: amount,
        amount,
        fee: TRANSFER_FEE,
        from_subaccount: None,
        to,
        created_at_time: None,
    }
}

/// The account that a text names, where it is a well-formed account
/// identifier; else a malformed-input error with the reason.
pub open spec fn parsed_account(text: Seq<char>) -> Result<Seq<u8>, WalletErrorView> {
    match account_hex_decoded(text) {
        Ok(bytes) => Ok(bytes),
        Err(message) => Err(WalletErrorView::MalformedInput(message)),
    }
}

/// Validates an account identifier before anything is sent to the ledger.
pub fn parse_account(account: &str) -> (parsed: Result<Account, WalletError>)
    ensures
        match parsed {
            Ok(found) => parsed_account(account@) == Ok::<Seq<u8>, WalletErrorView>(found@),
            Err(e) => parsed_account(account@) == Err::<Seq<u8>, WalletErrorView>(e@),
        },
{
    match account_from_hex(account) {
        Ok(bytes) => Ok(Account { bytes }),
        Err(message) => Err(WalletError::MalformedInput(message)),
    }
}

/// The first step of a transfer: the order to send to the ledger.
pub fn transfer(to_account: Account, amount: u64) -> (order: TransferOrder)
    ensures
        order == transfer_order(to_account, amount),
{
    TransferOrder {
        memo: amount,
        amount,
        fee: TRANSFER_FEE,
        from_subaccount: None,
        to: to_account,
        created_at_time: None,
    }
}

/// What a transfer's caller is told for a reply of the ledger: the block
/// index on success, the ledger's message on failure.
pub open spec fn transfer_outcome(reply: Result<u64, String>) -> TransferResponse {
    match reply {
        Ok(index) => TransferResponse { block_index: Some(index), error: None },
        Err(message) => TransferResponse { block_index: None, error: Some(message) },
    }
}

/// What a balance check's caller is told for a reply of the ledger: the
/// balance on success, and on failure an error with the ledger's message,
/// never a balance of zero.
pub open spec fn balance_outcome(reply: Result<u64, String>) -> Result<
    BalanceResponse,
    WalletError,
> {
    match reply {
        Ok(balance) => Ok(BalanceResponse { balance, error: None }),
        Err(message) => Err(WalletError::LedgerFailure(message)),
    }
}

/// The last step of a transfer: what the caller is told, given the ledger's
/// reply. A transfer is sent once; nothing here asks again.
pub fn transfer_response(reply: Result<u64, String>) -> (response: TransferResponse)
    ensures
        response == transfer_outcome(reply),
{
    match reply {
        Ok(index) => TransferResponse { block_index: Some(index), error: None },
        Err(message) => TransferResponse { block_index: None, error: Some(message) },
    }
}

/// The first step of a balance check: the account to ask the ledger about.
/// A malformed identifier fails here, before any request is made.
pub fn check_balance(account: String) -> (query: Result<Account, WalletError>)
    ensures
        match query {
            Ok(found) => parsed_account(account@) == Ok::<Seq<u8>, WalletErrorView>(found@),
            Err(e) => parsed_account(account@) == Err::<Seq<u8>, WalletErrorView>(e@),
        },
{
    parse_account(account.as_str())
}

/// The last step of a balance check: what the caller is told, given the
/// ledger's reply.
pub fn balance_response(reply: Result<u64, String>) -> (response: Result<
    BalanceResponse,
    WalletError,
>)
    ensures
        response == balance_outcome(reply),
{
    match reply {
        Ok(balance) => Ok(BalanceResponse { balance, error: None }),
        Err(message) => Err(WalletError::LedgerFailure(message)),
    }
}

impl TransferRequest {
    /// The order that this request makes, where its destination is a
    /// well-formed account identifier.
    pub fn order(&self) -> (order: Result<TransferOrder, WalletError>)
        ensures
            match order {
                Ok(o) => parsed_account(self.to@) == Ok::<Seq<u8>, WalletErrorView>(o.to@) && o
                    == transfer_order(o.to, self.amount),
                Err(e) => parsed_account(self.to@) == Err::<Seq<u8>, WalletErrorView>(e@),
            },
    {
        match parse_account(self.to.as_str()) {
            Ok(account) => Ok(transfer(account, self.amount)),
            Err(e) => Err(e),
        }
    }
}

impl BalanceRequest {
    /// The account that this request asks about, where it names one.
    pub fn query(&self) -> (query: Result<Account, WalletError>)
        ensures
            match query {
                Ok(found) => parsed_account(self.account@) == Ok::<Seq<u8>, WalletErrorView>(
                    found@,
                ),
                Err(e) => parsed_account(self.account@) == Err::<Seq<u8>, WalletErrorView>(e@),
            },
    {
        parse_account(self.account.as_str())
    }
}

} // verus!
