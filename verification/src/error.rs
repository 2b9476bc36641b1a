//! The errors that the wallet operations report.

use vstd::prelude::*;

verus! {

/// Why an operation of the wallet service did not give its result.
#[derive(Debug, PartialEq, Eq)]
pub enum WalletError {
    /// No wallet exists for the owner that the operation names.
    NotFound,
    /// The funding would take the balance above what 64 bits hold.
    Overflow,
    /// An account identifier did not pass the local validation; the text says why.
    MalformedInput(String),
    /// The ledger could not be reached or rejected the request; the text is its message.
    LedgerFailure(String),
    /// Persisted state could not be turned back into a valid store.
    PersistenceFailure,
    /// The service's own identity has no valid textual form or is too long.
    InvalidServiceIdentity,
    /// The hash gave fewer bytes than a subaccount needs.
    ShortDigest,
}

/// What an error is, with its text taken as a sequence of characters.
pub enum WalletErrorView {
    NotFound,
    Overflow,
    MalformedInput(Seq<char>),
    LedgerFailure(Seq<char>),
    PersistenceFailure,
    InvalidServiceIdentity,
    ShortDigest,
}

impl View for WalletError {
    type V = WalletErrorView;

    open spec fn view(&self) -> WalletErrorView {
        match *self {
            WalletError::NotFound => WalletErrorView::NotFound,
            WalletError::Overflow => WalletErrorView::Overflow,
            WalletError::MalformedInput(s) => WalletErrorView::MalformedInput(s@),
            WalletError::LedgerFailure(s) => WalletErrorView::LedgerFailure(s@),
            WalletError::PersistenceFailure => WalletErrorView::PersistenceFailure,
            WalletError::InvalidServiceIdentity => WalletErrorView::InvalidServiceIdentity,
            WalletError::ShortDigest => WalletErrorView::ShortDigest,
        }
    }
}

impl WalletError {
    /// A short description of the error for the caller.
    pub fn message(&self) -> (text: String)
        ensures
            text@ == match self@ {
                WalletErrorView::NotFound => "wallet not found"@,
                WalletErrorView::Overflow => "balance overflow"@,
                WalletErrorView::MalformedInput(s) => s,
                WalletErrorView::LedgerFailure(s) => s,
                WalletErrorView::PersistenceFailure => "persisted state is not a valid store"@,
                WalletErrorView::InvalidServiceIdentity => "invalid service identity"@,
                WalletErrorView::ShortDigest => "digest shorter than a subaccount"@,
            },
    {
        match self {
            WalletError::NotFound => String::from_str("wallet not found"),
            WalletError::Overflow => String::from_str("balance overflow"),
            WalletError::MalformedInput(s) => s.clone(),
            WalletError::LedgerFailure(s) => s.clone(),
            WalletError::PersistenceFailure => String::from_str(
                "persisted state is not a valid store",
            ),
            WalletError::InvalidServiceIdentity => String::from_str("invalid service identity"),
            WalletError::ShortDigest => String::from_str("digest shorter than a subaccount"),
        }
    }
}

} // verus!
