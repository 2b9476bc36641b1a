//! Deterministic deposit addresses: a subaccount hashed from the service's
//! identity and the owner's, and the ledger's account identifier for it.

use crate::error::WalletError;
use sha2::Digest;
use vstd::prelude::*;
use vstd::utf8::encode_utf8;

verus! {

/// The number of bytes of a subaccount.
pub const SUBACCOUNT_LENGTH: usize = 32;

/// The largest number of bytes that an identity on the ledger's network has.
pub const MAX_IDENTITY_LENGTH: usize = 29;

/// The number of bytes of a SHA-256 digest.
pub const SHA256_LENGTH: usize = 32;

/// The SHA-256 digest of a byte string.
pub uninterp spec fn sha256_digest(data: Seq<u8>) -> Seq<u8>;

/// The bytes of the identity that a textual principal stands for, where the
/// text is a valid one.
pub uninterp spec fn principal_text_bytes(text: Seq<char>) -> Option<Seq<u8>>;

/// The ledger's account identifier, in its textual form, for an owning
/// identity and a subaccount.
pub uninterp spec fn account_identifier_text(owner: Seq<u8>, subaccount: Seq<u8>) -> Seq<char>;

/// Hashes `data` with `sha2::Sha256::digest`. Trusted: the bytes returned are
/// the SHA-256 digest of `data`, and there are 32 of them, the output size
/// that the crate gives the hasher's type.
#[verifier::external_body]
fn sha256(data: &[u8]) -> (digest: Vec<u8>)
    ensures
        digest@ == sha256_digest(data@),
        digest@.len() == SHA256_LENGTH,
{
    sha2::Sha256::digest(data).to_vec()
}

/// Parses a textual principal with `ic_principal::Principal::from_text` and
/// hands out its bytes. Trusted: the outcome depends on the text alone, and an
/// identity that parses has at most 29 bytes.
#[verifier::external_body]
pub(crate) fn principal_from_text(text: &str) -> (bytes: Option<Vec<u8>>)
    ensures
        match bytes {
            Some(b) => principal_text_bytes(text@) == Some(b@) && b@.len() <= MAX_IDENTITY_LENGTH,
            None => principal_text_bytes(text@).is_none(),
        },
{
    match ic_principal::Principal::from_text(text) {
        Ok(principal) => Some(principal.as_slice().to_vec()),
        Err(_) => None,
    }
}

/// Computes `ic_ledger_types::AccountIdentifier::new` for the identity with
/// the bytes `owner` and the given subaccount, and prints it as text.
/// Trusted: the text depends on the two byte strings alone. The identity must
/// have at most 29 bytes, beyond which `Principal::from_slice` panics.
#[verifier::external_body]
fn account_identifier(owner: &[u8], subaccount: &[u8; 32]) -> (text: String)
    requires
        owner@.len() <= MAX_IDENTITY_LENGTH,
    ensures
        text@ == account_identifier_text(owner@, subaccount@),
{
    let principal = ic_principal::Principal::from_slice(owner);
    let subaccount = ic_ledger_types::Subaccount(*subaccount);
    ic_ledger_types::AccountIdentifier::new(&principal, &subaccount).to_string()
}

/// The bytes that are hashed for an owner's subaccount: the service's
/// identity, then the owner's identity as UTF-8.
pub open spec fn subaccount_preimage(owner: Seq<char>, service: Seq<u8>) -> Seq<u8> {
    service + encode_utf8(owner)
}

/// The subaccount that a digest gives: its first 32 bytes, where it has them.
pub open spec fn digest_subaccount(digest: Seq<u8>) -> Option<Seq<u8>> {
    if digest.len() >= SUBACCOUNT_LENGTH {
        Some(digest.subrange(0, SUBACCOUNT_LENGTH as int))
    } else {
        None
    }
}

/// The subaccount of an owner under a service.
pub open spec fn derived_subaccount(owner: Seq<char>, service: Seq<u8>) -> Option<Seq<u8>> {
    digest_subaccount(sha256_digest(subaccount_preimage(owner, service)))
}

/// The address of an owner under a service, or the reason why there is none.
pub open spec fn derived_address(owner: Seq<char>, service: Seq<u8>) -> Result<
    Seq<char>,
    WalletError,
> {
    if service.len() > MAX_IDENTITY_LENGTH {
        Err(WalletError::InvalidServiceIdentity)
    } else {
        match derived_subaccount(owner, service) {
            Some(subaccount) => Ok(account_identifier_text(service, subaccount)),
            None => Err(WalletError::ShortDigest),
        }
    }
}

/// Derivation is deterministic: the same owner under the same service has
/// the same subaccount and the same address, byte for byte.
pub proof fn lemma_derivation_deterministic(
    owner: Seq<char>,
    service: Seq<u8>,
    same_owner: Seq<char>,
    same_service: Seq<u8>,
)
    requires
        owner == same_owner,
        service == same_service,
    ensures
        derived_subaccount(owner, service) == derived_subaccount(same_owner, same_service),
        derived_address(owner, service) == derived_address(same_owner, same_service),
{
}

/// Takes the first 32 bytes of a digest as a subaccount. A digest with fewer
/// bytes is refused, never padded.
pub fn subaccount_from_digest(digest: &[u8]) -> (subaccount: Result<[u8; 32], WalletError>)
    ensures
        match subaccount {
            Ok(bytes) => digest_subaccount(digest@) == Some(bytes@),
            Err(e) => e == WalletError::ShortDigest && digest_subaccount(digest@).is_none(),
        },
{
    if digest.len() < SUBACCOUNT_LENGTH {
        return Err(WalletError::ShortDigest);
    }
    let mut bytes = [0u8; 32];
    let mut i: usize = 0;
    while i < SUBACCOUNT_LENGTH
        invariant
            i <= SUBACCOUNT_LENGTH <= digest@.len(),
            forall|k: int| 0 <= k < i ==> bytes@[k] == digest@[k],
        decreases SUBACCOUNT_LENGTH - i,
    {
        bytes[i] = digest[i];
        i += 1;
    }
    assert(bytes@ =~= digest@.subrange(0, SUBACCOUNT_LENGTH as int));
    Ok(bytes)
}

/// Derives the subaccount of `user_id` under the service `canister_id`: the
/// first 32 bytes of the SHA-256 digest of the service's bytes followed by
/// the owner's. A shorter digest would be refused, not padded; the hash gives
/// 32 bytes, so the derivation succeeds.
pub fn generate_sub_account(user_id: String, canister_id: &[u8]) -> (subaccount: Result<
    [u8; 32],
    WalletError,
>)
    ensures
        subaccount is Ok,
        derived_subaccount(user_id@, canister_id@) == Some(subaccount->Ok_0@),
        subaccount->Ok_0@ == sha256_digest(subaccount_preimage(user_id@, canister_id@)),
{
    let mut preimage: Vec<u8> = Vec::new();
    preimage.extend_from_slice(canister_id);
    preimage.extend_from_slice(user_id.as_str().as_bytes());
    assert(preimage@ =~= subaccount_preimage(user_id@, canister_id@));
    let digest = sha256(preimage.as_slice());
    assert(digest@.subrange(0, SUBACCOUNT_LENGTH as int) =~= digest@);
    subaccount_from_digest(digest.as_slice())
}

/// Derives the address of `user_id` under the service `canister_id`: the
/// ledger's account identifier for the service and the owner's subaccount.
/// The same two inputs always give the same outcome. Only a service identity
/// of more than 29 bytes is refused.
pub fn generate_account_identifier(user_id: String, canister_id: &[u8]) -> (address: Result<
    String,
    WalletError,
>)
    ensures
        address is Ok <==> canister_id@.len() <= MAX_IDENTITY_LENGTH,
        match address {
            Ok(text) => derived_address(user_id@, canister_id@) == Ok::<Seq<char>, WalletError>(
                text@,
            ),
            Err(e) => e == WalletError::InvalidServiceIdentity && derived_address(
                user_id@,
                canister_id@,
            ) == Err::<Seq<char>, WalletError>(e),
        },
{
    if canister_id.len() > MAX_IDENTITY_LENGTH {
        return Err(WalletError::InvalidServiceIdentity);
    }
    match generate_sub_account(user_id, canister_id) {
        Ok(subaccount) => Ok(account_identifier(canister_id, &subaccount)),
        Err(e) => Err(e),
    }
}

} // verus!
