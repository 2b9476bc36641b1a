use wallet::error::WalletError;
use wallet::identifier::{
    generate_account_identifier, generate_sub_account, subaccount_from_digest,
    MAX_IDENTITY_LENGTH, SUBACCOUNT_LENGTH,
};

const SERVICE: [u8; 10] = [128, 0, 0, 0, 0, 16, 0, 2, 1, 1];

const ALICE_SUBACCOUNT: [u8; 32] = [
    154, 245, 76, 38, 66, 158, 59, 33, 85, 122, 23, 119, 110, 252, 241, 170, 55, 45, 129, 6, 47,
    101, 8, 202, 249, 153, 210, 26, 245, 173, 156, 199,
];

const EMPTY_DIGEST: [u8; 32] = [
    227, 176, 196, 66, 152, 252, 28, 20, 154, 251, 244, 200, 153, 111, 185, 36, 39, 174, 65, 228,
    100, 155, 147, 76, 164, 149, 153, 27, 120, 82, 184, 85,
];

#[test]
fn subaccount_is_the_hash_of_service_then_owner() {
    assert_eq!(generate_sub_account("alice".to_string(), &SERVICE), Ok(ALICE_SUBACCOUNT));
    assert_eq!(generate_sub_account(String::new(), &[]), Ok(EMPTY_DIGEST));
    assert_eq!(
        generate_sub_account("alice".to_string(), &[1, 2]).unwrap(),
        [
            109, 238, 130, 119, 253, 18, 8, 137, 74, 254, 249, 170, 33, 7, 226, 4, 19, 205, 243,
            245, 140, 212, 131, 55, 15, 96, 103, 194, 35, 169, 227, 183
        ]
    );
}

#[test]
fn subaccount_depends_on_where_the_service_ends() {
    let a = generate_sub_account("bc".to_string(), &[97]).unwrap();
    let b = generate_sub_account("c".to_string(), &[97, 98]).unwrap();
    assert_eq!(a, b);
    let c = generate_sub_account("a".to_string(), &[98, 99]).unwrap();
    assert_ne!(a, c);
}

#[test]
fn account_identifier_is_the_ledgers_text_for_service_and_subaccount() {
    assert_eq!(
        generate_account_identifier("alice".to_string(), &SERVICE).unwrap(),
        "11aef89fc41fbcc7632b10831973e669807eab5566c4b44a76cce623fc8b7c41"
    );
    assert_eq!(
        generate_account_identifier("bob".to_string(), &SERVICE).unwrap(),
        "d3ebeeaca756698a4a1d3cd621c60af10f30c015c55fc36a4172866238699f86"
    );
    assert_eq!(
        generate_account_identifier(String::new(), &SERVICE).unwrap(),
        "17f53f1bb59aced2df6446d9769c290f1e06b70b8d1b1e3e9fce573ad278370f"
    );
    assert_eq!(
        generate_account_identifier("alice".to_string(), &[1, 2]).unwrap(),
        "155cd5809644cc41b9e7b690b068dba1e168bbc90f5ce0a06578d2274a715472"
    );
}

#[test]
fn derivation_is_deterministic() {
    let first = generate_account_identifier("alice".to_string(), &SERVICE);
    let second = generate_account_identifier("alice".to_string(), &SERVICE);
    assert_eq!(first, second);
    assert_eq!(
        generate_sub_account("alice".to_string(), &SERVICE),
        generate_sub_account("alice".to_string(), &SERVICE)
    );
    assert_ne!(first, generate_account_identifier("bob".to_string(), &SERVICE));
}

#[test]
fn service_identity_of_more_than_29_bytes_is_refused() {
    assert_eq!(MAX_IDENTITY_LENGTH, 29);
    let longest = [7u8; 29];
    assert!(generate_account_identifier("alice".to_string(), &longest).is_ok());
    let too_long = [7u8; 30];
    assert_eq!(
        generate_account_identifier("alice".to_string(), &too_long),
        Err(WalletError::InvalidServiceIdentity)
    );
}

#[test]
fn short_digest_gives_no_subaccount() {
    assert_eq!(SUBACCOUNT_LENGTH, 32);
    assert_eq!(subaccount_from_digest(&[]), Err(WalletError::ShortDigest));
    assert_eq!(subaccount_from_digest(&[9u8; 31]), Err(WalletError::ShortDigest));
    assert_eq!(subaccount_from_digest(&[9u8; 32]), Ok([9u8; 32]));
}

#[test]
fn long_digest_gives_its_first_32_bytes() {
    let mut digest = Vec::new();
    for i in 0..40u8 {
        digest.push(i);
    }
    let mut expected = [0u8; 32];
    for i in 0..32u8 {
        expected[usize::from(i)] = i;
    }
    assert_eq!(subaccount_from_digest(&digest), Ok(expected));
}
