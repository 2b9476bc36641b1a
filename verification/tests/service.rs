use wallet::env::{
    millis_from_nanos, CanisterEnvironment, EmptyEnvironment, Environment, TestEnvironment,
    NANOS_PER_MILLI,
};
use wallet::error::WalletError;
use wallet::service::{
    create_wallet_impl, derive_service_address, fund_wallet_impl, get_balance_impl,
    get_wallet_impl, RuntimeState, SERVICE_PRINCIPAL,
};
use wallet::store::Data;
use wallet::wallet::{FUNDING_NARRATION, FUNDING_SOURCE, INITIAL_BALANCE};

const ALICE_ADDRESS: &str = "11aef89fc41fbcc7632b10831973e669807eab5566c4b44a76cce623fc8b7c41";
const ABCD_ADDRESS: &str = "6adea69eca98025d6b6443bada72b3499ff48e3d14af9838407a181d410f8231";

fn state_at(now: u64) -> RuntimeState<TestEnvironment> {
    RuntimeState { env: TestEnvironment { now }, data: Data::default() }
}

#[test]
fn create_then_get() {
    let mut runtime_state = RuntimeState { env: TestEnvironment { now: 1 }, data: Data::default() };

    let user_id = "abcd".to_string();

    let wallet = create_wallet_impl(user_id.clone(), &mut runtime_state).unwrap();

    assert_eq!(wallet.balance, 1);
    assert_eq!(wallet.user_id, user_id.clone());

    println!("Wallet: {:?}", wallet.clone());

    let results = get_wallet_impl(user_id.clone(), &runtime_state);

    assert_eq!(results.len(), 1);

    let result = results.first().unwrap();

    assert_eq!(result.user_id, user_id.clone());
}

#[test]
fn new_wallet_has_seed_balance_empty_log_and_one_clock_reading() {
    let mut state = state_at(42);
    let wallet = create_wallet_impl("abcd".to_string(), &mut state).unwrap();
    assert_eq!(wallet.balance, INITIAL_BALANCE);
    assert_eq!(INITIAL_BALANCE, 1);
    assert!(wallet.transaction.is_empty());
    assert_eq!(wallet.created_at, 42);
    assert_eq!(wallet.updated_at, 42);
    assert_eq!(wallet.address, ABCD_ADDRESS);
    assert_eq!(state.data.wallets().len(), 1);
    assert_eq!(state.data.wallets()[0], wallet);
}

#[test]
fn service_principal_is_the_fixed_text() {
    assert_eq!(SERVICE_PRINCIPAL, "bd3sg-teaaa-aaaaa-qaaba-cai");
    assert_eq!(derive_service_address("alice".to_string()).unwrap(), ALICE_ADDRESS);
    assert_eq!(derive_service_address("abcd".to_string()).unwrap(), ABCD_ADDRESS);
}

#[test]
fn create_twice_gives_the_same_wallet() {
    let mut state = state_at(7);
    let first = create_wallet_impl("alice".to_string(), &mut state).unwrap();
    state.env = TestEnvironment::new(900);
    let second = create_wallet_impl("alice".to_string(), &mut state).unwrap();
    assert_eq!(first, second);
    assert_eq!(second.address, ALICE_ADDRESS);
    assert_eq!(second.balance, 1);
    assert_eq!(second.created_at, 7);
    assert_eq!(state.data.wallets().len(), 1);
}

#[test]
fn create_after_funding_returns_the_funded_wallet() {
    let mut state = state_at(7);
    create_wallet_impl("alice".to_string(), &mut state).unwrap();
    fund_wallet_impl("alice".to_string(), 10, &mut state).unwrap();
    let again = create_wallet_impl("alice".to_string(), &mut state).unwrap();
    assert_eq!(again.balance, 11);
    assert_eq!(again.transaction.len(), 1);
    assert_eq!(state.data.wallets().len(), 1);
}

#[test]
fn wallets_of_different_owners_are_kept_apart() {
    let mut state = state_at(3);
    let alice = create_wallet_impl("alice".to_string(), &mut state).unwrap();
    let abcd = create_wallet_impl("abcd".to_string(), &mut state).unwrap();
    assert_ne!(alice.address, abcd.address);
    assert_eq!(state.data.wallets().len(), 2);
    fund_wallet_impl("abcd".to_string(), 5, &mut state).unwrap();
    assert_eq!(get_balance_impl("alice".to_string(), &state), Ok(1));
    assert_eq!(get_balance_impl("abcd".to_string(), &state), Ok(6));
    assert_eq!(state.data.wallets()[0].user_id, "alice");
    assert_eq!(state.data.wallets()[1].user_id, "abcd");
}

#[test]
fn alice_is_created_and_funded_and_bob_is_not_found() {
    let mut state = state_at(100);
    let wallet = create_wallet_impl("alice".to_string(), &mut state).unwrap();
    assert_eq!(wallet.balance, INITIAL_BALANCE);

    let (balance, entry) = fund_wallet_impl("alice".to_string(), 500, &mut state).unwrap();
    assert_eq!(balance, INITIAL_BALANCE + 500);
    assert_eq!(entry.amount, 500);

    let found = get_wallet_impl("alice".to_string(), &state);
    assert_eq!(found.len(), 1);
    assert_eq!(found[0].balance, INITIAL_BALANCE + 500);
    assert_eq!(found[0].transaction.len(), 1);
    assert_eq!(found[0].transaction[0].amount, 500);
    assert_eq!(found[0].transaction[0], entry);
    assert_eq!(get_balance_impl("alice".to_string(), &state), Ok(501));

    assert_eq!(get_balance_impl("bob".to_string(), &state), Err(WalletError::NotFound));
    assert!(get_wallet_impl("bob".to_string(), &state).is_empty());
    assert_eq!(state.data.balance_of(&"bob".to_string()), 0);
    assert!(state.data.get(&"bob".to_string()).is_none());
}

#[test]
fn funding_records_the_source_the_owner_and_the_time() {
    let mut state = state_at(100);
    create_wallet_impl("alice".to_string(), &mut state).unwrap();
    state.env = TestEnvironment::new(250);
    let (balance, entry) = fund_wallet_impl("alice".to_string(), 9, &mut state).unwrap();
    assert_eq!(balance, 10);
    assert_eq!(entry.from, "funding");
    assert_eq!(entry.from, FUNDING_SOURCE);
    assert_eq!(entry.to, "alice");
    assert_eq!(entry.amount, 9);
    assert_eq!(entry.narration, "Wallet has been funded");
    assert_eq!(entry.narration, FUNDING_NARRATION);
    assert_eq!(entry.created_at, 250);
    let wallet = state.data.get(&"alice".to_string()).unwrap();
    assert_eq!(wallet.created_at, 100);
    assert_eq!(wallet.updated_at, 250);
    assert_eq!(wallet.address, ALICE_ADDRESS);
}

#[test]
fn funding_twice_appends_in_order() {
    let mut state = state_at(1);
    create_wallet_impl("alice".to_string(), &mut state).unwrap();
    fund_wallet_impl("alice".to_string(), 2, &mut state).unwrap();
    let (balance, _) = fund_wallet_impl("alice".to_string(), 3, &mut state).unwrap();
    assert_eq!(balance, 6);
    let wallet = state.data.get(&"alice".to_string()).unwrap();
    assert_eq!(wallet.transaction.len(), 2);
    assert_eq!(wallet.transaction[0].amount, 2);
    assert_eq!(wallet.transaction[1].amount, 3);
}

#[test]
fn funding_without_a_wallet_is_not_found_and_changes_nothing() {
    let mut state = state_at(1);
    create_wallet_impl("alice".to_string(), &mut state).unwrap();
    let before = state.data.wallets().clone();
    let outcome = fund_wallet_impl("bob".to_string(), 500, &mut state);
    assert_eq!(outcome, Err(WalletError::NotFound));
    assert_eq!(state.data.wallets(), &before);
    assert!(get_wallet_impl("bob".to_string(), &state).is_empty());
}

#[test]
fn funding_an_empty_store_is_not_found() {
    let mut state = state_at(1);
    assert_eq!(fund_wallet_impl("alice".to_string(), 0, &mut state), Err(WalletError::NotFound));
    assert!(state.data.wallets().is_empty());
}

#[test]
fn funding_past_64_bits_is_refused_and_changes_nothing() {
    let mut state = state_at(1);
    create_wallet_impl("alice".to_string(), &mut state).unwrap();
    let before = state.data.wallets().clone();
    assert_eq!(
        fund_wallet_impl("alice".to_string(), u64::MAX, &mut state),
        Err(WalletError::Overflow)
    );
    assert_eq!(state.data.wallets(), &before);
    let (balance, _) = fund_wallet_impl("alice".to_string(), u64::MAX - 1, &mut state).unwrap();
    assert_eq!(balance, u64::MAX);
    assert_eq!(fund_wallet_impl("alice".to_string(), 1, &mut state), Err(WalletError::Overflow));
    let (balance, _) = fund_wallet_impl("alice".to_string(), 0, &mut state).unwrap();
    assert_eq!(balance, u64::MAX);
}

#[test]
fn last_update_never_moves_back() {
    let mut data = Data::default();
    data.create("alice".to_string(), "address".to_string(), 10);
    let (_, entry) = data.fund(&"alice".to_string(), 1, 5).unwrap();
    assert_eq!(entry.created_at, 10);
    assert_eq!(data.wallets()[0].updated_at, 10);
    let (_, entry) = data.fund(&"alice".to_string(), 1, 20).unwrap();
    assert_eq!(entry.created_at, 20);
    assert_eq!(data.wallets()[0].updated_at, 20);
    assert_eq!(data.wallets()[0].created_at, 10);
}

#[test]
fn store_create_keeps_the_first_address() {
    let mut data = Data::default();
    let first = data.create("alice".to_string(), "one".to_string(), 1);
    let second = data.create("alice".to_string(), "two".to_string(), 2);
    assert_eq!(first, second);
    assert_eq!(second.address, "one");
    assert_eq!(data.wallets().len(), 1);
    assert_eq!(data.find(&"alice".to_string()), Some(0));
    assert_eq!(data.find(&"bob".to_string()), None);
    assert_eq!(data.balance_of(&"alice".to_string()), 1);
}

#[test]
fn default_state_is_empty_with_a_clock_at_zero() {
    let mut state: RuntimeState<EmptyEnvironment> = RuntimeState::default();
    assert!(state.data.wallets().is_empty());
    assert_eq!(state.env.now(), 0);
    let wallet = create_wallet_impl("alice".to_string(), &mut state).unwrap();
    assert_eq!(wallet.created_at, 0);
    let fresh = RuntimeState::new(TestEnvironment::new(5));
    assert!(fresh.data.wallets().is_empty());
    assert_eq!(fresh.env.now(), 5);
    assert_eq!(EmptyEnvironment::new().now(), 0);
}

#[test]
fn errors_have_messages() {
    assert_eq!(WalletError::NotFound.message(), "wallet not found");
    assert_eq!(WalletError::Overflow.message(), "balance overflow");
    assert_eq!(WalletError::MalformedInput("bad".to_string()).message(), "bad");
    assert_eq!(WalletError::LedgerFailure("down".to_string()).message(), "down");
    assert_eq!(
        WalletError::PersistenceFailure.message(),
        "persisted state is not a valid store"
    );
    assert_eq!(WalletError::InvalidServiceIdentity.message(), "invalid service identity");
    assert_eq!(WalletError::ShortDigest.message(), "digest shorter than a subaccount");
}

#[test]
fn host_time_is_counted_in_whole_milliseconds() {
    assert_eq!(NANOS_PER_MILLI, 1_000_000);
    assert_eq!(millis_from_nanos(0), 0);
    assert_eq!(millis_from_nanos(999_999), 0);
    assert_eq!(millis_from_nanos(1_000_000), 1);
    assert_eq!(millis_from_nanos(1_700_000_000_123_456_789), 1_700_000_000_123);
    assert_eq!(millis_from_nanos(u64::MAX), 18_446_744_073_709);
    let _ = CanisterEnvironment::new();
}
