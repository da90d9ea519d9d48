// Tests of the keyed store and the three entry operations.

use thealtcoin::errors::ErrorCode;
use thealtcoin::errors::OpError;
use thealtcoin::store::InitTokenParams;
use thealtcoin::store::TOTAL_SUPPLY;
use thealtcoin::store::TokenStore;

const ID_A: [u8; 32] = [1u8; 32];
const ID_B: [u8; 32] = [2u8; 32];

fn params() -> InitTokenParams {
    InitTokenParams {
        name: String::from("The Altcoin"),
        symbol: String::from("ALT"),
        uri: String::from("ipfs://altcoin-metadata"),
        decimals: 9,
    }
}

#[test]
fn initialize_creates_the_state_and_the_registration() {
    let mut store = TokenStore::new();
    let reg = store.initialize_token(ID_A, params()).unwrap();
    assert_eq!(reg.token_identity, ID_A);
    assert_eq!(reg.update_authority, ID_A);
    assert_eq!(reg.name, "The Altcoin");
    assert_eq!(reg.symbol, "ALT");
    assert_eq!(reg.uri, "ipfs://altcoin-metadata");
    assert_eq!(reg.decimals, 9);
    let st = store.query(&ID_A).unwrap();
    assert_eq!(st.total_supply, TOTAL_SUPPLY);
    assert_eq!(st.burn_limit, 64_999_999_999_999);
    assert_eq!(st.minted_amount, 0);
    assert_eq!(st.burned_amount, 0);
}

#[test]
fn initialize_runs_exactly_once_per_identity() {
    let mut store = TokenStore::new();
    store.initialize_token(ID_A, params()).unwrap();
    let before = store.query(&ID_A).unwrap();
    assert_eq!(
        store.initialize_token(ID_A, params()).unwrap_err(),
        OpError::AlreadyInitialized
    );
    assert_eq!(store.query(&ID_A).unwrap(), before);
}

#[test]
fn mint_and_transfer_need_an_initialized_token() {
    let mut store = TokenStore::new();
    assert_eq!(store.mint_tokens(&ID_A, 5).unwrap_err(), OpError::UnknownToken);
    assert_eq!(store.transfer(&ID_A, 5).unwrap_err(), OpError::UnknownToken);
    assert!(store.query(&ID_A).is_none());
}

#[test]
fn querying_changes_nothing() {
    let mut store = TokenStore::new();
    store.initialize_token(ID_A, params()).unwrap();
    store.mint_tokens(&ID_A, 10_000).unwrap();
    store.transfer(&ID_A, 1_000).unwrap();
    let first = store.query(&ID_A).unwrap();
    let second = store.query(&ID_A).unwrap();
    assert_eq!(first, second);
    assert_eq!(first.minted_amount, 10_000);
    assert_eq!(first.burned_amount, 20);
}

#[test]
fn operations_on_one_token_leave_the_other_alone() {
    let mut store = TokenStore::new();
    store.initialize_token(ID_A, params()).unwrap();
    store.initialize_token(ID_B, params()).unwrap();
    store.mint_tokens(&ID_A, 123).unwrap();
    store.transfer(&ID_A, 1_000).unwrap();
    let b = store.query(&ID_B).unwrap();
    assert_eq!(b.minted_amount, 0);
    assert_eq!(b.burned_amount, 0);
    let a = store.query(&ID_A).unwrap();
    assert_eq!(a.minted_amount, 123);
    assert_eq!(a.burned_amount, 20);
}

#[test]
fn mint_returns_the_cumulative_minted_amount() {
    let mut store = TokenStore::new();
    store.initialize_token(ID_A, params()).unwrap();
    assert_eq!(store.mint_tokens(&ID_A, 600).unwrap(), 600);
    assert_eq!(store.mint_tokens(&ID_A, 400).unwrap(), 1_000);
}

#[test]
fn mint_past_the_family_supply_cap_is_refused() {
    let mut store = TokenStore::new();
    store.initialize_token(ID_A, params()).unwrap();
    assert_eq!(
        store.mint_tokens(&ID_A, TOTAL_SUPPLY + 1).unwrap_err(),
        OpError::Engine(ErrorCode::ExceedsSupply)
    );
    assert_eq!(store.query(&ID_A).unwrap().minted_amount, 0);
    assert_eq!(store.mint_tokens(&ID_A, TOTAL_SUPPLY).unwrap(), TOTAL_SUPPLY);
    assert_eq!(
        store.mint_tokens(&ID_A, 1).unwrap_err(),
        OpError::Engine(ErrorCode::ExceedsSupply)
    );
}

#[test]
fn transfer_returns_the_ledger_plan() {
    let mut store = TokenStore::new();
    store.initialize_token(ID_A, params()).unwrap();
    let plan = store.transfer(&ID_A, 1_000).unwrap();
    assert!(plan.burn_performed);
    assert_eq!(plan.burn_amount, 20);
    assert_eq!(plan.net_amount, 980);
    assert_eq!(store.query(&ID_A).unwrap().burned_amount, 20);
}
