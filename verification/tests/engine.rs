// Tests of the burn-state accounting engine on concrete values.

use thealtcoin::errors::ErrorCode;
use thealtcoin::state::BurnState;

const ID: [u8; 32] = [7u8; 32];

#[test]
fn create_fixes_the_ceiling_at_65_percent() {
    let st = BurnState::create(100_000, ID);
    assert_eq!(st.total_supply, 100_000);
    assert_eq!(st.minted_amount, 0);
    assert_eq!(st.burned_amount, 0);
    assert_eq!(st.burn_limit, 65_000);
    assert_eq!(st.token_identity, ID);
}

#[test]
fn create_family_supply_ceiling_is_floored() {
    // 65% of 99,999,999,999,999 is 64,999,999,999,999.35, truncated.
    let st = BurnState::create(99_999_999_999_999, ID);
    assert_eq!(st.burn_limit, 64_999_999_999_999);
}

#[test]
fn mints_accumulate_to_their_sum() {
    let mut st = BurnState::create(100_000, ID);
    assert_eq!(st.record_mint(600), Ok(600));
    assert_eq!(st.record_mint(400), Ok(1_000));
    assert_eq!(st.record_mint(0), Ok(1_000));
    assert_eq!(st.record_mint(99_000), Ok(100_000));
    assert_eq!(st.minted_amount, 600 + 400 + 0 + 99_000);
}

#[test]
fn mint_past_the_cap_fails_and_changes_nothing() {
    let mut st = BurnState::create(100_000, ID);
    assert_eq!(st.record_mint(99_000), Ok(99_000));
    // One unit more than the remainder: refused, counter untouched.
    assert_eq!(st.record_mint(1_001), Err(ErrorCode::ExceedsSupply));
    assert_eq!(st.minted_amount, 99_000);
    // Exactly the remainder: accepted, counter reaches the cap.
    assert_eq!(st.record_mint(1_000), Ok(100_000));
    assert_eq!(st.minted_amount, 100_000);
    assert_eq!(st.record_mint(1), Err(ErrorCode::ExceedsSupply));
    assert_eq!(st.minted_amount, 100_000);
}

#[test]
fn mint_overflowing_the_checked_addition_is_numerical_overflow() {
    let mut st = BurnState::create(u64::MAX, ID);
    assert_eq!(st.record_mint(u64::MAX), Ok(u64::MAX));
    assert_eq!(st.record_mint(1), Err(ErrorCode::NumericalOverflow));
    assert_eq!(st.minted_amount, u64::MAX);
}

#[test]
fn error_messages_match_their_kinds() {
    assert_eq!(
        ErrorCode::AmountTooSmall.message(),
        "Amount too small for burn calculation"
    );
    assert_eq!(ErrorCode::NumericalOverflow.message(), "Numerical overflow");
    assert_eq!(ErrorCode::ExceedsSupply.message(), "Exceeds maximum supply");
}

#[test]
fn transfer_burns_two_percent_and_moves_the_rest() {
    let mut st = BurnState::create(100_000, ID);
    let plan = st.compute_and_record_burn(1_000).unwrap();
    assert!(plan.burn_performed);
    assert_eq!(plan.burn_amount, 20);
    assert_eq!(plan.net_amount, 980);
    assert_eq!(st.burned_amount, 20);
}

#[test]
fn burn_portion_is_truncated_toward_zero() {
    let mut st = BurnState::create(100_000, ID);
    // 2% of 149 is 2.98: truncated to 2.
    let plan = st.compute_and_record_burn(149).unwrap();
    assert_eq!(plan.burn_amount, 2);
    assert_eq!(plan.net_amount, 147);
    // 2% of 49 is 0.98: truncated to 0, yet still recorded as a burn of 0.
    let plan = st.compute_and_record_burn(49).unwrap();
    assert!(plan.burn_performed);
    assert_eq!(plan.burn_amount, 0);
    assert_eq!(plan.net_amount, 49);
    assert_eq!(st.burned_amount, 2);
}

#[test]
fn transfer_of_zero_burns_zero_and_moves_zero() {
    let mut st = BurnState::create(100_000, ID);
    let plan = st.compute_and_record_burn(0).unwrap();
    assert_eq!(plan.burn_amount, 0);
    assert_eq!(plan.net_amount, 0);
    assert_eq!(st.burned_amount, 0);
}

#[test]
fn repeated_transfers_reach_the_ceiling_then_burning_stops() {
    let mut st = BurnState::create(100_000, ID);
    // 3,250 transfers of 1,000 burn 20 each: cumulative burns reach 65,000.
    let mut k: u32 = 0;
    while k < 3_250 {
        let plan = st.compute_and_record_burn(1_000).unwrap();
        assert!(plan.burn_performed);
        assert_eq!(plan.burn_amount, 20);
        assert_eq!(plan.net_amount, 980);
        k += 1;
    }
    assert_eq!(st.burned_amount, 65_000);
    assert_eq!(st.burn_limit, 65_000);
    // The ceiling is reached: the next transfer moves the full amount.
    let plan = st.compute_and_record_burn(1_000).unwrap();
    assert!(!plan.burn_performed);
    assert_eq!(plan.burn_amount, 0);
    assert_eq!(plan.net_amount, 1_000);
    assert_eq!(st.burned_amount, 65_000);
    // Whatever the amount, nothing is burned any more.
    let plan = st.compute_and_record_burn(u64::MAX).unwrap();
    assert!(!plan.burn_performed);
    assert_eq!(plan.burn_amount, 0);
    assert_eq!(plan.net_amount, u64::MAX);
    assert_eq!(st.burned_amount, 65_000);
}

#[test]
fn the_last_burn_may_overshoot_the_ceiling() {
    let mut st = BurnState::create(100_000, ID);
    let mut k: u32 = 0;
    while k < 3_249 {
        st.compute_and_record_burn(1_000).unwrap();
        k += 1;
    }
    assert_eq!(st.burned_amount, 64_980);
    // Still below the ceiling, so the burn is performed in full, even though
    // it carries the counter past the ceiling.
    let plan = st.compute_and_record_burn(100_000).unwrap();
    assert!(plan.burn_performed);
    assert_eq!(plan.burn_amount, 2_000);
    assert_eq!(st.burned_amount, 66_980);
    // From then on burning has stopped.
    let plan = st.compute_and_record_burn(1_000).unwrap();
    assert!(!plan.burn_performed);
    assert_eq!(st.burned_amount, 66_980);
}
