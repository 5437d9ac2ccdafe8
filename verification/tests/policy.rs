use zyura::errors::ZyuraError;
use zyura::policy::required_premium;
use zyura::state::{PolicyPurchased, PolicyStatus, Product};
use zyura::store::Protocol;

const ADMIN: u64 = 1;
const ALICE: u64 = 10;
const LP: u64 = 12;
const MINT: u64 = 900;

/// An initialized protocol with one product (coverage 100000, rate 500 bps,
/// threshold 120 minutes), a funded customer, and a funded pool.
fn setup() -> Protocol {
    let mut s = Protocol::new();
    assert_eq!(s.initialize(ADMIN, 2, 3), Ok(()));
    assert_eq!(s.create_product(7, 120, 100_000, 500, 48), Ok(()));
    assert_eq!(s.credit_account(ALICE, 50_000), Ok(()));
    assert_eq!(s.credit_account(LP, 500_000), Ok(()));
    assert_eq!(s.deposit_liquidity(LP, 500_000), Ok(()));
    s
}

fn buy(s: &mut Protocol, policy_id: u64, premium: u64) -> Result<PolicyPurchased, ZyuraError> {
    s.purchase_policy(
        ALICE,
        policy_id,
        7,
        "NZ1".to_string(),
        1_700_000_000,
        premium,
        MINT + policy_id,
        false,
        String::new(),
        1_690_000_000,
    )
}

#[test]
fn premium_floor_exact_values() {
    assert_eq!(required_premium(100_000, 500), 5_000);
    assert_eq!(required_premium(0, 500), 0);
    assert_eq!(required_premium(100_000, 0), 0);
    assert_eq!(required_premium(99, 100), 0);
    assert_eq!(required_premium(100, 100), 1);
    assert_eq!(required_premium(u64::MAX, 10_000), u64::MAX);
}

#[test]
fn premium_below_floor_fails_at_floor_succeeds() {
    let mut s = setup();
    assert_eq!(buy(&mut s, 1, 4_999), Err(ZyuraError::InsufficientPremium));
    assert!(s.get_policy(1).is_none());
    let ev = buy(&mut s, 1, 5_000).unwrap();
    assert_eq!(ev, PolicyPurchased { policy_id: 1, policyholder: ALICE, nft_mint: MINT + 1 });
}

#[test]
fn purchase_creates_policy_and_frozen_token() {
    let mut s = setup();
    let pool_before = s.pool_balance;
    assert!(buy(&mut s, 1, 6_000).is_ok());

    let p = s.get_policy(1).unwrap();
    assert_eq!(p.id, 1);
    assert_eq!(p.policyholder, ALICE);
    assert_eq!(p.product_id, 7);
    assert_eq!(p.flight_number, "NZ1");
    assert_eq!(p.departure_time, 1_700_000_000);
    assert_eq!(p.premium_paid, 6_000);
    assert_eq!(p.coverage_amount, 100_000);
    assert_eq!(p.status, PolicyStatus::Active);
    assert_eq!(p.created_at, 1_690_000_000);
    assert_eq!(p.paid_at, None);

    let t = s.get_proof_token(MINT + 1).unwrap();
    assert_eq!(t.holder, ALICE);
    assert!(t.frozen);
    // the overpaid premium moved in full, with no refund of the excess
    assert_eq!(s.balance_of(ALICE), 44_000);
    assert_eq!(s.pool_balance, pool_before + 6_000);
    // no metadata was requested
    assert!(s.get_token_metadata(MINT + 1).is_none());
}

#[test]
fn purchase_with_metadata_registers_it() {
    let mut s = setup();
    let r = s.purchase_policy(
        ALICE,
        1,
        7,
        "NZ1".to_string(),
        1_700_000_000,
        5_000,
        MINT,
        true,
        "https://example.com/policy/1".to_string(),
        0,
    );
    assert!(r.is_ok());
    let m = s.get_token_metadata(MINT).unwrap();
    assert_eq!(m.name, "ZYURA Policy 1 NZ1");
    assert_eq!(m.symbol, "ZYURA");
    assert_eq!(m.uri, "https://example.com/policy/1");
    assert!(!m.is_mutable);
}

#[test]
fn purchase_duplicate_ids_fail() {
    let mut s = setup();
    assert!(buy(&mut s, 1, 5_000).is_ok());
    // the policy id is taken
    assert_eq!(buy(&mut s, 1, 5_000), Err(ZyuraError::RecordExists));
    // a fresh policy id but a reused token mint is just as fatal
    let r = s.purchase_policy(
        ALICE,
        2,
        7,
        "NZ2".to_string(),
        0,
        5_000,
        MINT + 1,
        false,
        String::new(),
        0,
    );
    assert_eq!(r, Err(ZyuraError::RecordExists));
    assert!(s.get_policy(2).is_none());
}

#[test]
fn purchase_unknown_product_fails() {
    let mut s = setup();
    let r = s.purchase_policy(
        ALICE,
        1,
        8,
        "NZ1".to_string(),
        0,
        5_000,
        MINT,
        false,
        String::new(),
        0,
    );
    assert_eq!(r, Err(ZyuraError::RecordNotFound));
}

#[test]
fn purchase_inactive_product_fails() {
    let mut s = setup();
    // a deactivated product can only be crafted directly: no operation
    // clears the flag
    s.products.insert(
        9,
        Product {
            id: 9,
            delay_threshold_minutes: 60,
            coverage_amount: 1_000,
            premium_rate_bps: 100,
            claim_window_hours: 24,
            active: false,
        },
    );
    let r = s.purchase_policy(
        ALICE,
        1,
        9,
        "NZ1".to_string(),
        0,
        5_000,
        MINT,
        false,
        String::new(),
        0,
    );
    assert_eq!(r, Err(ZyuraError::ProductInactive));
}

#[test]
fn failed_premium_transfer_creates_nothing() {
    let mut s = setup();
    // the premium floor passes but the caller cannot actually pay
    assert_eq!(buy(&mut s, 1, 50_001), Err(ZyuraError::InsufficientFunds));
    assert!(s.get_policy(1).is_none());
    assert!(s.get_proof_token(MINT + 1).is_none());
    assert_eq!(s.balance_of(ALICE), 50_000);
    assert_eq!(s.pool_balance, 500_000);
}

#[test]
fn payout_pays_once_and_only_once() {
    let mut s = setup();
    assert!(buy(&mut s, 1, 5_000).is_ok());
    let pool_before = s.pool_balance;
    let alice_before = s.balance_of(ALICE);

    assert_eq!(s.process_payout(ADMIN, 1, 300, 1_700_100_000), Ok(()));
    let p = s.get_policy(1).unwrap();
    assert_eq!(p.status, PolicyStatus::PaidOut);
    assert_eq!(p.paid_at, Some(1_700_100_000));
    assert_eq!(p.flight_number, "NZ1");
    assert_eq!(s.pool_balance, pool_before - 100_000);
    assert_eq!(s.balance_of(ALICE), alice_before + 100_000);

    // the second payout fails and transfers nothing
    assert_eq!(s.process_payout(ADMIN, 1, 300, 1_700_200_000), Err(ZyuraError::PolicyNotActive));
    assert_eq!(s.pool_balance, pool_before - 100_000);
    assert_eq!(s.balance_of(ALICE), alice_before + 100_000);
    assert_eq!(s.get_policy(1).unwrap().paid_at, Some(1_700_100_000));
}

#[test]
fn payout_threshold_boundary() {
    let mut s = setup();
    assert!(buy(&mut s, 1, 5_000).is_ok());
    // one minute short of the 120-minute threshold
    assert_eq!(s.process_payout(ADMIN, 1, 119, 0), Err(ZyuraError::DelayThresholdNotMet));
    assert_eq!(s.get_policy(1).unwrap().status, PolicyStatus::Active);
    // exactly at the threshold
    assert_eq!(s.process_payout(ADMIN, 1, 120, 0), Ok(()));
    assert_eq!(s.get_policy(1).unwrap().status, PolicyStatus::PaidOut);
}

#[test]
fn payout_is_admin_only() {
    let mut s = setup();
    assert!(buy(&mut s, 1, 5_000).is_ok());
    assert_eq!(s.process_payout(ALICE, 1, 300, 0), Err(ZyuraError::Unauthorized));
    assert_eq!(s.get_policy(1).unwrap().status, PolicyStatus::Active);
    assert_eq!(s.pool_balance, 505_000);
}

#[test]
fn payout_unknown_policy_fails() {
    let mut s = setup();
    assert_eq!(s.process_payout(ADMIN, 1, 300, 0), Err(ZyuraError::RecordNotFound));
}

#[test]
fn payout_with_dry_pool_fails() {
    let mut s = Protocol::new();
    assert_eq!(s.initialize(ADMIN, 2, 3), Ok(()));
    assert_eq!(s.create_product(7, 120, 100_000, 500, 48), Ok(()));
    assert_eq!(s.credit_account(ALICE, 50_000), Ok(()));
    // the pool holds only the premium, far less than the coverage
    let r = s.purchase_policy(
        ALICE,
        1,
        7,
        "NZ1".to_string(),
        0,
        5_000,
        MINT,
        false,
        String::new(),
        0,
    );
    assert!(r.is_ok());
    assert_eq!(s.process_payout(ADMIN, 1, 300, 0), Err(ZyuraError::InsufficientFunds));
    assert_eq!(s.get_policy(1).unwrap().status, PolicyStatus::Active);
    assert_eq!(s.pool_balance, 5_000);
}
