use zyura::errors::ZyuraError;
use zyura::store::Protocol;

const ADMIN: u64 = 1;
const USDC: u64 = 2;
const ORACLE: u64 = 3;
const ALICE: u64 = 10;

fn initialized() -> Protocol {
    let mut s = Protocol::new();
    assert_eq!(s.initialize(ADMIN, USDC, ORACLE), Ok(()));
    s
}

#[test]
fn initialize_sets_config() {
    let s = initialized();
    let cfg = s.get_config().unwrap();
    assert_eq!(cfg.admin, ADMIN);
    assert_eq!(cfg.usdc_mint, USDC);
    assert_eq!(cfg.switchboard_program, ORACLE);
    assert!(!cfg.paused);
}

#[test]
fn initialize_twice_fails() {
    let mut s = initialized();
    assert_eq!(s.initialize(99, 98, 97), Err(ZyuraError::AlreadyInitialized));
    // the original config is untouched
    assert_eq!(s.get_config().unwrap().admin, ADMIN);
}

#[test]
fn operations_before_initialize_fail() {
    let mut s = Protocol::new();
    assert_eq!(s.create_product(1, 120, 100_000, 500, 48), Err(ZyuraError::RecordNotFound));
    assert_eq!(s.deposit_liquidity(ALICE, 5), Err(ZyuraError::RecordNotFound));
    assert_eq!(s.set_pause_status(ADMIN, true), Err(ZyuraError::RecordNotFound));
    assert_eq!(s.close_config(ADMIN), Err(ZyuraError::RecordNotFound));
}

#[test]
fn create_product_stores_terms_and_activates() {
    let mut s = initialized();
    assert_eq!(s.create_product(7, 120, 100_000, 500, 48), Ok(()));
    let p = s.get_product(7).unwrap();
    assert_eq!(p.id, 7);
    assert_eq!(p.delay_threshold_minutes, 120);
    assert_eq!(p.coverage_amount, 100_000);
    assert_eq!(p.premium_rate_bps, 500);
    assert_eq!(p.claim_window_hours, 48);
    assert!(p.active);
}

#[test]
fn create_product_duplicate_id_fails() {
    let mut s = initialized();
    assert_eq!(s.create_product(7, 120, 100_000, 500, 48), Ok(()));
    assert_eq!(s.create_product(7, 60, 1, 1, 1), Err(ZyuraError::RecordExists));
    // the stored product keeps its original terms
    assert_eq!(s.get_product(7).unwrap().coverage_amount, 100_000);
}

#[test]
fn update_product_overwrites_terms_only() {
    let mut s = initialized();
    assert_eq!(s.create_product(7, 120, 100_000, 500, 48), Ok(()));
    assert_eq!(s.update_product(ADMIN, 7, 90, 200_000, 250, 24), Ok(()));
    let p = s.get_product(7).unwrap();
    assert_eq!(p.id, 7);
    assert_eq!(p.delay_threshold_minutes, 90);
    assert_eq!(p.coverage_amount, 200_000);
    assert_eq!(p.premium_rate_bps, 250);
    assert_eq!(p.claim_window_hours, 24);
    assert!(p.active);
}

#[test]
fn update_missing_product_fails() {
    let mut s = initialized();
    assert_eq!(s.update_product(ADMIN, 7, 90, 200_000, 250, 24), Err(ZyuraError::RecordNotFound));
}

#[test]
fn pause_gates_mutating_operations() {
    let mut s = initialized();
    assert_eq!(s.create_product(7, 120, 100_000, 500, 48), Ok(()));
    assert_eq!(s.credit_account(ALICE, 10_000), Ok(()));
    assert_eq!(s.deposit_liquidity(ALICE, 1_000), Ok(()));
    assert_eq!(s.set_pause_status(ADMIN, true), Ok(()));
    assert!(s.get_config().unwrap().paused);

    assert_eq!(s.create_product(8, 60, 1_000, 100, 24), Err(ZyuraError::ProtocolPaused));
    assert_eq!(s.update_product(ADMIN, 7, 60, 1_000, 100, 24), Err(ZyuraError::ProtocolPaused));
    assert_eq!(s.deposit_liquidity(ALICE, 1_000), Err(ZyuraError::ProtocolPaused));
    assert_eq!(s.withdraw_liquidity(ADMIN, ALICE, 500), Err(ZyuraError::ProtocolPaused));
    assert_eq!(
        s.purchase_policy(ALICE, 1, 7, "NZ1".to_string(), 0, 5_000, 900, false, String::new(), 0),
        Err(ZyuraError::ProtocolPaused)
    );
    assert_eq!(s.process_payout(ADMIN, 1, 500, 0), Err(ZyuraError::RecordNotFound));

    // no record changed while paused
    assert!(s.get_product(8).is_none());
    assert_eq!(s.get_product(7).unwrap().coverage_amount, 100_000);
    assert_eq!(s.get_provider(ALICE).unwrap().active_deposit, 1_000);
    assert_eq!(s.balance_of(ALICE), 9_000);
    assert_eq!(s.pool_balance, 1_000);

    // the pause toggle itself still works while paused
    assert_eq!(s.set_pause_status(ADMIN, false), Ok(()));
    assert_eq!(s.deposit_liquidity(ALICE, 1_000), Ok(()));
}

#[test]
fn unauthorized_admin_actions_fail() {
    let intruder: u64 = 66;
    let mut s = initialized();
    assert_eq!(s.create_product(7, 120, 100_000, 500, 48), Ok(()));
    assert_eq!(s.credit_account(ALICE, 10_000), Ok(()));
    assert_eq!(s.deposit_liquidity(ALICE, 1_000), Ok(()));

    assert_eq!(s.update_product(intruder, 7, 60, 1, 1, 1), Err(ZyuraError::Unauthorized));
    assert_eq!(s.withdraw_liquidity(intruder, ALICE, 500), Err(ZyuraError::Unauthorized));
    assert_eq!(s.set_pause_status(intruder, true), Err(ZyuraError::Unauthorized));
    assert_eq!(s.close_config(intruder), Err(ZyuraError::Unauthorized));

    // no state change
    assert_eq!(s.get_product(7).unwrap().coverage_amount, 100_000);
    assert_eq!(s.get_provider(ALICE).unwrap().active_deposit, 1_000);
    assert!(!s.get_config().unwrap().paused);
    assert_eq!(s.get_config().unwrap().admin, ADMIN);
    assert_eq!(s.pool_balance, 1_000);
}

#[test]
fn close_config_returns_pool_to_admin() {
    let mut s = initialized();
    assert_eq!(s.credit_account(ALICE, 10_000), Ok(()));
    assert_eq!(s.deposit_liquidity(ALICE, 4_000), Ok(()));
    assert_eq!(s.pool_balance, 4_000);
    let admin_before = s.balance_of(ADMIN);

    assert_eq!(s.close_config(ADMIN), Ok(()));
    assert!(s.get_config().is_none());
    assert_eq!(s.pool_balance, 0);
    assert_eq!(s.balance_of(ADMIN), admin_before + 4_000);

    // everything is gone for good: further operations find no config
    assert_eq!(s.deposit_liquidity(ALICE, 1), Err(ZyuraError::RecordNotFound));
    assert_eq!(s.set_pause_status(ADMIN, true), Err(ZyuraError::RecordNotFound));
}

#[test]
fn credit_account_overflow_fails() {
    let mut s = initialized();
    assert_eq!(s.credit_account(ALICE, u64::MAX), Ok(()));
    assert_eq!(s.credit_account(ALICE, 1), Err(ZyuraError::BalanceOverflow));
    assert_eq!(s.balance_of(ALICE), u64::MAX);
}
