use vstd::prelude::*;
use crate::admin::{close_config_spec, set_pause_status_spec};
use crate::errors::ZyuraError;
use crate::initialize::initialize_spec;
use crate::liquidity::{deposit_liquidity_spec, withdraw_liquidity_spec};
use crate::policy::{process_payout_spec, purchase_policy_spec, required_premium_spec};
use crate::product::{create_product_spec, update_product_spec};
use crate::state::{Identity, PolicyStatus};
use crate::store::{balance_of, StateView};

verus! {

/// Every operation is atomic: whenever it fails, it leaves the state
/// exactly as it found it — no record is touched and no balance moves.
pub proof fn lemma_errors_leave_state(
    s: StateView,
    caller: Identity,
    admin: Identity,
    usdc_mint: Identity,
    switchboard_program: Identity,
    paused: bool,
    product_id: u64,
    delay_threshold_minutes: u32,
    coverage_amount: u64,
    premium_rate_bps: u16,
    claim_window_hours: u32,
    provider: Identity,
    amount: u64,
    policy_id: u64,
    flight_number: Seq<char>,
    departure_time: i64,
    premium_amount: u64,
    nft_mint: Identity,
    create_metadata: bool,
    metadata_uri: Seq<char>,
    now: i64,
    delay_minutes: u32,
)
    ensures
        initialize_spec(s, admin, usdc_mint, switchboard_program).1 is Err ==> initialize_spec(
            s,
            admin,
            usdc_mint,
            switchboard_program,
        ).0 == s,
        set_pause_status_spec(s, caller, paused).1 is Err ==> set_pause_status_spec(
            s,
            caller,
            paused,
        ).0 == s,
        close_config_spec(s, caller).1 is Err ==> close_config_spec(s, caller).0 == s,
        create_product_spec(
            s,
            product_id,
            delay_threshold_minutes,
            coverage_amount,
            premium_rate_bps,
            claim_window_hours,
        ).1 is Err ==> create_product_spec(
            s,
            product_id,
            delay_threshold_minutes,
            coverage_amount,
            premium_rate_bps,
            claim_window_hours,
        ).0 == s,
        update_product_spec(
            s,
            caller,
            product_id,
            delay_threshold_minutes,
            coverage_amount,
            premium_rate_bps,
            claim_window_hours,
        ).1 is Err ==> update_product_spec(
            s,
            caller,
            product_id,
            delay_threshold_minutes,
            coverage_amount,
            premium_rate_bps,
            claim_window_hours,
        ).0 == s,
        deposit_liquidity_spec(s, caller, amount).1 is Err ==> deposit_liquidity_spec(
            s,
            caller,
            amount,
        ).0 == s,
        withdraw_liquidity_spec(s, caller, provider, amount).1 is Err ==> withdraw_liquidity_spec(
            s,
            caller,
            provider,
            amount,
        ).0 == s,
        purchase_policy_spec(
            s,
            caller,
            policy_id,
            product_id,
            flight_number,
            departure_time,
            premium_amount,
            nft_mint,
            create_metadata,
            metadata_uri,
            now,
        ).1 is Err ==> purchase_policy_spec(
            s,
            caller,
            policy_id,
            product_id,
            flight_number,
            departure_time,
            premium_amount,
            nft_mint,
            create_metadata,
            metadata_uri,
            now,
        ).0 == s,
        process_payout_spec(s, caller, policy_id, delay_minutes, now).1 is Err
            ==> process_payout_spec(s, caller, policy_id, delay_minutes, now).0 == s,
{
}

/// Pause gating: while the protocol is paused, every mutating operation on
/// existing records fails with `ProtocolPaused` and changes nothing — except
/// the pause toggle and the close, which the administrator may still invoke.
pub proof fn lemma_pause_gating(
    s: StateView,
    caller: Identity,
    product_id: u64,
    delay_threshold_minutes: u32,
    coverage_amount: u64,
    premium_rate_bps: u16,
    claim_window_hours: u32,
    provider: Identity,
    amount: u64,
    policy_id: u64,
    flight_number: Seq<char>,
    departure_time: i64,
    premium_amount: u64,
    nft_mint: Identity,
    create_metadata: bool,
    metadata_uri: Seq<char>,
    now: i64,
    delay_minutes: u32,
    unpause: bool,
)
    requires
        s.config is Some,
        s.config.unwrap().paused,
    ensures
        create_product_spec(
            s,
            product_id,
            delay_threshold_minutes,
            coverage_amount,
            premium_rate_bps,
            claim_window_hours,
        ) == (s, Err::<(), ZyuraError>(ZyuraError::ProtocolPaused)),
        s.products.contains_key(product_id) ==> update_product_spec(
            s,
            caller,
            product_id,
            delay_threshold_minutes,
            coverage_amount,
            premium_rate_bps,
            claim_window_hours,
        ) == (s, Err::<(), ZyuraError>(ZyuraError::ProtocolPaused)),
        deposit_liquidity_spec(s, caller, amount) == (
            s,
            Err::<(), ZyuraError>(ZyuraError::ProtocolPaused),
        ),
        s.providers.contains_key(provider) ==> withdraw_liquidity_spec(s, caller, provider, amount)
            == (s, Err::<(), ZyuraError>(ZyuraError::ProtocolPaused)),
        s.products.contains_key(product_id) ==> purchase_policy_spec(
            s,
            caller,
            policy_id,
            product_id,
            flight_number,
            departure_time,
            premium_amount,
            nft_mint,
            create_metadata,
            metadata_uri,
            now,
        ).1 == Err::<crate::state::PolicyPurchased, ZyuraError>(ZyuraError::ProtocolPaused),
        s.products.contains_key(product_id) ==> purchase_policy_spec(
            s,
            caller,
            policy_id,
            product_id,
            flight_number,
            departure_time,
            premium_amount,
            nft_mint,
            create_metadata,
            metadata_uri,
            now,
        ).0 == s,
        s.policies.contains_key(policy_id) && s.products.contains_key(
            s.policies[policy_id].product_id,
        ) ==> process_payout_spec(s, caller, policy_id, delay_minutes, now) == (
            s,
            Err::<(), ZyuraError>(ZyuraError::ProtocolPaused),
        ),
        set_pause_status_spec(s, s.config.unwrap().admin, unpause).1 == Ok::<(), ZyuraError>(()),
        close_config_spec(s, s.config.unwrap().admin).1 is Err ==> close_config_spec(
            s,
            s.config.unwrap().admin,
        ).1 == Err::<(), ZyuraError>(ZyuraError::BalanceOverflow),
{
}

/// Admin gating: a caller other than the administrator is rejected with
/// `Unauthorized`, and the state is unchanged, by every admin-gated
/// operation — once the checks that precede the authorization check pass.
pub proof fn lemma_unauthorized_rejected(
    s: StateView,
    caller: Identity,
    paused: bool,
    product_id: u64,
    delay_threshold_minutes: u32,
    coverage_amount: u64,
    premium_rate_bps: u16,
    claim_window_hours: u32,
    provider: Identity,
    amount: u64,
    policy_id: u64,
    now: i64,
    delay_minutes: u32,
)
    requires
        s.config is Some,
        caller != s.config.unwrap().admin,
    ensures
        set_pause_status_spec(s, caller, paused) == (
            s,
            Err::<(), ZyuraError>(ZyuraError::Unauthorized),
        ),
        close_config_spec(s, caller) == (s, Err::<(), ZyuraError>(ZyuraError::Unauthorized)),
        !s.config.unwrap().paused && s.products.contains_key(product_id) ==> update_product_spec(
            s,
            caller,
            product_id,
            delay_threshold_minutes,
            coverage_amount,
            premium_rate_bps,
            claim_window_hours,
        ) == (s, Err::<(), ZyuraError>(ZyuraError::Unauthorized)),
        !s.config.unwrap().paused && s.providers.contains_key(provider) && amount > 0 && amount
            <= s.providers[provider].active_deposit ==> withdraw_liquidity_spec(
            s,
            caller,
            provider,
            amount,
        ) == (s, Err::<(), ZyuraError>(ZyuraError::Unauthorized)),
        !s.config.unwrap().paused && s.policies.contains_key(policy_id) && s.products.contains_key(
            s.policies[policy_id].product_id,
        ) && s.policies[policy_id].status is Active && delay_minutes
            >= s.products[s.policies[policy_id].product_id].delay_threshold_minutes
            ==> process_payout_spec(
            s,
            caller,
            policy_id,
            delay_minutes,
            now,
        ) == (s, Err::<(), ZyuraError>(ZyuraError::Unauthorized)),
{
}

/// Well-formedness is preserved by every operation, so it holds of every
/// state reachable through the protocol: after every call, `active_deposit`
/// equals `total_deposited - total_withdrawn` for every provider, every
/// record still sits under its own key, every proof token ever minted is
/// still frozen, and a policy carries a payout time exactly when it has
/// been paid out.
pub proof fn lemma_wf_preserved(
    s: StateView,
    caller: Identity,
    admin: Identity,
    usdc_mint: Identity,
    switchboard_program: Identity,
    paused: bool,
    product_id: u64,
    delay_threshold_minutes: u32,
    coverage_amount: u64,
    premium_rate_bps: u16,
    claim_window_hours: u32,
    provider: Identity,
    amount: u64,
    policy_id: u64,
    flight_number: Seq<char>,
    departure_time: i64,
    premium_amount: u64,
    nft_mint: Identity,
    create_metadata: bool,
    metadata_uri: Seq<char>,
    now: i64,
    delay_minutes: u32,
)
    requires
        s.wf(),
    ensures
        initialize_spec(s, admin, usdc_mint, switchboard_program).0.wf(),
        set_pause_status_spec(s, caller, paused).0.wf(),
        close_config_spec(s, caller).0.wf(),
        create_product_spec(
            s,
            product_id,
            delay_threshold_minutes,
            coverage_amount,
            premium_rate_bps,
            claim_window_hours,
        ).0.wf(),
        update_product_spec(
            s,
            caller,
            product_id,
            delay_threshold_minutes,
            coverage_amount,
            premium_rate_bps,
            claim_window_hours,
        ).0.wf(),
        deposit_liquidity_spec(s, caller, amount).0.wf(),
        withdraw_liquidity_spec(s, caller, provider, amount).0.wf(),
        purchase_policy_spec(
            s,
            caller,
            policy_id,
            product_id,
            flight_number,
            departure_time,
            premium_amount,
            nft_mint,
            create_metadata,
            metadata_uri,
            now,
        ).0.wf(),
        process_payout_spec(s, caller, policy_id, delay_minutes, now).0.wf(),
{
}

/// A withdrawal can never overdraw a provider: whenever the requested
/// amount exceeds the provider's active deposit, the call fails with
/// `InvalidAmount` and nothing changes.
pub proof fn lemma_withdraw_never_overdraws(
    s: StateView,
    caller: Identity,
    provider: Identity,
    amount: u64,
)
    requires
        s.config is Some,
        !s.config.unwrap().paused,
        s.providers.contains_key(provider),
        amount > 0,
        amount > s.providers[provider].active_deposit,
    ensures
        withdraw_liquidity_spec(s, caller, provider, amount) == (
            s,
            Err::<(), ZyuraError>(ZyuraError::InvalidAmount),
        ),
{
}

/// No double payout: when a payout of a policy succeeds, the coverage
/// amount moves from the pool to the policyholder exactly once — any
/// further payout of the same policy fails with `PolicyNotActive` and
/// transfers nothing, whoever calls it and whatever delay is claimed.
pub proof fn lemma_no_double_payout(
    s: StateView,
    caller: Identity,
    policy_id: u64,
    delay_minutes: u32,
    now: i64,
    second_caller: Identity,
    second_delay: u32,
    second_now: i64,
)
    requires
        process_payout_spec(s, caller, policy_id, delay_minutes, now).1 is Ok,
    ensures
        ({
            let s1 = process_payout_spec(s, caller, policy_id, delay_minutes, now).0;
            let pol = s.policies[policy_id];
            &&& s1.pool_balance == s.pool_balance - pol.coverage_amount
            &&& balance_of(s1, pol.policyholder) == balance_of(s, pol.policyholder)
                + pol.coverage_amount
            &&& s1.policies[policy_id].status is PaidOut
            &&& process_payout_spec(s1, second_caller, policy_id, second_delay, second_now) == (
                s1,
                Err::<(), ZyuraError>(ZyuraError::PolicyNotActive),
            )
        }),
{
}

/// Atomicity of a purchase against a failed premium transfer: when the
/// caller cannot pay the premium, the purchase fails with
/// `InsufficientFunds`, and no policy record is created, no proof token is
/// minted, and no balance moves.
pub proof fn lemma_purchase_atomicity(
    s: StateView,
    caller: Identity,
    policy_id: u64,
    product_id: u64,
    flight_number: Seq<char>,
    departure_time: i64,
    premium_amount: u64,
    nft_mint: Identity,
    create_metadata: bool,
    metadata_uri: Seq<char>,
    now: i64,
)
    requires
        s.config is Some,
        !s.config.unwrap().paused,
        s.products.contains_key(product_id),
        s.products[product_id].active,
        premium_amount >= required_premium_spec(
            s.products[product_id].coverage_amount,
            s.products[product_id].premium_rate_bps,
        ),
        balance_of(s, caller) < premium_amount,
    ensures
        ({
            let (s1, r) = purchase_policy_spec(
                s,
                caller,
                policy_id,
                product_id,
                flight_number,
                departure_time,
                premium_amount,
                nft_mint,
                create_metadata,
                metadata_uri,
                now,
            );
            &&& r == Err::<crate::state::PolicyPurchased, ZyuraError>(
                ZyuraError::InsufficientFunds,
            )
            &&& s1 == s
            &&& s1.policies == s.policies
            &&& s1.proof_tokens == s.proof_tokens
            &&& s1.balances == s.balances
            &&& s1.pool_balance == s.pool_balance
        }),
{
}

/// For premium rates up to 10000 basis points the computed minimum premium
/// is exactly `coverage_amount * premium_rate_bps / 10000`, with no
/// truncation: the wide product scaled down always fits in 64 bits.
pub proof fn lemma_required_premium_exact(coverage_amount: u64, premium_rate_bps: u16)
    requires
        premium_rate_bps <= 10000,
    ensures
        required_premium_spec(coverage_amount, premium_rate_bps) == (coverage_amount as int) * (
        premium_rate_bps as int) / 10000,
        required_premium_spec(coverage_amount, premium_rate_bps) <= coverage_amount,
{
    let cov = coverage_amount as int;
    let rate = premium_rate_bps as int;
    vstd::arithmetic::mul::lemma_mul_upper_bound(cov, cov, rate, 10000);
    vstd::arithmetic::div_mod::lemma_div_is_ordered(cov * rate, cov * 10000, 10000);
    vstd::arithmetic::div_mod::lemma_div_multiples_vanish(cov, 10000);
    assert(cov * 10000 == 10000 * cov);
    assert(cov * rate / 10000 <= cov);
    vstd::arithmetic::mul::lemma_mul_nonnegative(cov, rate);
    vstd::arithmetic::div_mod::lemma_div_pos_is_pos(cov * rate, 10000);
    vstd::arithmetic::div_mod::lemma_small_mod((cov * rate / 10000) as nat, 0x10000000000000000);
}

} // verus!
