use vstd::prelude::*;
use crate::errors::ZyuraError;
use crate::state::{
    Identity, Policy, PolicyPurchased, PolicyStatus, PolicyV, ProofToken, TokenMetadata,
    TokenMetadataV,
};
use crate::store::{balance_of, Protocol, StateView};
use crate::text::{compose_policy_name, policy_name_spec};

verus! {

/// The minimum premium for a product: its coverage amount scaled by the
/// premium rate in basis points, computed with 128-bit intermediates and
/// truncated to 64 bits exactly as the executable computation truncates.
/// For rates up to 10000 basis points no truncation ever happens.
pub open spec fn required_premium_spec(coverage_amount: u64, premium_rate_bps: u16) -> u64 {
    (((coverage_amount as int) * (premium_rate_bps as int) / 10000) % 0x10000000000000000) as u64
}

/// The transition made by `purchase_policy`: while the protocol is not
/// paused, a customer buys coverage on an active product. The premium moves
/// into the custodial pool, the policy record is created, exactly one
/// proof-of-insurance token is minted to the customer and frozen, and
/// metadata is optionally registered — all in one atomic step.
pub open spec fn purchase_policy_spec(
    s: StateView,
    caller: Identity,
    policy_id: u64,
    product_id: u64,
    flight_number: Seq<char>,
    departure_time: i64,
    premium_amount: u64,
    nft_mint: Identity,
    create_metadata: bool,
    metadata_uri: Seq<char>,
    now: i64,
) -> (StateView, Result<PolicyPurchased, ZyuraError>) {
    match s.config {
        None => (s, Err(ZyuraError::RecordNotFound)),
        Some(cfg) => {
            if !s.products.contains_key(product_id) {
                (s, Err(ZyuraError::RecordNotFound))
            } else {
                let product = s.products[product_id];
                if cfg.paused {
                    (s, Err(ZyuraError::ProtocolPaused))
                } else if !product.active {
                    (s, Err(ZyuraError::ProductInactive))
                } else if premium_amount < required_premium_spec(
                    product.coverage_amount,
                    product.premium_rate_bps,
                ) {
                    (s, Err(ZyuraError::InsufficientPremium))
                } else if balance_of(s, caller) < premium_amount {
                    (s, Err(ZyuraError::InsufficientFunds))
                } else if s.pool_balance + premium_amount > u64::MAX {
                    (s, Err(ZyuraError::BalanceOverflow))
                } else if s.policies.contains_key(policy_id) {
                    (s, Err(ZyuraError::RecordExists))
                } else if s.proof_tokens.contains_key(nft_mint) {
                    (s, Err(ZyuraError::RecordExists))
                } else {
                    (
                        StateView {
                            balances: s.balances.insert(
                                caller,
                                (balance_of(s, caller) - premium_amount) as u64,
                            ),
                            pool_balance: (s.pool_balance + premium_amount) as u64,
                            policies: s.policies.insert(
                                policy_id,
                                PolicyV {
                                    id: policy_id,
                                    policyholder: caller,
                                    product_id,
                                    flight_number,
                                    departure_time,
                                    premium_paid: premium_amount,
                                    coverage_amount: product.coverage_amount,
                                    status: PolicyStatus::Active,
                                    created_at: now,
                                    paid_at: None,
                                },
                            ),
                            proof_tokens: s.proof_tokens.insert(
                                nft_mint,
                                ProofToken { holder: caller, frozen: true },
                            ),
                            token_metadata: if create_metadata {
                                s.token_metadata.insert(
                                    nft_mint,
                                    TokenMetadataV {
                                        name: policy_name_spec(policy_id, flight_number),
                                        symbol: "ZYURA"@,
                                        uri: metadata_uri,
                                        is_mutable: false,
                                    },
                                )
                            } else {
                                s.token_metadata
                            },
                            ..s
                        },
                        Ok(PolicyPurchased { policy_id, policyholder: caller, nft_mint }),
                    )
                }
            }
        },
    }
}

/// The transition made by `process_payout`: the administrator pays out a
/// qualifying delay on an active policy. The full snapshotted coverage
/// amount moves from the custodial pool to the policyholder and the policy
/// becomes `PaidOut`, so a second payout of the same policy is impossible.
pub open spec fn process_payout_spec(
    s: StateView,
    caller: Identity,
    policy_id: u64,
    delay_minutes: u32,
    now: i64,
) -> (StateView, Result<(), ZyuraError>) {
    match s.config {
        None => (s, Err(ZyuraError::RecordNotFound)),
        Some(cfg) => {
            if !s.policies.contains_key(policy_id) {
                (s, Err(ZyuraError::RecordNotFound))
            } else {
                let pol = s.policies[policy_id];
                if !s.products.contains_key(pol.product_id) {
                    (s, Err(ZyuraError::RecordNotFound))
                } else {
                    let product = s.products[pol.product_id];
                    if cfg.paused {
                        (s, Err(ZyuraError::ProtocolPaused))
                    } else if pol.status != PolicyStatus::Active {
                        (s, Err(ZyuraError::PolicyNotActive))
                    } else if delay_minutes < product.delay_threshold_minutes {
                        (s, Err(ZyuraError::DelayThresholdNotMet))
                    } else if caller != cfg.admin {
                        (s, Err(ZyuraError::Unauthorized))
                    } else if s.pool_balance < pol.coverage_amount {
                        (s, Err(ZyuraError::InsufficientFunds))
                    } else if balance_of(s, pol.policyholder) + pol.coverage_amount > u64::MAX {
                        (s, Err(ZyuraError::BalanceOverflow))
                    } else {
                        (
                            StateView {
                                balances: s.balances.insert(
                                    pol.policyholder,
                                    (balance_of(s, pol.policyholder) + pol.coverage_amount) as u64,
                                ),
                                pool_balance: (s.pool_balance - pol.coverage_amount) as u64,
                                policies: s.policies.insert(
                                    policy_id,
                                    PolicyV {
                                        status: PolicyStatus::PaidOut,
                                        paid_at: Some(now),
                                        ..pol
                                    },
                                ),
                                ..s
                            },
                            Ok(()),
                        )
                    }
                }
            }
        },
    }
}

/// Computes the minimum premium for the given coverage terms.
pub fn required_premium(coverage_amount: u64, premium_rate_bps: u16) -> (r: u64)
    ensures
        r == required_premium_spec(coverage_amount, premium_rate_bps),
{
    proof {
        vstd::arithmetic::mul::lemma_mul_upper_bound(
            coverage_amount as int,
            u64::MAX as int,
            premium_rate_bps as int,
            u16::MAX as int,
        );
    }
    let wide: u128 = (coverage_amount as u128) * (premium_rate_bps as u128) / 10000;
    let r = (wide % 0x10000000000000000u128) as u64;
    proof {
        assert(wide == (coverage_amount as int) * (premium_rate_bps as int) / 10000);
    }
    r
}

impl Protocol {
    /// Purchases a policy on `product_id` for the given flight: transfers
    /// the premium from the caller to the pool, creates the policy record,
    /// mints and freezes one proof-of-insurance token under `nft_mint`, and,
    /// if requested, registers permanent metadata for it. Returns the
    /// `PolicyPurchased` event on success. Fails with `RecordNotFound` for a
    /// missing product or config, `ProtocolPaused` while paused,
    /// `ProductInactive` for a deactivated product, `InsufficientPremium`
    /// below the minimum premium, `InsufficientFunds` if the caller cannot
    /// pay, `BalanceOverflow` if the pool balance would overflow, and
    /// `RecordExists` for a reused policy id or token mint. On failure the
    /// state is unchanged: no record is created, no token minted, no premium
    /// moved.
    pub fn purchase_policy(
        &mut self,
        caller: Identity,
        policy_id: u64,
        product_id: u64,
        flight_number: String,
        departure_time: i64,
        premium_amount: u64,
        nft_mint: Identity,
        create_metadata: bool,
        metadata_uri: String,
        now: i64,
    ) -> (r: Result<PolicyPurchased, ZyuraError>)
        requires
            flight_number@.len() <= 20,
        ensures
            final(self)@ == purchase_policy_spec(
                old(self)@,
                caller,
                policy_id,
                product_id,
                flight_number@,
                departure_time,
                premium_amount,
                nft_mint,
                create_metadata,
                metadata_uri@,
                now,
            ).0,
            r == purchase_policy_spec(
                old(self)@,
                caller,
                policy_id,
                product_id,
                flight_number@,
                departure_time,
                premium_amount,
                nft_mint,
                create_metadata,
                metadata_uri@,
                now,
            ).1,
    {
        let cfg = match self.config {
            None => { return Err(ZyuraError::RecordNotFound); },
            Some(c) => c,
        };
        let product = match self.products.get(&product_id) {
            None => { return Err(ZyuraError::RecordNotFound); },
            Some(p) => *p,
        };
        if cfg.paused {
            return Err(ZyuraError::ProtocolPaused);
        }
        if !product.active {
            return Err(ZyuraError::ProductInactive);
        }
        let required = required_premium(product.coverage_amount, product.premium_rate_bps);
        if premium_amount < required {
            return Err(ZyuraError::InsufficientPremium);
        }
        let bal = self.balance_of(caller);
        if bal < premium_amount {
            return Err(ZyuraError::InsufficientFunds);
        }
        let new_pool = match self.pool_balance.checked_add(premium_amount) {
            None => { return Err(ZyuraError::BalanceOverflow); },
            Some(v) => v,
        };
        if self.policies.contains_key(&policy_id) {
            return Err(ZyuraError::RecordExists);
        }
        if self.proof_tokens.contains_key(&nft_mint) {
            return Err(ZyuraError::RecordExists);
        }
        // Every check has passed: commit the whole transition.
        self.balances.insert(caller, bal - premium_amount);
        self.pool_balance = new_pool;
        if create_metadata {
            let name = compose_policy_name(policy_id, flight_number.as_str());
            self.token_metadata.insert(
                nft_mint,
                TokenMetadata {
                    name,
                    symbol: String::from_str("ZYURA"),
                    uri: metadata_uri,
                    is_mutable: false,
                },
            );
        }
        self.policies.insert(
            policy_id,
            Policy {
                id: policy_id,
                policyholder: caller,
                product_id,
                flight_number,
                departure_time,
                premium_paid: premium_amount,
                coverage_amount: product.coverage_amount,
                status: PolicyStatus::Active,
                created_at: now,
                paid_at: None,
            },
        );
        self.proof_tokens.insert(nft_mint, ProofToken { holder: caller, frozen: true });
        proof {
            assert(self@ =~= purchase_policy_spec(
                old(self)@,
                caller,
                policy_id,
                product_id,
                flight_number@,
                departure_time,
                premium_amount,
                nft_mint,
                create_metadata,
                metadata_uri@,
                now,
            ).0);
        }
        Ok(PolicyPurchased { policy_id, policyholder: caller, nft_mint })
    }

    /// Pays out an active policy whose confirmed delay meets the product's
    /// threshold: transfers the snapshotted coverage amount from the pool to
    /// the policyholder and marks the policy `PaidOut` at time `now`. Fails
    /// with `RecordNotFound` for a missing policy, product or config,
    /// `ProtocolPaused` while paused, `PolicyNotActive` unless the policy is
    /// `Active` (which blocks any second payout), `DelayThresholdNotMet`
    /// below the threshold, `Unauthorized` unless the caller is the
    /// administrator, and `InsufficientFunds` if the pool cannot cover. On
    /// failure the state is unchanged: nothing is transferred.
    pub fn process_payout(
        &mut self,
        caller: Identity,
        policy_id: u64,
        delay_minutes: u32,
        now: i64,
    ) -> (r: Result<(), ZyuraError>)
        ensures
            final(self)@ == process_payout_spec(old(self)@, caller, policy_id, delay_minutes, now).0,
            r == process_payout_spec(old(self)@, caller, policy_id, delay_minutes, now).1,
    {
        let cfg = match self.config {
            None => { return Err(ZyuraError::RecordNotFound); },
            Some(c) => c,
        };
        let pol = match self.policies.get(&policy_id) {
            None => { return Err(ZyuraError::RecordNotFound); },
            Some(p) => Policy {
                id: p.id,
                policyholder: p.policyholder,
                product_id: p.product_id,
                flight_number: p.flight_number.clone(),
                departure_time: p.departure_time,
                premium_paid: p.premium_paid,
                coverage_amount: p.coverage_amount,
                status: p.status,
                created_at: p.created_at,
                paid_at: p.paid_at,
            },
        };
        let product = match self.products.get(&pol.product_id) {
            None => { return Err(ZyuraError::RecordNotFound); },
            Some(p) => *p,
        };
        if cfg.paused {
            return Err(ZyuraError::ProtocolPaused);
        }
        if pol.status != PolicyStatus::Active {
            return Err(ZyuraError::PolicyNotActive);
        }
        if delay_minutes < product.delay_threshold_minutes {
            return Err(ZyuraError::DelayThresholdNotMet);
        }
        if caller != cfg.admin {
            return Err(ZyuraError::Unauthorized);
        }
        if self.pool_balance < pol.coverage_amount {
            return Err(ZyuraError::InsufficientFunds);
        }
        let bal = self.balance_of(pol.policyholder);
        let new_bal = match bal.checked_add(pol.coverage_amount) {
            None => { return Err(ZyuraError::BalanceOverflow); },
            Some(v) => v,
        };
        // Every check has passed: commit the whole transition.
        self.balances.insert(pol.policyholder, new_bal);
        self.pool_balance = self.pool_balance - pol.coverage_amount;
        self.policies.insert(
            policy_id,
            Policy { status: PolicyStatus::PaidOut, paid_at: Some(now), ..pol },
        );
        proof {
            assert(self@ =~= process_payout_spec(
                old(self)@,
                caller,
                policy_id,
                delay_minutes,
                now,
            ).0);
        }
        Ok(())
    }
}

} // verus!
