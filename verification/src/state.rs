use vstd::prelude::*;

verus! {

/// An account identity on the external ledger (an administrator, a customer,
/// a liquidity provider, an asset kind, or a token mint), reduced to the
/// plain key the protocol's logic compares and stores.
pub type Identity = u64;

/// Lifecycle of a policy. `Expired` is declared for claim-window expiry but
/// no operation produces it yet.
#[derive(Clone, Copy, Debug, PartialEq, Eq, Structural)]
pub enum PolicyStatus {
    Active,
    PaidOut,
    Expired,
}

/// Protocol-wide settings; a singleton created once by `initialize`.
#[derive(Clone, Copy, Debug, PartialEq, Eq, Structural)]
pub struct Config {
    /// The administrator allowed to pause, update products, withdraw
    /// liquidity, process payouts, and close the config.
    pub admin: Identity,
    /// The settlement asset all premiums, deposits and payouts are paid in.
    pub usdc_mint: Identity,
    /// The oracle service whose delay attestations feed `process_payout`.
    pub switchboard_program: Identity,
    /// While set, every mutating operation except pause-toggle and close
    /// fails with `ProtocolPaused`.
    pub paused: bool,
}

/// An insurable product: coverage terms and pricing, keyed by `id`.
#[derive(Clone, Copy, Debug, PartialEq, Eq, Structural)]
pub struct Product {
    pub id: u64,
    /// Minimum delay, in minutes, for a policy on this product to pay out.
    pub delay_threshold_minutes: u32,
    /// Payout amount, in settlement-asset units, snapshotted into each policy.
    pub coverage_amount: u64,
    /// Premium rate in basis points of the coverage amount.
    pub premium_rate_bps: u16,
    /// Period after departure during which a claim may be filed
    /// (declared, not yet enforced by any operation).
    pub claim_window_hours: u32,
    /// Purchases are only allowed while the product is active.
    pub active: bool,
}

/// A purchased policy, keyed by `id`.
#[derive(Debug)]
pub struct Policy {
    pub id: u64,
    pub policyholder: Identity,
    /// The product this policy was purchased against; the coverage amount
    /// was copied at purchase time, not linked live.
    pub product_id: u64,
    /// Flight covered, at most 20 characters.
    pub flight_number: String,
    /// Scheduled departure, in epoch seconds.
    pub departure_time: i64,
    pub premium_paid: u64,
    /// Amount paid out in full when a qualifying delay is confirmed.
    pub coverage_amount: u64,
    pub status: PolicyStatus,
    /// Ledger time at purchase.
    pub created_at: i64,
    /// Ledger time at payout, if one happened.
    pub paid_at: Option<i64>,
}

/// The mathematical value of a `Policy`: the same fields, with the flight
/// number as a sequence of characters.
#[verifier::ext_equal]
pub struct PolicyV {
    pub id: u64,
    pub policyholder: Identity,
    pub product_id: u64,
    pub flight_number: Seq<char>,
    pub departure_time: i64,
    pub premium_paid: u64,
    pub coverage_amount: u64,
    pub status: PolicyStatus,
    pub created_at: i64,
    pub paid_at: Option<i64>,
}

impl View for Policy {
    type V = PolicyV;

    open spec fn view(&self) -> PolicyV {
        PolicyV {
            id: self.id,
            policyholder: self.policyholder,
            product_id: self.product_id,
            flight_number: self.flight_number@,
            departure_time: self.departure_time,
            premium_paid: self.premium_paid,
            coverage_amount: self.coverage_amount,
            status: self.status,
            created_at: self.created_at,
            paid_at: self.paid_at,
        }
    }
}

/// Per-provider accounting against the shared risk pool, keyed by the
/// provider's identity. Created on the first deposit, never destroyed.
#[derive(Clone, Copy, Debug, PartialEq, Eq, Structural)]
pub struct LiquidityProvider {
    pub provider: Identity,
    /// Monotonically non-decreasing sum of all deposits.
    pub total_deposited: u64,
    /// Monotonically non-decreasing sum of all withdrawals.
    pub total_withdrawn: u64,
    /// Always `total_deposited - total_withdrawn`.
    pub active_deposit: u64,
}

impl LiquidityProvider {
    /// The accounting invariant of one provider record under its map key.
    pub open spec fn wf(self, key: Identity) -> bool {
        &&& self.provider == key
        &&& self.total_withdrawn <= self.total_deposited
        &&& self.active_deposit == self.total_deposited - self.total_withdrawn
    }
}

/// A proof-of-insurance token, keyed by its mint identity. Exactly one unit
/// is minted to the policyholder and the holding account is frozen in the
/// same transition, so the token can never be transferred.
#[derive(Clone, Copy, Debug, PartialEq, Eq, Structural)]
pub struct ProofToken {
    pub holder: Identity,
    pub frozen: bool,
}

/// Descriptive metadata registered for a proof token, keyed by the token's
/// mint identity. Registration is optional at purchase time.
#[derive(Debug)]
pub struct TokenMetadata {
    /// Composed from the policy id and flight number, at most 32 characters.
    pub name: String,
    pub symbol: String,
    /// Caller-supplied.
    pub uri: String,
    /// Always false: the registered metadata is permanent.
    pub is_mutable: bool,
}

/// The mathematical value of `TokenMetadata`.
#[verifier::ext_equal]
pub struct TokenMetadataV {
    pub name: Seq<char>,
    pub symbol: Seq<char>,
    pub uri: Seq<char>,
    pub is_mutable: bool,
}

impl View for TokenMetadata {
    type V = TokenMetadataV;

    open spec fn view(&self) -> TokenMetadataV {
        TokenMetadataV {
            name: self.name@,
            symbol: self.symbol@,
            uri: self.uri@,
            is_mutable: self.is_mutable,
        }
    }
}

/// The event returned by a successful policy purchase.
#[derive(Clone, Copy, Debug, PartialEq, Eq, Structural)]
pub struct PolicyPurchased {
    pub policy_id: u64,
    pub policyholder: Identity,
    /// The mint of the proof-of-insurance token issued to the policyholder.
    pub nft_mint: Identity,
}

} // verus!
