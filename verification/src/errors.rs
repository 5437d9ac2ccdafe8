use vstd::prelude::*;

verus! {

/// Every way a protocol operation can abort. Each operation returns the first
/// failing check's error and leaves the whole state unchanged.
#[derive(Clone, Copy, Debug, PartialEq, Eq, Structural)]
pub enum ZyuraError {
    /// A mutating call was made while the protocol is paused.
    ProtocolPaused,
    /// A policy purchase was attempted against a deactivated product.
    ProductInactive,
    /// A payout was attempted against a policy that is not `Active`;
    /// this is also what blocks a second payout of the same policy.
    PolicyNotActive,
    /// A payout was attempted with a delay below the product's threshold.
    DelayThresholdNotMet,
    /// A zero amount, or a withdrawal exceeding the provider's active deposit.
    InvalidAmount,
    /// The caller failed an identity-equality check.
    Unauthorized,
    /// The premium paid is below the product's computed minimum.
    InsufficientPremium,
    /// A record creation was attempted at an address already in use.
    RecordExists,
    /// An operation addressed a record that does not exist.
    RecordNotFound,
    /// `initialize` was called when the singleton config already exists.
    AlreadyInitialized,
    /// A delegated transfer failed because the debited account holds less
    /// than the requested amount.
    InsufficientFunds,
    /// A delegated transfer or a deposit counter would overflow the credited
    /// account's 64-bit balance.
    BalanceOverflow,
}

impl ZyuraError {
    /// The human-readable message for this error kind.
    pub open spec fn spec_message(self) -> Seq<char> {
        match self {
            ZyuraError::ProtocolPaused => "Protocol is currently paused"@,
            ZyuraError::ProductInactive => "Product is not active"@,
            ZyuraError::PolicyNotActive => "Policy is not active"@,
            ZyuraError::DelayThresholdNotMet => "Delay threshold not met"@,
            ZyuraError::InvalidAmount => "Invalid amount"@,
            ZyuraError::Unauthorized => "Unauthorized access"@,
            ZyuraError::InsufficientPremium => "Insufficient premium amount"@,
            ZyuraError::RecordExists => "Record already exists"@,
            ZyuraError::RecordNotFound => "Record not found"@,
            ZyuraError::AlreadyInitialized => "Config already initialized"@,
            ZyuraError::InsufficientFunds => "Insufficient funds for transfer"@,
            ZyuraError::BalanceOverflow => "Balance overflow"@,
        }
    }

    /// Returns the message for this error kind.
    pub fn message(&self) -> (r: &'static str)
        ensures
            r@ == self.spec_message(),
    {
        match self {
            ZyuraError::ProtocolPaused => "Protocol is currently paused",
            ZyuraError::ProductInactive => "Product is not active",
            ZyuraError::PolicyNotActive => "Policy is not active",
            ZyuraError::DelayThresholdNotMet => "Delay threshold not met",
            ZyuraError::InvalidAmount => "Invalid amount",
            ZyuraError::Unauthorized => "Unauthorized access",
            ZyuraError::InsufficientPremium => "Insufficient premium amount",
            ZyuraError::RecordExists => "Record already exists",
            ZyuraError::RecordNotFound => "Record not found",
            ZyuraError::AlreadyInitialized => "Config already initialized",
            ZyuraError::InsufficientFunds => "Insufficient funds for transfer",
            ZyuraError::BalanceOverflow => "Balance overflow",
        }
    }
}

} // verus!
