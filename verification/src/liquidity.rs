use vstd::prelude::*;
use crate::errors::ZyuraError;
use crate::state::{Identity, LiquidityProvider};
use crate::store::{balance_of, Protocol, StateView};

verus! {

/// The provider record the next deposit accumulates into: the existing one,
/// or a fresh zeroed record on the provider's first deposit.
pub open spec fn provider_or_new(s: StateView, provider: Identity) -> LiquidityProvider {
    if s.providers.contains_key(provider) {
        s.providers[provider]
    } else {
        LiquidityProvider { provider, total_deposited: 0, total_withdrawn: 0, active_deposit: 0 }
    }
}

/// The transition made by `deposit_liquidity`: while the protocol is not
/// paused, moves `amount` from the caller's external account into the
/// custodial pool and accumulates it into the caller's provider record,
/// creating the record on first deposit. The transfer and the record update
/// commit together or not at all.
pub open spec fn deposit_liquidity_spec(s: StateView, caller: Identity, amount: u64) -> (
    StateView,
    Result<(), ZyuraError>,
) {
    match s.config {
        None => (s, Err(ZyuraError::RecordNotFound)),
        Some(cfg) => {
            let prev = provider_or_new(s, caller);
            if cfg.paused {
                (s, Err(ZyuraError::ProtocolPaused))
            } else if amount == 0 {
                (s, Err(ZyuraError::InvalidAmount))
            } else if balance_of(s, caller) < amount {
                (s, Err(ZyuraError::InsufficientFunds))
            } else if s.pool_balance + amount > u64::MAX {
                (s, Err(ZyuraError::BalanceOverflow))
            } else if prev.total_deposited + amount > u64::MAX || prev.active_deposit + amount
                > u64::MAX {
                (s, Err(ZyuraError::BalanceOverflow))
            } else {
                (
                    StateView {
                        balances: s.balances.insert(
                            caller,
                            (balance_of(s, caller) - amount) as u64,
                        ),
                        pool_balance: (s.pool_balance + amount) as u64,
                        providers: s.providers.insert(
                            caller,
                            LiquidityProvider {
                                provider: caller,
                                total_deposited: (prev.total_deposited + amount) as u64,
                                total_withdrawn: prev.total_withdrawn,
                                active_deposit: (prev.active_deposit + amount) as u64,
                            },
                        ),
                        ..s
                    },
                    Ok(()),
                )
            }
        },
    }
}

/// The transition made by `withdraw_liquidity`: the administrator moves
/// `amount` from the custodial pool back to the named provider's external
/// account and records the withdrawal. A withdrawal can never exceed the
/// provider's active deposit; the transfer and the record update commit
/// together or not at all.
pub open spec fn withdraw_liquidity_spec(
    s: StateView,
    caller: Identity,
    provider: Identity,
    amount: u64,
) -> (StateView, Result<(), ZyuraError>) {
    match s.config {
        None => (s, Err(ZyuraError::RecordNotFound)),
        Some(cfg) => {
            if !s.providers.contains_key(provider) {
                (s, Err(ZyuraError::RecordNotFound))
            } else {
                let prev = s.providers[provider];
                if cfg.paused {
                    (s, Err(ZyuraError::ProtocolPaused))
                } else if amount == 0 {
                    (s, Err(ZyuraError::InvalidAmount))
                } else if prev.active_deposit < amount {
                    (s, Err(ZyuraError::InvalidAmount))
                } else if caller != cfg.admin {
                    (s, Err(ZyuraError::Unauthorized))
                } else if s.pool_balance < amount {
                    (s, Err(ZyuraError::InsufficientFunds))
                } else if balance_of(s, provider) + amount > u64::MAX {
                    (s, Err(ZyuraError::BalanceOverflow))
                } else if prev.total_withdrawn + amount > u64::MAX {
                    (s, Err(ZyuraError::BalanceOverflow))
                } else {
                    (
                        StateView {
                            balances: s.balances.insert(
                                provider,
                                (balance_of(s, provider) + amount) as u64,
                            ),
                            pool_balance: (s.pool_balance - amount) as u64,
                            providers: s.providers.insert(
                                provider,
                                LiquidityProvider {
                                    provider,
                                    total_deposited: prev.total_deposited,
                                    total_withdrawn: (prev.total_withdrawn + amount) as u64,
                                    active_deposit: (prev.active_deposit - amount) as u64,
                                },
                            ),
                            ..s
                        },
                        Ok(()),
                    )
                }
            }
        },
    }
}

impl Protocol {
    /// Deposits `amount` of the settlement asset from the caller's external
    /// account into the risk pool, creating or updating the caller's
    /// provider record. Fails with `ProtocolPaused` while paused,
    /// `InvalidAmount` for a zero amount, `InsufficientFunds` if the caller
    /// holds less than `amount`, and `BalanceOverflow` if a credited balance
    /// or counter would overflow. On failure the state is unchanged.
    pub fn deposit_liquidity(&mut self, caller: Identity, amount: u64) -> (r: Result<
        (),
        ZyuraError,
    >)
        ensures
            final(self)@ == deposit_liquidity_spec(old(self)@, caller, amount).0,
            r == deposit_liquidity_spec(old(self)@, caller, amount).1,
    {
        let cfg = match self.config {
            None => { return Err(ZyuraError::RecordNotFound); },
            Some(c) => c,
        };
        if cfg.paused {
            return Err(ZyuraError::ProtocolPaused);
        }
        if amount == 0 {
            return Err(ZyuraError::InvalidAmount);
        }
        let bal = self.balance_of(caller);
        if bal < amount {
            return Err(ZyuraError::InsufficientFunds);
        }
        let new_pool = match self.pool_balance.checked_add(amount) {
            None => { return Err(ZyuraError::BalanceOverflow); },
            Some(v) => v,
        };
        let prev = match self.providers.get(&caller) {
            Some(p) => *p,
            None => LiquidityProvider {
                provider: caller,
                total_deposited: 0,
                total_withdrawn: 0,
                active_deposit: 0,
            },
        };
        let new_total = match prev.total_deposited.checked_add(amount) {
            None => { return Err(ZyuraError::BalanceOverflow); },
            Some(v) => v,
        };
        let new_active = match prev.active_deposit.checked_add(amount) {
            None => { return Err(ZyuraError::BalanceOverflow); },
            Some(v) => v,
        };
        self.balances.insert(caller, bal - amount);
        self.pool_balance = new_pool;
        self.providers.insert(
            caller,
            LiquidityProvider {
                provider: caller,
                total_deposited: new_total,
                total_withdrawn: prev.total_withdrawn,
                active_deposit: new_active,
            },
        );
        Ok(())
    }

    /// Withdraws `amount` from the risk pool to the named provider's
    /// external account, on the administrator's authority. Fails with
    /// `RecordNotFound` for an unknown provider, `ProtocolPaused` while
    /// paused, `InvalidAmount` for a zero amount or one exceeding the
    /// provider's active deposit, `Unauthorized` unless the caller is the
    /// administrator, `InsufficientFunds` if the pool holds less than
    /// `amount`, and `BalanceOverflow` if a credited balance or counter
    /// would overflow. On failure the state is unchanged.
    pub fn withdraw_liquidity(
        &mut self,
        caller: Identity,
        provider: Identity,
        amount: u64,
    ) -> (r: Result<(), ZyuraError>)
        ensures
            final(self)@ == withdraw_liquidity_spec(old(self)@, caller, provider, amount).0,
            r == withdraw_liquidity_spec(old(self)@, caller, provider, amount).1,
    {
        let cfg = match self.config {
            None => { return Err(ZyuraError::RecordNotFound); },
            Some(c) => c,
        };
        let prev = match self.providers.get(&provider) {
            None => { return Err(ZyuraError::RecordNotFound); },
            Some(p) => *p,
        };
        if cfg.paused {
            return Err(ZyuraError::ProtocolPaused);
        }
        if amount == 0 {
            return Err(ZyuraError::InvalidAmount);
        }
        if prev.active_deposit < amount {
            return Err(ZyuraError::InvalidAmount);
        }
        if caller != cfg.admin {
            return Err(ZyuraError::Unauthorized);
        }
        if self.pool_balance < amount {
            return Err(ZyuraError::InsufficientFunds);
        }
        let bal = self.balance_of(provider);
        let new_bal = match bal.checked_add(amount) {
            None => { return Err(ZyuraError::BalanceOverflow); },
            Some(v) => v,
        };
        let new_withdrawn = match prev.total_withdrawn.checked_add(amount) {
            None => { return Err(ZyuraError::BalanceOverflow); },
            Some(v) => v,
        };
        self.balances.insert(provider, new_bal);
        self.pool_balance = self.pool_balance - amount;
        self.providers.insert(
            provider,
            LiquidityProvider {
                provider,
                total_deposited: prev.total_deposited,
                total_withdrawn: new_withdrawn,
                active_deposit: prev.active_deposit - amount,
            },
        );
        Ok(())
    }
}

} // verus!
