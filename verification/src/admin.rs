use vstd::prelude::*;
use crate::errors::ZyuraError;
use crate::state::{Config, Identity};
use crate::store::{balance_of, Protocol, StateView};

verus! {

/// The transition made by `set_pause_status`: only the administrator may
/// flip the pause flag, and may do so whether or not the protocol is
/// currently paused. Nothing else changes.
pub open spec fn set_pause_status_spec(
    s: StateView,
    caller: Identity,
    paused: bool,
) -> (StateView, Result<(), ZyuraError>) {
    match s.config {
        None => (s, Err(ZyuraError::RecordNotFound)),
        Some(cfg) => {
            if caller != cfg.admin {
                (s, Err(ZyuraError::Unauthorized))
            } else {
                (StateView { config: Some(Config { paused, ..cfg }), ..s }, Ok(()))
            }
        },
    }
}

/// The transition made by `close_config`: only the administrator may close
/// the protocol, whether or not it is paused. The config record is removed
/// permanently and the residual custodial pool balance is returned to the
/// caller's external account.
pub open spec fn close_config_spec(s: StateView, caller: Identity) -> (
    StateView,
    Result<(), ZyuraError>,
) {
    match s.config {
        None => (s, Err(ZyuraError::RecordNotFound)),
        Some(cfg) => {
            if caller != cfg.admin {
                (s, Err(ZyuraError::Unauthorized))
            } else if balance_of(s, caller) + s.pool_balance > u64::MAX {
                (s, Err(ZyuraError::BalanceOverflow))
            } else {
                (
                    StateView {
                        config: None,
                        pool_balance: 0,
                        balances: s.balances.insert(
                            caller,
                            (balance_of(s, caller) + s.pool_balance) as u64,
                        ),
                        ..s
                    },
                    Ok(()),
                )
            }
        },
    }
}

impl Protocol {
    /// Sets the protocol pause flag. Requires `caller` to be the
    /// administrator; fails with `Unauthorized` otherwise, and with
    /// `RecordNotFound` before initialization. On failure the state is
    /// unchanged.
    pub fn set_pause_status(&mut self, caller: Identity, paused: bool) -> (r: Result<
        (),
        ZyuraError,
    >)
        ensures
            final(self)@ == set_pause_status_spec(old(self)@, caller, paused).0,
            r == set_pause_status_spec(old(self)@, caller, paused).1,
    {
        let cfg = match self.config {
            None => { return Err(ZyuraError::RecordNotFound); },
            Some(c) => c,
        };
        if caller != cfg.admin {
            return Err(ZyuraError::Unauthorized);
        }
        self.config = Some(Config { paused, ..cfg });
        Ok(())
    }

    /// Permanently removes the config record and returns the residual
    /// custodial pool balance to the caller. Requires `caller` to be the
    /// administrator; fails with `Unauthorized` otherwise, and with
    /// `RecordNotFound` before initialization. On failure the state is
    /// unchanged.
    pub fn close_config(&mut self, caller: Identity) -> (r: Result<(), ZyuraError>)
        ensures
            final(self)@ == close_config_spec(old(self)@, caller).0,
            r == close_config_spec(old(self)@, caller).1,
    {
        let cfg = match self.config {
            None => { return Err(ZyuraError::RecordNotFound); },
            Some(c) => c,
        };
        if caller != cfg.admin {
            return Err(ZyuraError::Unauthorized);
        }
        let bal = self.balance_of(caller);
        let residual = match bal.checked_add(self.pool_balance) {
            None => { return Err(ZyuraError::BalanceOverflow); },
            Some(v) => v,
        };
        self.config = None;
        self.pool_balance = 0;
        self.balances.insert(caller, residual);
        Ok(())
    }
}

} // verus!
