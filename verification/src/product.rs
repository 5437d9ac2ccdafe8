use vstd::prelude::*;
use crate::errors::ZyuraError;
use crate::state::{Identity, Product};
use crate::store::{Protocol, StateView};

verus! {

/// The transition made by `create_product`: while the protocol is not
/// paused, creates an active product under a fresh id. Product creation is
/// open: deliberately, no admin check is made.
pub open spec fn create_product_spec(
    s: StateView,
    product_id: u64,
    delay_threshold_minutes: u32,
    coverage_amount: u64,
    premium_rate_bps: u16,
    claim_window_hours: u32,
) -> (StateView, Result<(), ZyuraError>) {
    match s.config {
        None => (s, Err(ZyuraError::RecordNotFound)),
        Some(cfg) => {
            if cfg.paused {
                (s, Err(ZyuraError::ProtocolPaused))
            } else if s.products.contains_key(product_id) {
                (s, Err(ZyuraError::RecordExists))
            } else {
                (
                    StateView {
                        products: s.products.insert(
                            product_id,
                            Product {
                                id: product_id,
                                delay_threshold_minutes,
                                coverage_amount,
                                premium_rate_bps,
                                claim_window_hours,
                                active: true,
                            },
                        ),
                        ..s
                    },
                    Ok(()),
                )
            }
        },
    }
}

/// The transition made by `update_product`: only the administrator, while
/// the protocol is not paused, may overwrite the four pricing fields of an
/// existing product. The `active` flag is untouched.
pub open spec fn update_product_spec(
    s: StateView,
    caller: Identity,
    product_id: u64,
    delay_threshold_minutes: u32,
    coverage_amount: u64,
    premium_rate_bps: u16,
    claim_window_hours: u32,
) -> (StateView, Result<(), ZyuraError>) {
    match s.config {
        None => (s, Err(ZyuraError::RecordNotFound)),
        Some(cfg) => {
            if !s.products.contains_key(product_id) {
                (s, Err(ZyuraError::RecordNotFound))
            } else if cfg.paused {
                (s, Err(ZyuraError::ProtocolPaused))
            } else if caller != cfg.admin {
                (s, Err(ZyuraError::Unauthorized))
            } else {
                (
                    StateView {
                        products: s.products.insert(
                            product_id,
                            Product {
                                delay_threshold_minutes,
                                coverage_amount,
                                premium_rate_bps,
                                claim_window_hours,
                                ..s.products[product_id]
                            },
                        ),
                        ..s
                    },
                    Ok(()),
                )
            }
        },
    }
}

impl Protocol {
    /// Creates an insurance product with the given coverage terms, initially
    /// active. Fails with `ProtocolPaused` while paused, `RecordExists` if
    /// the id is already used, and `RecordNotFound` before initialization.
    /// On failure the state is unchanged.
    pub fn create_product(
        &mut self,
        product_id: u64,
        delay_threshold_minutes: u32,
        coverage_amount: u64,
        premium_rate_bps: u16,
        claim_window_hours: u32,
    ) -> (r: Result<(), ZyuraError>)
        ensures
            final(self)@ == create_product_spec(
                old(self)@,
                product_id,
                delay_threshold_minutes,
                coverage_amount,
                premium_rate_bps,
                claim_window_hours,
            ).0,
            r == create_product_spec(
                old(self)@,
                product_id,
                delay_threshold_minutes,
                coverage_amount,
                premium_rate_bps,
                claim_window_hours,
            ).1,
    {
        let cfg = match self.config {
            None => { return Err(ZyuraError::RecordNotFound); },
            Some(c) => c,
        };
        if cfg.paused {
            return Err(ZyuraError::ProtocolPaused);
        }
        if self.products.contains_key(&product_id) {
            return Err(ZyuraError::RecordExists);
        }
        self.products.insert(
            product_id,
            Product {
                id: product_id,
                delay_threshold_minutes,
                coverage_amount,
                premium_rate_bps,
                claim_window_hours,
                active: true,
            },
        );
        Ok(())
    }

    /// Overwrites the coverage terms of an existing product, leaving its
    /// `active` flag as it was. Fails with `RecordNotFound` for a missing
    /// product or config, `ProtocolPaused` while paused, and `Unauthorized`
    /// unless the caller is the administrator. On failure the state is
    /// unchanged.
    pub fn update_product(
        &mut self,
        caller: Identity,
        product_id: u64,
        delay_threshold_minutes: u32,
        coverage_amount: u64,
        premium_rate_bps: u16,
        claim_window_hours: u32,
    ) -> (r: Result<(), ZyuraError>)
        ensures
            final(self)@ == update_product_spec(
                old(self)@,
                caller,
                product_id,
                delay_threshold_minutes,
                coverage_amount,
                premium_rate_bps,
                claim_window_hours,
            ).0,
            r == update_product_spec(
                old(self)@,
                caller,
                product_id,
                delay_threshold_minutes,
                coverage_amount,
                premium_rate_bps,
                claim_window_hours,
            ).1,
    {
        let cfg = match self.config {
            None => { return Err(ZyuraError::RecordNotFound); },
            Some(c) => c,
        };
        let prev = match self.products.get(&product_id) {
            None => { return Err(ZyuraError::RecordNotFound); },
            Some(p) => *p,
        };
        if cfg.paused {
            return Err(ZyuraError::ProtocolPaused);
        }
        if caller != cfg.admin {
            return Err(ZyuraError::Unauthorized);
        }
        self.products.insert(
            product_id,
            Product {
                delay_threshold_minutes,
                coverage_amount,
                premium_rate_bps,
                claim_window_hours,
                ..prev
            },
        );
        Ok(())
    }
}

} // verus!
