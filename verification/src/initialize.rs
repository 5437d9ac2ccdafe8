use vstd::prelude::*;
use crate::errors::ZyuraError;
use crate::state::{Config, Identity};
use crate::store::{Protocol, StateView};

verus! {

/// The transition made by `initialize`: creates the singleton config with
/// the pause flag cleared, or fails with `AlreadyInitialized` if the config
/// already exists. First caller wins; no authorization is checked.
pub open spec fn initialize_spec(
    s: StateView,
    admin: Identity,
    usdc_mint: Identity,
    switchboard_program: Identity,
) -> (StateView, Result<(), ZyuraError>) {
    match s.config {
        Some(_) => (s, Err(ZyuraError::AlreadyInitialized)),
        None => (
            StateView {
                config: Some(
                    Config { admin, usdc_mint, switchboard_program, paused: false },
                ),
                ..s
            },
            Ok(()),
        ),
    }
}

impl Protocol {
    /// Creates the protocol's singleton config. Fails with
    /// `AlreadyInitialized` if one exists; the state is then unchanged.
    pub fn initialize(
        &mut self,
        admin: Identity,
        usdc_mint: Identity,
        switchboard_program: Identity,
    ) -> (r: Result<(), ZyuraError>)
        ensures
            final(self)@ == initialize_spec(old(self)@, admin, usdc_mint, switchboard_program).0,
            r == initialize_spec(old(self)@, admin, usdc_mint, switchboard_program).1,
    {
        match self.config {
            Some(_) => Err(ZyuraError::AlreadyInitialized),
            None => {
                self.config = Some(
                    Config { admin, usdc_mint, switchboard_program, paused: false },
                );
                Ok(())
            },
        }
    }
}

} // verus!
