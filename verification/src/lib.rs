//! Parametric flight-delay insurance protocol: a verified state machine over
//! product, policy, and liquidity-provider records.
//!
//! An administrator defines insurable products, liquidity providers fund a
//! shared risk pool, customers purchase coverage by paying a premium and
//! receive a non-transferable proof-of-insurance token, and the administrator
//! triggers payouts when a qualifying delay is confirmed.
//!
//! Every public operation is a single atomic transition: it either fully
//! succeeds (all record mutations and all delegated balance movements commit)
//! or fails with a specific error and leaves the state untouched. The
//! custodial balances of the settlement asset are part of the modelled state,
//! so the success or failure of a delegated transfer is decided, and proved,
//! inside the transition itself.

pub mod errors;
pub mod state;
pub mod store;
pub mod initialize;
pub mod admin;
pub mod product;
pub mod liquidity;
pub mod text;
pub mod policy;
pub mod laws;
