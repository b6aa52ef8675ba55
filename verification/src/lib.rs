//! Pooled-funding settlement: campaigns collect deposits up to a threshold,
//! the creator converts the pool into an asset once, and every contributor
//! withdraws a pro-rata share exactly once.

pub mod accounts;
pub mod address;
pub mod derivation;
pub mod error;
pub mod instructions;
pub mod ledger;
pub mod lifecycle;
pub mod shares;
pub mod state;
