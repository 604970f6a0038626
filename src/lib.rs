//! Pooled staking: depositors lock an asset, receive units of a shared
//! pool, and withdraw through time-locked claim receipts. Two flags, for
//! the contract and for the pool, select how withdrawals are paid when
//! either is switched off.
//!
//! `dexter_stake` is the full component; `synth_stake` and `receipt_stake`
//! are simpler ones. `model` states what each operation does over plain
//! values, and `laws` proves what holds across any sequence of them.

pub mod claims;
pub mod countdown;
pub mod dexter_stake;
pub mod error;
pub mod laws;
pub mod model;
pub mod mul_div;
pub mod pool;
pub mod receipt_stake;
pub mod resource;
pub mod route;
pub mod status;
pub mod synth_stake;
