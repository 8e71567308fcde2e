//! Accounting core of a constant-product automated market maker.
//!
//! The library holds the pool math and state-transition engine: the curve
//! calculator (constant-product invariant, proportional deposit/withdraw
//! conversion, swap-fee math), the pool's reserve and LP-supply bookkeeping,
//! and the transfer-fee-aware amount reconciliation that runs before and
//! after every token movement. Account derivation, token-transfer execution,
//! and event delivery are the caller's job: the flows here compute exact
//! transfer amounts and state updates from plain values and never perform
//! the movements themselves.

pub mod curve;
pub mod deposit;
pub mod error;
pub mod fees;
pub mod initialize;
pub mod math;
pub mod states;
pub mod swap;
pub mod withdraw;
