//! Pricing engine for a two-asset stable-swap automated market maker.
//!
//! The engine computes the curve invariant `D` from the pooled balances and
//! the amplification coefficient, solves for the post-trade balance of the
//! outgoing asset, applies the trade fee, and converts pool-share tokens to
//! proportional amounts of the underlying assets.  All arithmetic is checked
//! 256-bit arithmetic: every operation that could overflow, underflow or
//! divide by zero makes the whole computation return an absent result instead
//! of wrapping or panicking.

pub mod bn;
pub mod curve;
pub mod error;
