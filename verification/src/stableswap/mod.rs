//! A two-token StableSwap pool (Curve invariant for n = 2).
pub mod constants;
pub mod errors;
pub mod math;
pub mod state;
pub mod instructions;
pub mod laws;
