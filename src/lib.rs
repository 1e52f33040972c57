//! Floating point values that are checked against a validity rule, such as
//! "not NaN" or "finite", whenever one is made.
//!
//! A float is held as its IEEE 754 bit pattern (`u32` for binary32, `u64`
//! for binary64), so that every rule on it can be stated and proved over
//! plain integers.

pub mod bits;
pub mod checkers;
pub mod noisy;
pub mod types;
