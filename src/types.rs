use vstd::prelude::*;

use crate::bits::FloatBits;
use crate::checkers::{FiniteChecker, FloatChecker, NumChecker};
use crate::noisy::NoisyFloat;

verus! {

/// A binary32 value that is not NaN.
pub type N32 = NoisyFloat<u32, NumChecker>;

/// A binary64 value that is not NaN.
pub type N64 = NoisyFloat<u64, NumChecker>;

/// A finite binary32 value.
pub type R32 = NoisyFloat<u32, FiniteChecker>;

/// A finite binary64 value.
pub type R64 = NoisyFloat<u64, FiniteChecker>;

/// Wraps a binary32 pattern that is not NaN.
pub fn n32(value: u32) -> (r: N32)
    requires
        !value.spec_is_nan(),
    ensures
        r@ == value,
{
    N32::new(value)
}

/// Wraps a binary64 pattern that is not NaN.
pub fn n64(value: u64) -> (r: N64)
    requires
        !value.spec_is_nan(),
    ensures
        r@ == value,
{
    N64::new(value)
}

/// Wraps a finite binary32 pattern.
pub fn r32(value: u32) -> (r: R32)
    requires
        !value.spec_is_nan(),
        !value.spec_is_infinite(),
    ensures
        r@ == value,
{
    R32::new(value)
}

/// Wraps a finite binary64 pattern.
pub fn r64(value: u64) -> (r: R64)
    requires
        !value.spec_is_nan(),
        !value.spec_is_infinite(),
    ensures
        r@ == value,
{
    R64::new(value)
}

/// `+0.0` is valid under both standard rules.
proof fn lemma_zero_valid<F: FloatBits>()
    ensures
        <NumChecker as FloatChecker<F>>::spec_check(F::spec_positive_zero()),
        <FiniteChecker as FloatChecker<F>>::spec_check(F::spec_positive_zero()),
{
    F::lemma_constants();
    F::spec_positive_zero().lemma_classes();
}

impl Default for NoisyFloat<u32, NumChecker> {
    fn default() -> (r: Self)
        ensures
            r@ == 0u32,
    {
        proof {
            lemma_zero_valid::<u32>();
        }
        Self::zero()
    }
}

impl Default for NoisyFloat<u64, NumChecker> {
    fn default() -> (r: Self)
        ensures
            r@ == 0u64,
    {
        proof {
            lemma_zero_valid::<u64>();
        }
        Self::zero()
    }
}

impl Default for NoisyFloat<u32, FiniteChecker> {
    fn default() -> (r: Self)
        ensures
            r@ == 0u32,
    {
        proof {
            lemma_zero_valid::<u32>();
        }
        Self::zero()
    }
}

impl Default for NoisyFloat<u64, FiniteChecker> {
    fn default() -> (r: Self)
        ensures
            r@ == 0u64,
    {
        proof {
            lemma_zero_valid::<u64>();
        }
        Self::zero()
    }
}

} // verus!
