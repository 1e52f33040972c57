use vstd::prelude::*;

use crate::bits::{order_key, FloatBits};

verus! {

/// A rule that decides which floating point values are *valid*.
///
/// NaN is invalid under every rule; a rule may refuse more (infinities, for
/// instance). A rule also says whether it is meant to be enforced in every
/// build, or in debug builds only, where the cost of the check is accepted.
pub trait FloatChecker<F: FloatBits> {
    /// The value is valid under this rule.
    spec fn spec_check(value: F) -> bool;

    /// The rule is enforced in every build, not in debug builds only.
    spec fn spec_always_enforced() -> bool;

    /// No rule admits NaN.
    proof fn lemma_rejects_nan(value: F)
        ensures
            value.spec_is_nan() ==> !Self::spec_check(value),
    ;

    /// Returns `true` if and only if `value` is valid under this rule.
    fn check(value: F) -> (r: bool)
        ensures
            r == Self::spec_check(value),
    ;

    /// Whether the rule is enforced in every build.
    fn always_enforced() -> (r: bool)
        ensures
            r == Self::spec_always_enforced(),
    ;
}

/// Admits every value but NaN and the two infinities. Enforced in every build.
#[derive(Clone, Copy, Debug)]
pub struct FiniteChecker;

/// Admits every value but NaN; infinities are valid. Enforced in debug
/// builds only.
#[derive(Clone, Copy, Debug)]
pub struct NumChecker;

impl<F: FloatBits> FloatChecker<F> for FiniteChecker {
    open spec fn spec_check(value: F) -> bool {
        !value.spec_is_nan() && !value.spec_is_infinite()
    }

    open spec fn spec_always_enforced() -> bool {
        true
    }

    proof fn lemma_rejects_nan(value: F) {
    }

    fn check(value: F) -> (r: bool) {
        !value.is_nan() && !value.is_infinite()
    }

    fn always_enforced() -> (r: bool) {
        true
    }
}

impl<F: FloatBits> FloatChecker<F> for NumChecker {
    open spec fn spec_check(value: F) -> bool {
        !value.spec_is_nan()
    }

    open spec fn spec_always_enforced() -> bool {
        false
    }

    proof fn lemma_rejects_nan(value: F) {
    }

    fn check(value: F) -> (r: bool) {
        !value.is_nan()
    }

    fn always_enforced() -> (r: bool) {
        false
    }
}

/// Under every rule NaN is invalid; under the finite rule both infinities
/// are invalid, under the non-NaN rule both are valid.
pub proof fn lemma_nan_and_infinities<F: FloatBits, C: FloatChecker<F>>(nan: F)
    requires
        nan.spec_is_nan(),
    ensures
        !C::spec_check(nan),
        !<FiniteChecker as FloatChecker<F>>::spec_check(F::spec_infinity()),
        !<FiniteChecker as FloatChecker<F>>::spec_check(F::spec_infinity().spec_negate()),
        <NumChecker as FloatChecker<F>>::spec_check(F::spec_infinity()),
        <NumChecker as FloatChecker<F>>::spec_check(F::spec_infinity().spec_negate()),
{
    C::lemma_rejects_nan(nan);
    F::lemma_constants();
    let inf = F::spec_infinity();
    inf.lemma_classes();
    inf.lemma_negate();
    inf.spec_negate().lemma_classes();
}

/// Every value that is neither NaN nor infinite is valid under both
/// standard rules.
pub proof fn lemma_finite_values_valid<F: FloatBits>(value: F)
    requires
        !value.spec_is_nan(),
        !value.spec_is_infinite(),
    ensures
        <FiniteChecker as FloatChecker<F>>::spec_check(value),
        <NumChecker as FloatChecker<F>>::spec_check(value),
{
}

/// A value that lies between two values valid under a standard rule is
/// valid under it as well.
pub proof fn lemma_between_valid<F: FloatBits>(low: F, x: F, high: F)
    requires
        order_key(low) <= order_key(x) <= order_key(high),
    ensures
        <NumChecker as FloatChecker<F>>::spec_check(low)
            && <NumChecker as FloatChecker<F>>::spec_check(high)
            ==> <NumChecker as FloatChecker<F>>::spec_check(x),
        <FiniteChecker as FloatChecker<F>>::spec_check(low)
            && <FiniteChecker as FloatChecker<F>>::spec_check(high)
            ==> <FiniteChecker as FloatChecker<F>>::spec_check(x),
{
    low.lemma_classes();
    x.lemma_classes();
    high.lemma_classes();
}

/// Flipping the sign keeps a value valid under both standard rules.
pub proof fn lemma_negation_valid<F: FloatBits>(value: F)
    ensures
        <NumChecker as FloatChecker<F>>::spec_check(value) ==> <NumChecker as FloatChecker<
            F,
        >>::spec_check(value.spec_negate()),
        <FiniteChecker as FloatChecker<F>>::spec_check(value) ==> <FiniteChecker as FloatChecker<
            F,
        >>::spec_check(value.spec_negate()),
{
    value.lemma_classes();
    value.lemma_negate();
    value.spec_negate().lemma_classes();
}

} // verus!
