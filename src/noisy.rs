use vstd::prelude::*;

use core::cmp::Ordering;
use core::marker::PhantomData;

use crate::bits::{key_of, order_key, FloatBits};
use crate::checkers::FloatChecker;

verus! {

/// A floating point number restricted to the values that the checker `C`
/// admits.
///
/// `F` is the bit pattern of the underlying float (`u32` or `u64`). The
/// stored value is valid under `C` at all times; no operation hands out a
/// wrapper around an invalid value. Where a value may be invalid, the `try_`
/// operations return `None` instead.
///
/// Values compare as the floats they stand for: NaN being excluded, the
/// order is total, and `+0.0` equals `-0.0`.
#[derive(Debug)]
pub struct NoisyFloat<F: FloatBits, C: FloatChecker<F>> {
    value: F,
    checker: PhantomData<C>,
}

impl<F: FloatBits, C: FloatChecker<F>> View for NoisyFloat<F, C> {
    type V = F;

    closed spec fn view(&self) -> F {
        self.value
    }
}

impl<F: FloatBits, C: FloatChecker<F>> NoisyFloat<F, C> {
    #[verifier::type_invariant]
    spec fn inv(self) -> bool {
        C::spec_check(self.value)
    }

    /// Two values are equal when the floats they stand for are: `+0.0`
    /// equals `-0.0`, and otherwise equal values have the same pattern.
    pub open spec fn spec_eq(self, other: Self) -> bool {
        order_key(self@) == order_key(other@)
    }

    /// The total order on values, as the floats they stand for compare.
    pub open spec fn spec_cmp(self, other: Self) -> Ordering {
        if order_key(self@) < order_key(other@) {
            Ordering::Less
        } else if order_key(self@) == order_key(other@) {
            Ordering::Equal
        } else {
            Ordering::Greater
        }
    }

    /// The smaller of two values; the first when they are equal.
    pub open spec fn spec_min(self, other: Self) -> Self {
        if order_key(self@) <= order_key(other@) {
            self
        } else {
            other
        }
    }

    /// The larger of two values; the second when they are equal.
    pub open spec fn spec_max(self, other: Self) -> Self {
        if order_key(self@) <= order_key(other@) {
            other
        } else {
            self
        }
    }

    /// What the value hashes as: `+0.0` for either zero, the value itself
    /// otherwise.
    pub open spec fn spec_hash_bits(self) -> F {
        if order_key(self@) == 0 {
            F::spec_positive_zero()
        } else {
            self@
        }
    }

    /// Wraps `value`, which must be valid under `C`.
    pub fn new(value: F) -> (r: Self)
        requires
            C::spec_check(value),
        ensures
            r@ == value,
    {
        NoisyFloat { value, checker: PhantomData }
    }

    /// Wraps `value` if it is valid under `C`, and returns `None` otherwise.
    pub fn try_new(value: F) -> (r: Option<Self>)
        ensures
            r.is_some() == C::spec_check(value),
            r matches Some(x) ==> x@ == value,
    {
        if C::check(value) {
            Some(NoisyFloat { value, checker: PhantomData })
        } else {
            None
        }
    }

    /// Wraps a copy of `*value`, which must be valid under `C`.
    pub fn borrowed(value: &F) -> (r: Self)
        requires
            C::spec_check(*value),
        ensures
            r@ == *value,
    {
        Self::new(*value)
    }

    /// Wraps a copy of `*value` if it is valid under `C`.
    pub fn try_borrowed(value: &F) -> (r: Option<Self>)
        ensures
            r.is_some() == C::spec_check(*value),
            r matches Some(x) ==> x@ == *value,
    {
        Self::try_new(*value)
    }

    /// Wraps a copy of `*value`, which must be valid under `C`, and leaves
    /// `*value` as it was.
    pub fn borrowed_mut(value: &mut F) -> (r: Self)
        requires
            C::spec_check(*old(value)),
        ensures
            r@ == *old(value),
            *final(value) == *old(value),
    {
        Self::new(*value)
    }

    /// Wraps a copy of `*value` if it is valid under `C`, and leaves
    /// `*value` as it was.
    pub fn try_borrowed_mut(value: &mut F) -> (r: Option<Self>)
        ensures
            r.is_some() == C::spec_check(*old(value)),
            r matches Some(x) ==> x@ == *old(value),
            *final(value) == *old(value),
    {
        Self::try_new(*value)
    }

    /// The underlying value, exactly as it was stored.
    pub fn raw(self) -> (r: F)
        ensures
            r == self@,
            C::spec_check(r),
    {
        proof {
            use_type_invariant(self);
        }
        self.value
    }

    /// Compares two values in the total order of the floats they stand for.
    pub fn total_cmp(&self, other: &Self) -> (r: Ordering)
        ensures
            r == self.spec_cmp(*other),
    {
        let a = key_of(&self.value);
        let b = key_of(&other.value);
        if a < b {
            Ordering::Less
        } else if a == b {
            Ordering::Equal
        } else {
            Ordering::Greater
        }
    }

    /// The smaller of two values; `self` when they are equal.
    pub fn min(self, other: Self) -> (r: Self)
        ensures
            r == self.spec_min(other),
    {
        if key_of(&self.value) <= key_of(&other.value) {
            self
        } else {
            other
        }
    }

    /// The larger of two values; `other` when they are equal.
    pub fn max(self, other: Self) -> (r: Self)
        ensures
            r == self.spec_max(other),
    {
        if key_of(&self.value) <= key_of(&other.value) {
            other
        } else {
            self
        }
    }

    /// The pattern that the value hashes as. Equal values have the same
    /// pattern: both zeros hash as `+0.0`.
    pub fn hash_bits(&self) -> (r: F)
        ensures
            r == self.spec_hash_bits(),
    {
        if key_of(&self.value) == 0 {
            F::positive_zero()
        } else {
            self.value
        }
    }

    /// The value with its sign flipped, which must be valid under `C`.
    pub fn neg(self) -> (r: Self)
        requires
            C::spec_check(self@.spec_negate()),
        ensures
            r@ == self@.spec_negate(),
            order_key(r@) == -order_key(self@),
    {
        proof {
            self@.lemma_negate();
        }
        Self::new(self.value.negate())
    }

    /// `+0.0`, which must be valid under `C`.
    pub fn zero() -> (r: Self)
        requires
            C::spec_check(F::spec_positive_zero()),
        ensures
            r@ == F::spec_positive_zero(),
    {
        Self::new(F::positive_zero())
    }

    /// `+∞`, which must be valid under `C`.
    pub fn infinity() -> (r: Self)
        requires
            C::spec_check(F::spec_infinity()),
        ensures
            r@ == F::spec_infinity(),
    {
        Self::new(F::infinity())
    }

    /// `-∞`, which must be valid under `C`.
    pub fn neg_infinity() -> (r: Self)
        requires
            C::spec_check(F::spec_infinity().spec_negate()),
        ensures
            r@ == F::spec_infinity().spec_negate(),
    {
        Self::new(F::infinity().negate())
    }

    /// The machine epsilon of the float type, which must be valid under `C`.
    pub fn epsilon() -> (r: Self)
        requires
            C::spec_check(F::spec_epsilon()),
        ensures
            r@ == F::spec_epsilon(),
    {
        Self::new(F::epsilon())
    }

    /// Wraps a value drawn from the range `[low, high]`. Returns `Some` if and
    /// only if `sample` lies in that range and is valid under `C`; under the
    /// two standard rules every sample in the range is valid.
    pub fn from_sample(low: Self, high: Self, sample: F) -> (r: Option<Self>)
        ensures
            r.is_some() == (order_key(low@) <= order_key(sample) <= order_key(high@)
                && C::spec_check(sample)),
            r matches Some(x) ==> x@ == sample,
    {
        let k = key_of(&sample);
        if key_of(&low.value) <= k && k <= key_of(&high.value) {
            Self::try_new(sample)
        } else {
            None
        }
    }
}

/// The error of a conversion into a [`NoisyFloat`]: the value is not valid
/// under the checker.
#[derive(Clone, Copy, Debug, PartialEq, Eq, Structural)]
pub struct InvalidFloat<F> {
    /// The value that was refused.
    pub value: F,
}

impl<F: FloatBits, C: FloatChecker<F>> NoisyFloat<F, C> {
    /// Wraps `value` if it is valid under `C`, and returns the refused value
    /// otherwise.
    pub fn checked_from(value: F) -> (r: Result<Self, InvalidFloat<F>>)
        ensures
            r is Ok == C::spec_check(value),
            r matches Ok(x) ==> x@ == value,
            r matches Err(e) ==> e.value == value,
    {
        match Self::try_new(value) {
            Some(x) => Ok(x),
            None => Err(InvalidFloat { value }),
        }
    }
}

impl<F: FloatBits, C: FloatChecker<F>> Clone for NoisyFloat<F, C> {
    fn clone(&self) -> (r: Self)
        ensures
            r == *self,
    {
        *self
    }
}

impl<F: FloatBits, C: FloatChecker<F>> Copy for NoisyFloat<F, C> {

}

impl<F: FloatBits, C: FloatChecker<F>> PartialEq for NoisyFloat<F, C> {
    fn eq(&self, other: &Self) -> (r: bool) {
        key_of(&self.value) == key_of(&other.value)
    }
}

impl<F: FloatBits, C: FloatChecker<F>> vstd::std_specs::cmp::PartialEqSpecImpl for NoisyFloat<F, C> {
    open spec fn obeys_eq_spec() -> bool {
        true
    }

    open spec fn eq_spec(&self, other: &Self) -> bool {
        self.spec_eq(*other)
    }
}

impl<F: FloatBits, C: FloatChecker<F>> Eq for NoisyFloat<F, C> {

}

impl<F: FloatBits, C: FloatChecker<F>> PartialOrd for NoisyFloat<F, C> {
    fn partial_cmp(&self, other: &Self) -> (r: Option<Ordering>) {
        Some(self.total_cmp(other))
    }
}

impl<F: FloatBits, C: FloatChecker<F>> vstd::std_specs::cmp::PartialOrdSpecImpl for NoisyFloat<F, C> {
    open spec fn obeys_partial_cmp_spec() -> bool {
        true
    }

    open spec fn partial_cmp_spec(&self, other: &Self) -> Option<Ordering> {
        Some(self.spec_cmp(*other))
    }
}

/// The order on values is total: every two values compare, a value equals
/// itself, the order agrees with `==` and reverses when the operands swap,
/// and it is transitive.
pub proof fn lemma_total_order<F: FloatBits, C: FloatChecker<F>>(
    a: NoisyFloat<F, C>,
    b: NoisyFloat<F, C>,
    c: NoisyFloat<F, C>,
)
    ensures
        a.spec_cmp(a) == Ordering::Equal,
        (a.spec_cmp(b) == Ordering::Equal) == a.spec_eq(b),
        (a.spec_cmp(b) == Ordering::Less) == (b.spec_cmp(a) == Ordering::Greater),
        a.spec_cmp(b) != Ordering::Greater && b.spec_cmp(c) != Ordering::Greater ==> a.spec_cmp(c)
            != Ordering::Greater,
        a.spec_cmp(b) == Ordering::Less && b.spec_cmp(c) != Ordering::Greater ==> a.spec_cmp(c)
            == Ordering::Less,
{
}

/// `min` and `max` follow the order: each returns one of its operands, the
/// minimum is no greater and the maximum no smaller than either, and between
/// equal operands `min` keeps the first and `max` the second.
pub proof fn lemma_min_max<F: FloatBits, C: FloatChecker<F>>(
    a: NoisyFloat<F, C>,
    b: NoisyFloat<F, C>,
)
    ensures
        a.spec_min(b) == a || a.spec_min(b) == b,
        a.spec_max(b) == a || a.spec_max(b) == b,
        a.spec_min(b).spec_cmp(a) != Ordering::Greater,
        a.spec_min(b).spec_cmp(b) != Ordering::Greater,
        a.spec_max(b).spec_cmp(a) != Ordering::Less,
        a.spec_max(b).spec_cmp(b) != Ordering::Less,
        a.spec_min(b).spec_eq(b.spec_min(a)),
        a.spec_max(b).spec_eq(b.spec_max(a)),
        a.spec_eq(b) ==> a.spec_min(b) == a && a.spec_max(b) == b,
{
}

/// Equal values hash alike.
pub proof fn lemma_equal_values_hash_alike<F: FloatBits, C: FloatChecker<F>>(
    a: NoisyFloat<F, C>,
    b: NoisyFloat<F, C>,
)
    requires
        a.spec_eq(b),
    ensures
        a.spec_hash_bits() == b.spec_hash_bits(),
{
    if order_key(a@) != 0 {
        F::lemma_sign_magnitude(a@, b@);
    }
}

/// `+0.0` and `-0.0` are equal and hash alike, as `+0.0`.
pub proof fn lemma_signed_zeros<F: FloatBits, C: FloatChecker<F>>(
    pos: NoisyFloat<F, C>,
    neg: NoisyFloat<F, C>,
)
    requires
        pos@ == F::spec_positive_zero(),
        neg@ == F::spec_positive_zero().spec_negate(),
    ensures
        pos.spec_eq(neg),
        pos.spec_hash_bits() == F::spec_positive_zero(),
        neg.spec_hash_bits() == F::spec_positive_zero(),
{
    F::lemma_constants();
    F::spec_positive_zero().lemma_negate();
}

} // verus!
