use vstd::prelude::*;

verus! {

/// Sign bit of a binary64 pattern.
pub const F64_SIGN: u64 = 0x8000_0000_0000_0000;

/// Exponent field of a binary64 pattern.
pub const F64_EXP: u64 = 0x7ff0_0000_0000_0000;

/// Fraction field of a binary64 pattern.
pub const F64_FRAC: u64 = 0x000f_ffff_ffff_ffff;

/// Every bit of a binary64 pattern but the sign.
pub const F64_MAG: u64 = 0x7fff_ffff_ffff_ffff;

/// Machine epsilon of binary64, 2^-52.
pub const F64_EPSILON: u64 = 0x3cb0_0000_0000_0000;

/// Sign bit of a binary32 pattern.
pub const F32_SIGN: u32 = 0x8000_0000;

/// Exponent field of a binary32 pattern.
pub const F32_EXP: u32 = 0x7f80_0000;

/// Fraction field of a binary32 pattern.
pub const F32_FRAC: u32 = 0x007f_ffff;

/// Every bit of a binary32 pattern but the sign.
pub const F32_MAG: u32 = 0x7fff_ffff;

/// Machine epsilon of binary32, 2^-23.
pub const F32_EPSILON: u32 = 0x3400_0000;

/// The bit pattern of an IEEE 754 binary floating point number.
///
/// A pattern is read as a sign bit and a magnitude (all the other bits as an
/// unsigned number). IEEE 754 lays out its fields so that, for patterns that
/// are not NaN, a larger magnitude is a larger absolute value; infinity has
/// the largest magnitude of them, and every NaN a larger one still.
pub trait FloatBits: Sized + Copy {
    /// The sign bit is set.
    spec fn spec_is_sign_negative(self) -> bool;

    /// The bits other than the sign, as an unsigned number.
    spec fn spec_magnitude(self) -> nat;

    /// The exponent field is all ones and the fraction is not zero.
    spec fn spec_is_nan(self) -> bool;

    /// The exponent field is all ones and the fraction is zero.
    spec fn spec_is_infinite(self) -> bool;

    /// The magnitude of an infinity.
    spec fn spec_inf_magnitude() -> nat;

    /// The same pattern with the sign bit flipped.
    spec fn spec_negate(self) -> Self;

    /// `+0.0`.
    spec fn spec_positive_zero() -> Self;

    /// `+∞`.
    spec fn spec_infinity() -> Self;

    /// The difference between `1.0` and the next larger number.
    spec fn spec_epsilon() -> Self;

    /// NaN and infinity as magnitudes; a magnitude fits in an `i64`.
    proof fn lemma_classes(self)
        ensures
            self.spec_is_nan() <==> self.spec_magnitude() > Self::spec_inf_magnitude(),
            self.spec_is_infinite() <==> self.spec_magnitude() == Self::spec_inf_magnitude(),
            self.spec_magnitude() < 0x8000_0000_0000_0000,
            Self::spec_inf_magnitude() > 0,
    ;

    /// A pattern is its sign and its magnitude.
    proof fn lemma_sign_magnitude(a: Self, b: Self)
        requires
            a.spec_is_sign_negative() == b.spec_is_sign_negative(),
            a.spec_magnitude() == b.spec_magnitude(),
        ensures
            a == b,
    ;

    /// Negation flips the sign and keeps the magnitude.
    proof fn lemma_negate(self)
        ensures
            self.spec_negate().spec_is_sign_negative() == !self.spec_is_sign_negative(),
            self.spec_negate().spec_magnitude() == self.spec_magnitude(),
    ;

    /// What the named constants are.
    proof fn lemma_constants()
        ensures
            !Self::spec_positive_zero().spec_is_sign_negative(),
            Self::spec_positive_zero().spec_magnitude() == 0,
            !Self::spec_infinity().spec_is_sign_negative(),
            Self::spec_infinity().spec_magnitude() == Self::spec_inf_magnitude(),
            !Self::spec_epsilon().spec_is_sign_negative(),
            0 < Self::spec_epsilon().spec_magnitude() < Self::spec_inf_magnitude(),
    ;

    fn is_sign_negative(&self) -> (r: bool)
        ensures
            r == self.spec_is_sign_negative(),
    ;

    fn magnitude(&self) -> (r: u64)
        ensures
            r as nat == self.spec_magnitude(),
    ;

    fn is_nan(&self) -> (r: bool)
        ensures
            r == self.spec_is_nan(),
    ;

    fn is_infinite(&self) -> (r: bool)
        ensures
            r == self.spec_is_infinite(),
    ;

    fn negate(&self) -> (r: Self)
        ensures
            r == self.spec_negate(),
    ;

    fn positive_zero() -> (r: Self)
        ensures
            r == Self::spec_positive_zero(),
    ;

    fn infinity() -> (r: Self)
        ensures
            r == Self::spec_infinity(),
    ;

    fn epsilon() -> (r: Self)
        ensures
            r == Self::spec_epsilon(),
    ;
}

/// The place of a pattern in the order of the numbers it stands for:
/// minus the magnitude when the sign bit is set, the magnitude otherwise.
/// On patterns that are not NaN, `a < b` as floats exactly when
/// `order_key(a) < order_key(b)`, and `+0.0` and `-0.0` share the key 0.
pub open spec fn order_key<F: FloatBits>(x: F) -> int {
    if x.spec_is_sign_negative() {
        -(x.spec_magnitude() as int)
    } else {
        x.spec_magnitude() as int
    }
}

/// `-∞`.
pub open spec fn spec_neg_infinity<F: FloatBits>() -> F {
    F::spec_infinity().spec_negate()
}

/// `-0.0`.
pub open spec fn spec_negative_zero<F: FloatBits>() -> F {
    F::spec_positive_zero().spec_negate()
}

/// The key of a pattern, computed.
pub fn key_of<F: FloatBits>(x: &F) -> (r: i64)
    ensures
        r as int == order_key(*x),
{
    proof {
        x.lemma_classes();
    }
    let m = x.magnitude() as i64;
    if x.is_sign_negative() {
        -m
    } else {
        m
    }
}

impl FloatBits for u64 {
    open spec fn spec_is_sign_negative(self) -> bool {
        self & F64_SIGN != 0
    }

    open spec fn spec_magnitude(self) -> nat {
        (self & F64_MAG) as nat
    }

    open spec fn spec_is_nan(self) -> bool {
        self & F64_EXP == F64_EXP && self & F64_FRAC != 0
    }

    open spec fn spec_is_infinite(self) -> bool {
        self & F64_EXP == F64_EXP && self & F64_FRAC == 0
    }

    open spec fn spec_inf_magnitude() -> nat {
        F64_EXP as nat
    }

    open spec fn spec_negate(self) -> u64 {
        self ^ F64_SIGN
    }

    open spec fn spec_positive_zero() -> u64 {
        0
    }

    open spec fn spec_infinity() -> u64 {
        F64_EXP
    }

    open spec fn spec_epsilon() -> u64 {
        F64_EPSILON
    }

    proof fn lemma_classes(self) {
        let b = self;
        assert((b & 0x7ff0_0000_0000_0000u64 == 0x7ff0_0000_0000_0000u64 && b
            & 0x000f_ffff_ffff_ffffu64 != 0) <==> (b & 0x7fff_ffff_ffff_ffffu64)
            > 0x7ff0_0000_0000_0000u64) by (bit_vector);
        assert((b & 0x7ff0_0000_0000_0000u64 == 0x7ff0_0000_0000_0000u64 && b
            & 0x000f_ffff_ffff_ffffu64 == 0) <==> (b & 0x7fff_ffff_ffff_ffffu64)
            == 0x7ff0_0000_0000_0000u64) by (bit_vector);
        assert(b & 0x7fff_ffff_ffff_ffffu64 < 0x8000_0000_0000_0000u64) by (bit_vector);
    }

    proof fn lemma_sign_magnitude(a: u64, b: u64) {
        assert(((a & 0x8000_0000_0000_0000u64 != 0) == (b & 0x8000_0000_0000_0000u64 != 0) && a
            & 0x7fff_ffff_ffff_ffffu64 == b & 0x7fff_ffff_ffff_ffffu64) ==> a == b) by (bit_vector);
    }

    proof fn lemma_negate(self) {
        let b = self;
        assert((b ^ 0x8000_0000_0000_0000u64) & 0x8000_0000_0000_0000u64 != 0 <==> !(b
            & 0x8000_0000_0000_0000u64 != 0)) by (bit_vector);
        assert((b ^ 0x8000_0000_0000_0000u64) & 0x7fff_ffff_ffff_ffffu64 == b
            & 0x7fff_ffff_ffff_ffffu64) by (bit_vector);
    }

    proof fn lemma_constants() {
        assert(0u64 & 0x8000_0000_0000_0000u64 == 0) by (bit_vector);
        assert(0u64 & 0x7fff_ffff_ffff_ffffu64 == 0) by (bit_vector);
        assert(0x7ff0_0000_0000_0000u64 & 0x8000_0000_0000_0000u64 == 0) by (bit_vector);
        assert(0x7ff0_0000_0000_0000u64 & 0x7fff_ffff_ffff_ffffu64 == 0x7ff0_0000_0000_0000u64)
            by (bit_vector);
        assert(0x3cb0_0000_0000_0000u64 & 0x8000_0000_0000_0000u64 == 0) by (bit_vector);
        assert(0x3cb0_0000_0000_0000u64 & 0x7fff_ffff_ffff_ffffu64 == 0x3cb0_0000_0000_0000u64)
            by (bit_vector);
    }

    fn is_sign_negative(&self) -> (r: bool) {
        *self & F64_SIGN != 0
    }

    fn magnitude(&self) -> (r: u64) {
        *self & F64_MAG
    }

    fn is_nan(&self) -> (r: bool) {
        *self & F64_EXP == F64_EXP && *self & F64_FRAC != 0
    }

    fn is_infinite(&self) -> (r: bool) {
        *self & F64_EXP == F64_EXP && *self & F64_FRAC == 0
    }

    fn negate(&self) -> (r: u64) {
        *self ^ F64_SIGN
    }

    fn positive_zero() -> (r: u64) {
        0
    }

    fn infinity() -> (r: u64) {
        F64_EXP
    }

    fn epsilon() -> (r: u64) {
        F64_EPSILON
    }
}

impl FloatBits for u32 {
    open spec fn spec_is_sign_negative(self) -> bool {
        self & F32_SIGN != 0
    }

    open spec fn spec_magnitude(self) -> nat {
        (self & F32_MAG) as nat
    }

    open spec fn spec_is_nan(self) -> bool {
        self & F32_EXP == F32_EXP && self & F32_FRAC != 0
    }

    open spec fn spec_is_infinite(self) -> bool {
        self & F32_EXP == F32_EXP && self & F32_FRAC == 0
    }

    open spec fn spec_inf_magnitude() -> nat {
        F32_EXP as nat
    }

    open spec fn spec_negate(self) -> u32 {
        self ^ F32_SIGN
    }

    open spec fn spec_positive_zero() -> u32 {
        0
    }

    open spec fn spec_infinity() -> u32 {
        F32_EXP
    }

    open spec fn spec_epsilon() -> u32 {
        F32_EPSILON
    }

    proof fn lemma_classes(self) {
        let b = self;
        assert((b & 0x7f80_0000u32 == 0x7f80_0000u32 && b & 0x007f_ffffu32 != 0) <==> (b
            & 0x7fff_ffffu32) > 0x7f80_0000u32) by (bit_vector);
        assert((b & 0x7f80_0000u32 == 0x7f80_0000u32 && b & 0x007f_ffffu32 == 0) <==> (b
            & 0x7fff_ffffu32) == 0x7f80_0000u32) by (bit_vector);
        assert(b & 0x7fff_ffffu32 < 0x8000_0000u32) by (bit_vector);
    }

    proof fn lemma_sign_magnitude(a: u32, b: u32) {
        assert(((a & 0x8000_0000u32 != 0) == (b & 0x8000_0000u32 != 0) && a & 0x7fff_ffffu32 == b
            & 0x7fff_ffffu32) ==> a == b) by (bit_vector);
    }

    proof fn lemma_negate(self) {
        let b = self;
        assert((b ^ 0x8000_0000u32) & 0x8000_0000u32 != 0 <==> !(b & 0x8000_0000u32 != 0))
            by (bit_vector);
        assert((b ^ 0x8000_0000u32) & 0x7fff_ffffu32 == b & 0x7fff_ffffu32) by (bit_vector);
    }

    proof fn lemma_constants() {
        assert(0u32 & 0x8000_0000u32 == 0) by (bit_vector);
        assert(0u32 & 0x7fff_ffffu32 == 0) by (bit_vector);
        assert(0x7f80_0000u32 & 0x8000_0000u32 == 0) by (bit_vector);
        assert(0x7f80_0000u32 & 0x7fff_ffffu32 == 0x7f80_0000u32) by (bit_vector);
        assert(0x3400_0000u32 & 0x8000_0000u32 == 0) by (bit_vector);
        assert(0x3400_0000u32 & 0x7fff_ffffu32 == 0x3400_0000u32) by (bit_vector);
    }

    fn is_sign_negative(&self) -> (r: bool) {
        *self & F32_SIGN != 0
    }

    fn magnitude(&self) -> (r: u64) {
        (*self & F32_MAG) as u64
    }

    fn is_nan(&self) -> (r: bool) {
        *self & F32_EXP == F32_EXP && *self & F32_FRAC != 0
    }

    fn is_infinite(&self) -> (r: bool) {
        *self & F32_EXP == F32_EXP && *self & F32_FRAC == 0
    }

    fn negate(&self) -> (r: u32) {
        *self ^ F32_SIGN
    }

    fn positive_zero() -> (r: u32) {
        0
    }

    fn infinity() -> (r: u32) {
        F32_EXP
    }

    fn epsilon() -> (r: u32) {
        F32_EPSILON
    }
}

} // verus!
