use std::cmp::Ordering;
use std::mem::{align_of, size_of};

use noisy_float::checkers::{FiniteChecker, FloatChecker, NumChecker};
use noisy_float::noisy::InvalidFloat;
use noisy_float::types::{n32, n64, r32, r64, N32, N64, R32, R64};

fn b64(x: f64) -> u64 {
    x.to_bits()
}

fn b32(x: f32) -> u32 {
    x.to_bits()
}

#[test]
fn smoke_test() {
    assert_ne!(n64(b64(3.0)), n64(b64(2.9)));
    assert!(r64(b64(1.0)) < r64(b64(2.0)));
    assert_eq!(n64(b64(3.0)).neg(), n64(b64(-3.0)));
    assert_eq!(R64::try_new(b64(f64::NEG_INFINITY)), None);
    assert_eq!(N64::try_new(b64(f64::NAN)), None);
    assert_eq!(R64::try_new(b64(f64::NAN)), None);
    assert_eq!(N64::try_borrowed(&b64(f64::NAN)), None);
    assert_eq!(N64::try_borrowed_mut(&mut b64(f64::NAN)), None);
}

#[test]
fn ensure_layout() {
    assert_eq!(size_of::<N32>(), size_of::<f32>());
    assert_eq!(align_of::<N32>(), align_of::<f32>());

    assert_eq!(size_of::<N64>(), size_of::<f64>());
    assert_eq!(align_of::<N64>(), align_of::<f64>());
}

#[test]
fn borrowed_casts() {
    assert_eq!(R64::borrowed(&b64(3.14)).raw(), b64(3.14));
    assert_eq!(
        N64::borrowed(&[b64(f64::INFINITY); 2][0]).raw(),
        b64(f64::INFINITY)
    );
    let mut v = b64(2.72);
    assert_eq!(N64::borrowed_mut(&mut v).raw(), b64(2.72));
    assert_eq!(v, b64(2.72));
}

#[test]
fn resolves_min_max() {
    assert_eq!(r64(b64(1.0)).min(r64(b64(3.0))), r64(b64(1.0)));
    assert_eq!(r64(b64(1.0)).max(r64(b64(3.0))), r64(b64(3.0)));
}

#[test]
fn epsilon() {
    assert_eq!(R32::epsilon().raw(), b32(f32::EPSILON));
    assert_eq!(R64::epsilon().raw(), b64(f64::EPSILON));
}

#[test]
fn test_try_into() {
    let _: R64 = R64::checked_from(b64(1.0)).unwrap();
    let _ = R64::checked_from(b64(f64::INFINITY)).unwrap_err();
}

#[test]
fn test_hash() {
    assert_eq!(r64(b64(10.3)).hash_bits(), b64(10.3));
    assert_ne!(r64(b64(10.3)).hash_bits(), b64(10.4));
    assert_eq!(r32(b32(10.3)).hash_bits(), b32(10.3));
    assert_ne!(r32(b32(10.3)).hash_bits(), b32(10.4));

    assert_eq!(N64::infinity().hash_bits(), b64(f64::INFINITY));
    assert_eq!(N64::neg_infinity().hash_bits(), b64(f64::NEG_INFINITY));

    // positive and negative zero should have the same hashes
    assert_eq!(r64(b64(0.0)).hash_bits(), b64(0.0));
    assert_eq!(r64(b64(-0.0)).hash_bits(), b64(0.0));
    assert_eq!(r32(b32(0.0)).hash_bits(), b32(0.0));
    assert_eq!(r32(b32(-0.0)).hash_bits(), b32(0.0));
}

#[test]
fn new_then_raw_gives_back_the_same_bits() {
    let values = [
        0.0,
        -0.0,
        1.0,
        -1.5,
        3.14,
        f64::MAX,
        f64::MIN,
        f64::MIN_POSITIVE,
        5e-324,
        -5e-324,
    ];
    for v in values {
        assert_eq!(R64::new(b64(v)).raw(), b64(v));
        assert_eq!(N64::new(b64(v)).raw(), b64(v));
    }
    for v in [0.0f32, -0.0, 2.5, f32::MAX, f32::MIN, 1e-45] {
        assert_eq!(R32::new(b32(v)).raw(), b32(v));
        assert_eq!(N32::new(b32(v)).raw(), b32(v));
    }
}

#[test]
fn nan_is_refused_by_every_checker() {
    let nans64 = [
        b64(f64::NAN),
        0x7ff0_0000_0000_0001,
        0xfff8_0000_0000_0000,
        0xffff_ffff_ffff_ffff,
    ];
    for v in nans64 {
        assert!(!<FiniteChecker as FloatChecker<u64>>::check(v));
        assert!(!<NumChecker as FloatChecker<u64>>::check(v));
        assert_eq!(N64::try_new(v), None);
        assert_eq!(R64::try_new(v), None);
    }
    let nans32 = [b32(f32::NAN), 0x7f80_0001, 0xffc0_0000, 0xffff_ffff];
    for v in nans32 {
        assert!(!<FiniteChecker as FloatChecker<u32>>::check(v));
        assert!(!<NumChecker as FloatChecker<u32>>::check(v));
        assert_eq!(N32::try_new(v), None);
        assert_eq!(R32::try_new(v), None);
    }
}

#[test]
fn infinities_depend_on_the_checker() {
    for v in [b64(f64::INFINITY), b64(f64::NEG_INFINITY)] {
        assert!(!<FiniteChecker as FloatChecker<u64>>::check(v));
        assert!(<NumChecker as FloatChecker<u64>>::check(v));
    }
    for v in [b32(f32::INFINITY), b32(f32::NEG_INFINITY)] {
        assert!(!<FiniteChecker as FloatChecker<u32>>::check(v));
        assert!(<NumChecker as FloatChecker<u32>>::check(v));
    }
    assert!(<FiniteChecker as FloatChecker<u64>>::always_enforced());
    assert!(!<NumChecker as FloatChecker<u64>>::always_enforced());
}

#[test]
fn try_new_scenarios() {
    assert_eq!(N64::try_new(b64(f64::NAN)), None);
    assert_eq!(R64::try_new(b64(f64::NEG_INFINITY)), None);
    let neg_inf = N64::try_new(b64(f64::NEG_INFINITY)).unwrap();
    assert_eq!(neg_inf, N64::neg_infinity());
    assert_eq!(neg_inf.raw(), b64(f64::NEG_INFINITY));
}

#[test]
fn order_matches_native_floats() {
    let values = [
        f64::NEG_INFINITY,
        f64::MIN,
        -1.0,
        -5e-324,
        -0.0,
        0.0,
        5e-324,
        f64::MIN_POSITIVE,
        1.0,
        1.5,
        f64::MAX,
        f64::INFINITY,
    ];
    for &a in values.iter() {
        for &b in values.iter() {
            let x = n64(b64(a));
            let y = n64(b64(b));
            let native = a.partial_cmp(&b).unwrap();
            assert_eq!(x.total_cmp(&y), native);
            assert_eq!(x.partial_cmp(&y), Some(native));
            assert_eq!(x == y, a == b);
            assert_eq!(x < y, a < b);
        }
    }
    assert_eq!(n32(b32(-2.0)).total_cmp(&n32(b32(1.0))), Ordering::Less);
    assert_eq!(n32(b32(f32::INFINITY)).total_cmp(&n32(b32(f32::MAX))), Ordering::Greater);
}

#[test]
fn min_max_keep_the_order_on_ties() {
    let pos = r64(b64(0.0));
    let neg = r64(b64(-0.0));
    assert_eq!(pos.min(neg).raw(), b64(0.0));
    assert_eq!(neg.min(pos).raw(), b64(-0.0));
    assert_eq!(pos.max(neg).raw(), b64(-0.0));
    assert_eq!(neg.max(pos).raw(), b64(0.0));
    assert_eq!(r64(b64(-2.0)).max(r64(b64(-3.0))).raw(), b64(-2.0));
    assert_eq!(r64(b64(-2.0)).min(r64(b64(-3.0))).raw(), b64(-3.0));
}

#[test]
fn signed_zeros_are_equal_and_hash_alike() {
    assert_eq!(n64(b64(0.0)), n64(b64(-0.0)));
    assert_eq!(n64(b64(0.0)).hash_bits(), n64(b64(-0.0)).hash_bits());
    assert_eq!(n32(b32(0.0)), n32(b32(-0.0)));
    assert_eq!(n64(b64(-7.25)).hash_bits(), b64(-7.25));
}

#[test]
fn negation_flips_the_sign() {
    assert_eq!(r64(b64(2.5)).neg().raw(), b64(-2.5));
    assert_eq!(r64(b64(0.0)).neg().raw(), b64(-0.0));
    assert_eq!(N64::infinity().neg(), N64::neg_infinity());
    assert_eq!(r32(b32(-1.0)).neg().raw(), b32(1.0));
}

#[test]
fn checked_from_reports_the_refused_value() {
    assert_eq!(
        R64::checked_from(b64(f64::INFINITY)),
        Err(InvalidFloat { value: b64(f64::INFINITY) })
    );
    assert_eq!(
        N32::checked_from(b32(f32::NAN)).unwrap_err().value,
        b32(f32::NAN)
    );
    assert_eq!(N64::checked_from(b64(f64::INFINITY)).unwrap().raw(), b64(f64::INFINITY));
}

#[test]
fn default_is_positive_zero() {
    assert_eq!(R64::default().raw(), 0);
    assert_eq!(N32::default().raw(), 0);
    assert_eq!(R64::zero().raw(), 0);
}

#[test]
fn sample_in_range_is_wrapped() {
    let low = r32(b32(17.0));
    let high = r32(b32(22.0));
    assert_eq!(R32::from_sample(low, high, b32(19.5)).unwrap().raw(), b32(19.5));
    assert_eq!(R32::from_sample(low, high, b32(17.0)).unwrap().raw(), b32(17.0));
    assert_eq!(R32::from_sample(low, high, b32(22.0)).unwrap().raw(), b32(22.0));
    assert_eq!(R32::from_sample(low, high, b32(16.9)), None);
    assert_eq!(R32::from_sample(low, high, b32(f32::NAN)), None);
    let lo = N64::neg_infinity();
    let hi = N64::infinity();
    assert!(N64::from_sample(lo, hi, b64(f64::MAX)).is_some());
    assert!(N64::from_sample(lo, hi, b64(f64::NAN)).is_none());
}
