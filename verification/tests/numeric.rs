use fiv::numeric::{DimensionsU32, PointI32, Xi32, Xu32, Yi32, Yu32, Zero};

#[test]
fn rotate90_swaps_width_and_height() {
    let d = DimensionsU32::new(Xu32::new(100), Yu32::new(50));
    let r = d.rotate90();
    assert_eq!(r.width.value(), 50);
    assert_eq!(r.height.value(), 100);
    assert_eq!(r.rotate90(), d);
}

#[test]
fn non_zero_requires_both_axes() {
    assert!(DimensionsU32::new(Xu32::new(1), Yu32::new(1)).non_zero());
    assert!(!DimensionsU32::new(Xu32::new(0), Yu32::new(1)).non_zero());
    assert!(!DimensionsU32::new(Xu32::new(1), Yu32::new(0)).non_zero());
}

#[test]
fn checked_addition_fails_loudly_on_overflow() {
    assert_eq!(
        Xu32::new(1).checked_add(Xu32::new(2)).map(Xu32::value),
        Some(3)
    );
    assert_eq!(Xu32::new(u32::MAX).checked_add(Xu32::new(1)), None);
    assert_eq!(
        Yu32::new(5).checked_sub(Yu32::new(2)).map(Yu32::value),
        Some(3)
    );
    assert_eq!(Yu32::new(1).checked_sub(Yu32::new(2)), None);
    assert_eq!(Xi32::new(i32::MAX).checked_add(Xi32::new(1)), None);
    assert_eq!(
        Yi32::new(-1).checked_add(Yi32::new(-2)).map(Yi32::value),
        Some(-3)
    );
}

#[test]
fn signed_unsigned_conversions_fail_loudly() {
    assert_eq!(Xi32::new(-1).to_unsigned(), None);
    assert_eq!(Xi32::new(7).to_unsigned().map(Xu32::value), Some(7));
    assert_eq!(Yu32::new(0x8000_0000).to_signed(), None);
    assert_eq!(Yu32::new(7).to_signed().map(Yi32::value), Some(7));
}

#[test]
fn points_add_componentwise() {
    let a = PointI32::new(Xi32::new(3), Yi32::new(-4));
    let b = PointI32::new(Xi32::new(-1), Yi32::new(10));
    let sum = a.checked_add(b).unwrap();
    assert_eq!(sum.x.value(), 2);
    assert_eq!(sum.y.value(), 6);
    let overflow = PointI32::new(Xi32::new(i32::MAX), Yi32::new(0));
    assert_eq!(overflow.checked_add(PointI32::new(Xi32::new(1), Yi32::new(0))), None);
    assert_eq!(PointI32::default(), PointI32::new(Xi32::zero(), Yi32::zero()));
}
