use checked_math::Checked;
use std::cmp::Ordering;

#[test]
fn absent_equals_absent() {
    let a: Checked<u8> = Checked(None);
    let b: Checked<u8> = Checked::from(None);
    assert!(a == b);
    assert!(!(a != b));
}

#[test]
fn absent_differs_from_every_present_value() {
    let absent: Checked<u8> = Checked(None);
    for v in [0u8, 1, 127, 255] {
        assert!(absent != Checked::from(v));
        assert!(Checked::from(v) != absent);
        assert!(!(absent == Checked::from(v)));
    }
}

#[test]
fn present_values_compare_by_payload() {
    assert!(Checked::from(3i32) == Checked::from(3i32));
    assert!(Checked::from(3i32) != Checked::from(4i32));
    assert!(Checked::from(-3i32) != Checked::from(3i32));
}

#[test]
fn results_compare_with_wrapped_values() {
    assert_eq!(Checked::from(2u16) * Checked::from(21u16), Checked::from(42u16));
    assert_ne!(Checked::from(2u16) * Checked::from(21u16), Checked::from(43u16));
    assert_eq!(Checked::from(u16::MAX) * Checked::from(2u16), Checked::from(None));
}

#[test]
fn absent_is_less_than_every_present_value() {
    let absent: Checked<i8> = Checked(None);
    for v in [i8::MIN, -1, 0, 1, i8::MAX] {
        assert!(absent < Checked::from(v));
        assert!(Checked::from(v) > absent);
        assert!(!(absent >= Checked::from(v)));
        assert_eq!(absent.partial_cmp(&Checked::from(v)), Some(Ordering::Less));
        assert_eq!(Checked::from(v).partial_cmp(&absent), Some(Ordering::Greater));
    }
}

#[test]
fn absent_is_neither_less_nor_greater_than_absent() {
    let a: Checked<u32> = Checked(None);
    let b: Checked<u32> = Checked(None);
    assert_eq!(a.partial_cmp(&b), Some(Ordering::Equal));
    assert!(!(a < b));
    assert!(!(a > b));
    assert!(a <= b);
    assert!(a >= b);
}

#[test]
fn present_values_are_ordered_by_payload() {
    assert!(Checked::from(1u8) < Checked::from(2u8));
    assert!(Checked::from(2u8) > Checked::from(1u8));
    assert!(Checked::from(-5i64) < Checked::from(-4i64));
    assert_eq!(Checked::from(7u8).partial_cmp(&Checked::from(7u8)), Some(Ordering::Equal));
    assert_eq!(Checked::from(7u8).partial_cmp(&Checked::from(8u8)), Some(Ordering::Less));
    assert_eq!(Checked::from(9u8).partial_cmp(&Checked::from(8u8)), Some(Ordering::Greater));
}

#[test]
fn wrappers_are_copied_freely() {
    let a = Checked::from(6u8);
    let b = a;
    let c = a.clone();
    assert_eq!(a + b, Checked::from(12u8));
    assert_eq!(c, a);
}

#[test]
fn wrappers_format_for_debugging() {
    assert_eq!(format!("{:?}", Checked::from(5u8)), "Checked(Some(5))");
    assert_eq!(format!("{:?}", Checked::<u8>(None)), "Checked(None)");
}
