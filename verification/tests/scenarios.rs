use checked_math::Checked;

#[test]
fn overflowing_addition_is_absent() {
    assert_eq!(Checked::from(255u8) + Checked::from(1u8), Checked(None));
}

#[test]
fn subtraction_in_range_is_present() {
    assert_eq!(Checked::from(255u8) - Checked::from(1u8), Checked(Some(254u8)));
}

#[test]
fn chained_addition_overflows_at_second_step() {
    let first = Checked::from(1u8) + Checked::from(1u8);
    assert_eq!(first, Checked(Some(2u8)));
    assert_eq!(first + Checked::from(255u8), Checked(None));
    assert_eq!(Checked::from(1u8) + Checked::from(1u8) + Checked::from(255u8), Checked(None));
}

#[test]
fn unsigned_underflow_is_absent() {
    assert_eq!(Checked::from(0u8) - Checked::from(1u8), Checked(None));
}

#[test]
fn division_by_zero_is_absent() {
    assert_eq!(Checked::from(10u8) / Checked::from(0u8), Checked(None));
}

#[test]
fn overflowing_product_is_absent() {
    assert_eq!(Checked::from(200u8) * Checked::from(2u8), Checked(None));
}

#[test]
fn absent_plus_present_is_absent() {
    let absent: Checked<u8> = Checked::from(None);
    assert_eq!(absent + Checked::from(5u8), Checked(None));
    assert_eq!(absent + Checked::from(0u8), Checked(None));
    assert_eq!(absent + Checked::from(255u8), Checked(None));
}

#[test]
fn absence_flows_through_a_chain() {
    let a = Checked::from(250u8);
    let overflowed = a + Checked::from(10u8);
    assert_eq!(overflowed.0, None);
    let later = (overflowed - Checked::from(10u8)) * Checked::from(1u8) / Checked::from(1u8);
    assert_eq!(later.0, None);
    assert_eq!((later % Checked::from(3u8)).0, None);
}

#[test]
fn one_check_at_the_end_of_a_chain() {
    let total = Checked::from(20u32) * Checked::from(30u32) + Checked::from(7u32)
        - Checked::from(100u32);
    assert_eq!(total.0, Some(507u32));
    let share = total / Checked::from(10u32);
    assert_eq!(share.0, Some(50u32));
    let left = total % Checked::from(10u32);
    assert_eq!(left.0, Some(7u32));
}

#[test]
fn infix_applies_the_operation_to_present_payloads() {
    let widened = Checked::from(200u8).infix(Checked::from(100u8), |a, b| {
        Some(u16::from(a) + u16::from(b))
    });
    assert_eq!(widened, Checked(Some(300u16)));
}

#[test]
fn infix_keeps_a_failed_operation_absent() {
    let failed: Checked<u8> = Checked::from(4u8).infix(Checked::from(2u8), |_, _| None);
    assert_eq!(failed, Checked(None));
}

#[test]
fn infix_does_not_call_the_operation_on_an_absent_operand() {
    let absent: Checked<u8> = Checked(None);
    let left: Checked<u8> = absent.infix(Checked::from(1u8), |_, _| {
        panic!("the operation ran on an absent operand")
    });
    assert_eq!(left, Checked(None));
    let right: Checked<u8> = Checked::from(1u8).infix(absent, |_, _| {
        panic!("the operation ran on an absent operand")
    });
    assert_eq!(right, Checked(None));
    let both: Checked<u8> = absent.infix(absent, |_, _| {
        panic!("the operation ran on an absent operand")
    });
    assert_eq!(both, Checked(None));
}
