use v_contractx::errors::KernelError;
use v_contractx::types::Vector;
use v_contractx::utils::{canonical_bool, clamp_u128, ratio_to_micros, AUTH_RATIO_SCALE};

#[test]
fn subtract_then_add_restores_vector() {
    let source = Vector::new(vec![10, 5, 0]);
    let locked = Vector::new(vec![5, 0, 0]);
    let remaining = source.checked_sub_vector(&locked).unwrap();
    assert_eq!(remaining, Vector::new(vec![5, 5, 0]));
    assert_eq!(remaining.checked_add_vector(&locked).unwrap(), source);
}

#[test]
fn add_then_subtract_restores_vector() {
    let a = Vector::new(vec![3, 0, 9]);
    let b = Vector::new(vec![4, 8, 1]);
    let sum = a.checked_add_vector(&b).unwrap();
    assert_eq!(sum, Vector::new(vec![7, 8, 10]));
    assert_eq!(sum.checked_sub_vector(&b).unwrap(), a);
}

#[test]
fn zero_vector_has_requested_dimensions() {
    let z = Vector::zero(4);
    assert_eq!(z, Vector::new(vec![0, 0, 0, 0]));
    assert_eq!(z.len(), 4);
    assert!(z.is_zero());
    assert!(Vector::zero(0).is_zero());
    assert!(!Vector::new(vec![0, 1]).is_zero());
}

#[test]
fn magnitude_sums_components() {
    assert_eq!(Vector::new(vec![10, 5, 0]).magnitude(), 15);
    assert_eq!(Vector::new(vec![]).magnitude(), 0);
}

#[test]
fn dimension_mismatch_is_reported_with_both_sizes() {
    let a = Vector::new(vec![1, 2, 3]);
    let b = Vector::new(vec![1, 2]);
    let expected = KernelError::TypeMismatch("vector dimension mismatch: 3 vs 2".to_string());
    assert_eq!(a.ensure_same_dim(&b), Err(expected.clone()));
    assert_eq!(a.checked_sub_vector(&b), Err(expected.clone()));
    assert_eq!(a.checked_add_vector(&b), Err(expected.clone()));
    assert_eq!(a.componentwise_min(&b), Err(expected));
    assert_eq!(a.ensure_same_dim(&Vector::new(vec![7, 8, 9])), Ok(()));
}

#[test]
fn subtracting_a_larger_component_is_refused() {
    let a = Vector::new(vec![4, 2]);
    let b = Vector::new(vec![1, 3]);
    assert_eq!(
        a.checked_sub_vector(&b),
        Err(KernelError::InvalidState(
            "cannot subtract larger projected vector from source".to_string()
        ))
    );
}

#[test]
fn addition_saturates_at_the_maximum() {
    let a = Vector::new(vec![u128::MAX, 1]);
    let b = Vector::new(vec![1, 1]);
    assert_eq!(a.checked_add_vector(&b).unwrap(), Vector::new(vec![u128::MAX, 2]));
}

#[test]
fn scale_bps_divides_by_a_million() {
    let v = Vector::new(vec![1_000_000, 3, 40]);
    assert_eq!(v.scale_bps(25_000), Vector::new(vec![25_000, 0, 1]));
    assert_eq!(v.scale_bps(1_000_000), v);
    let big = Vector::new(vec![u128::MAX]);
    assert_eq!(big.scale_bps(2_000_000), Vector::new(vec![u128::MAX / 1_000_000]));
}

#[test]
fn scale_ratio_floor_rounds_down_and_refuses_zero_denominator() {
    let v = Vector::new(vec![7, 10]);
    assert_eq!(v.scale_ratio_floor(2, 3).unwrap(), Vector::new(vec![4, 6]));
    assert_eq!(
        v.scale_ratio_floor(1, 0),
        Err(KernelError::InvalidParameter("ratio denominator cannot be zero".to_string()))
    );
}

#[test]
fn componentwise_min_takes_smaller_components() {
    let a = Vector::new(vec![1, 9, 5]);
    let b = Vector::new(vec![4, 2, 5]);
    assert_eq!(a.componentwise_min(&b).unwrap(), Vector::new(vec![1, 2, 5]));
}

#[test]
fn clamping_non_negative_components_changes_nothing() {
    let v = Vector::new(vec![0, 17, u128::MAX]);
    assert_eq!(v.clamp_non_negative_components(), v);
}

#[test]
fn clamp_bounds_values() {
    assert_eq!(clamp_u128(5, 1, 10), 5);
    assert_eq!(clamp_u128(0, 1, 10), 1);
    assert_eq!(clamp_u128(11, 1, 10), 10);
    assert_eq!(clamp_u128(5, 8, 2), 8);
}

#[test]
fn ratio_to_micros_scales_and_caps() {
    assert_eq!(ratio_to_micros(1, 3), Ok(333_333));
    assert_eq!(ratio_to_micros(1, 2), Ok(500_000));
    assert_eq!(ratio_to_micros(5, 2), Ok(AUTH_RATIO_SCALE as u32));
    assert_eq!(ratio_to_micros(u128::MAX, u128::MAX), Ok(1));
    assert_eq!(
        ratio_to_micros(1, 0),
        Err(KernelError::InvalidParameter("ratio denominator must be non-zero".to_string()))
    );
}

#[test]
fn canonical_bool_spells_booleans() {
    assert_eq!(canonical_bool(true), "true");
    assert_eq!(canonical_bool(false), "false");
}

#[test]
fn error_messages_carry_label_and_detail() {
    assert_eq!(KernelError::NotFound("wallet-a".to_string()).message(), "not found: wallet-a");
    assert_eq!(
        KernelError::DoubleReconstruction("projection p already settled".to_string()).message(),
        "double reconstruction attempt: projection p already settled"
    );
    assert_eq!(KernelError::ContractError("x".to_string()).message(), "contract error: x");
}
