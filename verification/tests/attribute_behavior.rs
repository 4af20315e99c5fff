use nwest_shared_component_library::{AttributeError, IntegerAttribute};

#[test]
fn test_new_sets_min_zero_and_current_to_max() {
    let attribute = IntegerAttribute::new(100);
    assert_eq!(attribute.min, 0);
    assert_eq!(attribute.max, 100);
    assert_eq!(attribute.current, 100);
}

#[test]
fn test_new_negative_max_clamps_min() {
    let attribute = IntegerAttribute::new(-10);
    assert_eq!(attribute.min, -10);
    assert_eq!(attribute.max, -10);
    assert_eq!(attribute.current, -10);
}

#[test]
fn test_new_as_defined_clamps_current() {
    let attribute = IntegerAttribute::new_as_defined(0, 100, 250)
        .expect("Failed to create IntegerAttribute");
    assert_eq!(attribute.current, 100);
    let attribute = IntegerAttribute::new_as_defined(10, 100, -5)
        .expect("Failed to create IntegerAttribute");
    assert_eq!(attribute.current, 10);
}

#[test]
fn test_new_as_defined_error() {
    let result = IntegerAttribute::new_as_defined(100, 0, 50);
    assert_eq!(result.unwrap_err(), AttributeError::MinGreaterThanMax(100, 0));
}

#[test]
fn test_with_min_max_and_current() {
    let attribute = IntegerAttribute::with_min_max_and_current(0, 100, 42)
        .expect("Failed to create IntegerAttribute");
    assert_eq!(attribute.current, 42);
}

#[test]
fn test_set_current_value_alias() {
    let mut attribute =
        IntegerAttribute::with_min_and_max(0, 100).expect("Failed to create IntegerAttribute");
    attribute.set_current_value(150);
    assert_eq!(attribute.current, 100);
}

#[test]
fn test_set_value_is_idempotent() {
    let mut once =
        IntegerAttribute::with_min_and_max(0, 100).expect("Failed to create IntegerAttribute");
    once.set_value(250);
    let mut twice = once;
    twice.set_value(250);
    assert_eq!(once, twice);
}

#[test]
fn test_set_min_max() {
    let mut attribute =
        IntegerAttribute::with_min_and_max(0, 100).expect("Failed to create IntegerAttribute");
    attribute.set_min_max(-50, 50).expect("Failed to set min and max");
    assert_eq!(attribute.min, -50);
    assert_eq!(attribute.max, 50);
    assert_eq!(attribute.current, 50);
}

#[test]
fn test_set_min_max_error_leaves_state() {
    let mut attribute =
        IntegerAttribute::with_min_and_max(0, 100).expect("Failed to create IntegerAttribute");
    let result = attribute.set_min_max(60, 40);
    assert_eq!(result.unwrap_err(), AttributeError::MinGreaterThanMax(60, 40));
    assert_eq!(attribute.min, 0);
    assert_eq!(attribute.max, 100);
    assert_eq!(attribute.current, 100);
}

#[test]
fn test_divide_by_zero_is_noop() {
    let attribute =
        IntegerAttribute::with_min_and_max(0, 100).expect("Failed to create IntegerAttribute");
    let result = attribute.divide(0);
    assert_eq!(result.current, 100);
}

#[test]
fn test_remainder_by_zero_is_noop() {
    let mut attribute =
        IntegerAttribute::with_min_and_max(0, 100).expect("Failed to create IntegerAttribute");
    attribute.remainder_current_value(0);
    assert_eq!(attribute.current, 100);
    attribute.divide_current_value(0);
    assert_eq!(attribute.current, 100);
}

#[test]
fn test_add_overflow_saturates_to_max() {
    let mut attribute = IntegerAttribute::new_as_defined(0, 100, 50)
        .expect("Failed to create IntegerAttribute");
    attribute.add_to_current_value(i32::MAX);
    assert_eq!(attribute.current, 100);
}

#[test]
fn test_sub_overflow_saturates_to_min() {
    let mut attribute = IntegerAttribute::new_as_defined(-100, 100, -50)
        .expect("Failed to create IntegerAttribute");
    attribute.subtract_from_current_value(i32::MAX);
    assert_eq!(attribute.current, -100);
}

#[test]
fn test_multiply_negative() {
    let attribute = IntegerAttribute::new_as_defined(-100, 100, 30)
        .expect("Failed to create IntegerAttribute");
    let result = attribute.multiply(-2);
    assert_eq!(result.current, -60);
}

#[test]
fn test_divide_truncates_towards_zero() {
    let attribute = IntegerAttribute::new_as_defined(-100, 100, -7)
        .expect("Failed to create IntegerAttribute");
    let result = attribute.divide(2);
    assert_eq!(result.current, -3);
}

#[test]
fn test_remainder_takes_sign_of_dividend() {
    let attribute = IntegerAttribute::new_as_defined(-100, 100, -7)
        .expect("Failed to create IntegerAttribute");
    let result = attribute.remainder(3);
    assert_eq!(result.current, -1);
}

#[test]
fn test_negate_within_bounds() {
    let attribute = IntegerAttribute::new_as_defined(-100, 100, 40)
        .expect("Failed to create IntegerAttribute");
    let result = attribute.negate();
    assert_eq!(result.current, -40);
}

#[test]
fn test_add_unsigned_out_of_range_operand() {
    let attribute = IntegerAttribute::new_as_defined(0, 100, 5)
        .expect("Failed to create IntegerAttribute");
    let result = attribute.add_unsigned(u32::MAX);
    assert_eq!(result.current, 100);
}

#[test]
fn test_add_unsigned_in_range_operand() {
    let attribute = IntegerAttribute::new_as_defined(0, 100, 5)
        .expect("Failed to create IntegerAttribute");
    let result = attribute.add_unsigned(10);
    assert_eq!(result.current, 15);
}

#[test]
fn test_subtract_unsigned_out_of_range_operand() {
    let attribute = IntegerAttribute::new_as_defined(-100, 100, 5)
        .expect("Failed to create IntegerAttribute");
    let result = attribute.subtract_unsigned(u32::MAX);
    assert_eq!(result.current, -100);
}

#[test]
fn test_multiply_unsigned_out_of_range_operand() {
    let positive = IntegerAttribute::new_as_defined(-100, 100, 5)
        .expect("Failed to create IntegerAttribute");
    assert_eq!(positive.multiply_unsigned(u32::MAX).current, 100);
    let negative = IntegerAttribute::new_as_defined(-100, 100, -5)
        .expect("Failed to create IntegerAttribute");
    assert_eq!(negative.multiply_unsigned(u32::MAX).current, -100);
    let zero = IntegerAttribute::new_as_defined(-100, 100, 0)
        .expect("Failed to create IntegerAttribute");
    assert_eq!(zero.multiply_unsigned(u32::MAX).current, 0);
}

#[test]
fn test_divide_unsigned_invalid_divisor_clamps_zero() {
    let attribute = IntegerAttribute::new_as_defined(10, 100, 50)
        .expect("Failed to create IntegerAttribute");
    assert_eq!(attribute.divide_unsigned(0).current, 10);
    assert_eq!(attribute.divide_unsigned(u32::MAX).current, 10);
    assert_eq!(attribute.divide_unsigned(5).current, 10);
}

#[test]
fn test_current_percentage_hundredths() {
    let attribute =
        IntegerAttribute::with_min_and_max(0, 100).expect("Failed to create IntegerAttribute");
    assert_eq!(attribute.current_percentage_hundredths(), 10000);
    let attribute = IntegerAttribute::new_as_defined(-100, 100, 0)
        .expect("Failed to create IntegerAttribute");
    assert_eq!(attribute.current_percentage_hundredths(), 5000);
    let attribute = IntegerAttribute::new_as_defined(50, 100, 75)
        .expect("Failed to create IntegerAttribute");
    assert_eq!(attribute.current_percentage_hundredths(), 5000);
    let attribute = IntegerAttribute::new_as_defined(7, 7, 7)
        .expect("Failed to create IntegerAttribute");
    assert_eq!(attribute.current_percentage_hundredths(), 0);
}

#[test]
fn test_display_half() {
    let mut attribute =
        IntegerAttribute::with_min_and_max(0, 100).expect("Failed to create IntegerAttribute");
    attribute.set_value(50);
    assert_eq!(attribute.display_string(), "50 (50.00%)");
}

#[test]
fn test_display_negative_current() {
    let attribute = IntegerAttribute::new_as_defined(-100, 100, -5)
        .expect("Failed to create IntegerAttribute");
    assert_eq!(attribute.display_string(), "-5 (47.50%)");
}

#[test]
fn test_default_is_all_zero() {
    let attribute = IntegerAttribute::default();
    assert_eq!(attribute.min, 0);
    assert_eq!(attribute.max, 0);
    assert_eq!(attribute.current, 0);
}

#[test]
fn test_invariant_holds_through_operations() {
    let mut attribute = IntegerAttribute::new_as_defined(-20, 60, 10)
        .expect("Failed to create IntegerAttribute");
    let in_bounds = |a: &IntegerAttribute| a.min <= a.current && a.current <= a.max;
    assert!(in_bounds(&attribute));
    attribute.add_to_current_value(1000);
    assert!(in_bounds(&attribute));
    attribute.subtract_from_current_value(i32::MAX);
    assert!(in_bounds(&attribute));
    attribute.multiply_current_value(-7);
    assert!(in_bounds(&attribute));
    attribute.divide_current_value(0);
    assert!(in_bounds(&attribute));
    attribute.remainder_current_value(13);
    assert!(in_bounds(&attribute));
    attribute.negate_current_value();
    assert!(in_bounds(&attribute));
    attribute.set_value(i32::MIN);
    assert!(in_bounds(&attribute));
    attribute.set_min_max(0, 5).expect("Failed to set min and max");
    assert!(in_bounds(&attribute));
    attribute.set_max(3).expect("Failed to set max");
    assert!(in_bounds(&attribute));
    attribute.set_min(1).expect("Failed to set min");
    assert!(in_bounds(&attribute));
}
