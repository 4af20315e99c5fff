use nwest_shared_component_library::text::{i32_to_string, u64_to_string};

#[test]
fn test_u64_rendering() {
    assert_eq!(u64_to_string(0), "0");
    assert_eq!(u64_to_string(7), "7");
    assert_eq!(u64_to_string(12345), "12345");
    assert_eq!(u64_to_string(1000), "1000");
}

#[test]
fn test_i32_rendering() {
    assert_eq!(i32_to_string(0), "0");
    assert_eq!(i32_to_string(-42), "-42");
    assert_eq!(i32_to_string(i32::MIN), "-2147483648");
    assert_eq!(i32_to_string(i32::MAX), "2147483647");
}
