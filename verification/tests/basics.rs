use sage_x::clock::cap_micros;
use sage_x::{add, init, VERSION};

#[test]
fn it_works() {
    let result = add(2, 2);
    assert_eq!(result, 4);
}

#[test]
fn test_version() {
    assert!(!VERSION.is_empty());
}

#[test]
fn test_init() {
    assert!(init().is_ok());
}

#[test]
fn lib_test_init() {
    assert!(init().is_ok());
}

#[test]
fn clock_readings_are_capped_at_64_bits() {
    assert_eq!(cap_micros(0), 0);
    assert_eq!(cap_micros(1_500), 1_500);
    assert_eq!(cap_micros(u64::MAX as u128), u64::MAX);
    assert_eq!(cap_micros(u64::MAX as u128 + 1), u64::MAX);
    assert_eq!(cap_micros(u128::MAX), u64::MAX);
}
