use rustc_codegen_gcc::{i128_to_u64, I128_TO_U64_MAX};

#[test]
fn zero_converts() {
    assert_eq!(i128_to_u64(0), Some(0));
}

#[test]
fn negative_values_are_rejected() {
    assert_eq!(i128_to_u64(-1), None);
    assert_eq!(i128_to_u64(i128::MIN), None);
}

#[test]
fn values_up_to_the_bound_round_trip() {
    for v in [1u64, 42, 1 << 40, 18446744073709551612] {
        let back = i128_to_u64(v as i128).unwrap();
        assert_eq!(back, v);
        assert_eq!(back as i128, v as i128);
    }
    assert_eq!(i128_to_u64(I128_TO_U64_MAX), Some(18446744073709551612));
}

#[test]
fn values_above_the_bound_are_rejected() {
    assert_eq!(i128_to_u64(I128_TO_U64_MAX + 1), None);
    assert_eq!(i128_to_u64(u64::MAX as i128), None);
    assert_eq!(i128_to_u64(i128::MAX), None);
}
