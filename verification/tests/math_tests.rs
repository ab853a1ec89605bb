use display_sim::math::gcd;

#[test]
fn test_gcd_gives_good_results() {
    assert_eq!(gcd(0u32, 0u32), 0);
    assert_eq!(gcd(10u32, 0u32), 10);
    assert_eq!(gcd(0u32, 10u32), 10);
    assert_eq!(gcd(10u32, 20u32), 10);
    assert_eq!(gcd(2024u32, 748u32), 44);
}

#[test]
fn gcd_is_symmetric_on_concrete_values() {
    assert_eq!(gcd(12u64, 18u64), gcd(18u64, 12u64));
    assert_eq!(gcd(12u64, 18u64), 6);
    assert_eq!(gcd(7usize, 13usize), 1);
    assert_eq!(gcd(255u8, 51u8), 51);
}
