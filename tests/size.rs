use ferry::size::readable_size;

#[test]
fn readable_sizes() {
    assert_eq!(readable_size(1_572_864), "1.50MB");
    assert_eq!(readable_size(1023), "1023.00B");
    assert_eq!(readable_size(0), "0.00B");
    assert_eq!(readable_size(1024), "1.00KB");
    assert_eq!(readable_size(1152), "1.12KB");
    assert_eq!(readable_size(1_048_575), "1024.00KB");
    assert_eq!(readable_size(5 * (1u128 << 50)), "5.00PB");
    assert_eq!(readable_size(3 * (1u128 << 60)), "3072.00PB");
}
