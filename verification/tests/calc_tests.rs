use pump::calc::from_integer_scaled;
use pump::calc::to_integer_scaled;

#[test]
fn to_integer_scaled_multiplies_by_power_of_ten() {
    assert_eq!(to_integer_scaled(5, 6), 5_000_000);
    assert_eq!(to_integer_scaled(0, 38), 0);
    assert_eq!(to_integer_scaled(7, 0), 7);
    assert_eq!(to_integer_scaled(u64::MAX, 9), (u64::MAX as u128) * 1_000_000_000);
}

#[test]
fn from_integer_scaled_rounds_down() {
    assert_eq!(from_integer_scaled(5_123_456, 6), 5);
    assert_eq!(from_integer_scaled(999_999, 6), 0);
    assert_eq!(from_integer_scaled(42, 0), 42);
}

#[test]
fn from_integer_scaled_keeps_low_64_bits() {
    let big: u128 = (u64::MAX as u128) + 5;
    assert_eq!(from_integer_scaled(big, 0), 4);
}

#[test]
fn scaled_round_trip() {
    for decimals in 0u8..=19 {
        for value in [0u64, 1, 9, 123_456_789, u64::MAX] {
            let scaled = to_integer_scaled(value, decimals);
            assert_eq!(from_integer_scaled(scaled, decimals), value);
        }
    }
}

