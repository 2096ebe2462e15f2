use solana_forge::supply::checked_scale;

#[test]
fn scales_by_power_of_ten() {
    assert_eq!(checked_scale(500, 2), Some(50_000));
    assert_eq!(checked_scale(1, 9), Some(1_000_000_000));
    assert_eq!(checked_scale(21_000_000, 8), Some(2_100_000_000_000_000));
}

#[test]
fn zero_decimals_keep_the_supply() {
    assert_eq!(checked_scale(0, 0), Some(0));
    assert_eq!(checked_scale(7, 0), Some(7));
    assert_eq!(checked_scale(u64::MAX, 0), Some(u64::MAX));
}

#[test]
fn zero_supply_fits_with_any_decimals() {
    assert_eq!(checked_scale(0, 19), Some(0));
    assert_eq!(checked_scale(0, 20), Some(0));
    assert_eq!(checked_scale(0, 255), Some(0));
}

#[test]
fn largest_power_of_ten_that_fits() {
    assert_eq!(checked_scale(1, 19), Some(10_000_000_000_000_000_000));
    assert_eq!(checked_scale(1, 20), None);
    assert_eq!(checked_scale(2, 19), None);
    assert_eq!(checked_scale(1, 255), None);
}

#[test]
fn overflow_is_detected_at_the_boundary() {
    assert_eq!(checked_scale(u64::MAX, 1), None);
    assert_eq!(
        checked_scale(1_844_674_407_370_955_161, 1),
        Some(18_446_744_073_709_551_610)
    );
    assert_eq!(checked_scale(1_844_674_407_370_955_162, 1), None);
    assert_eq!(checked_scale(18_446_744_073_709, 6), Some(18_446_744_073_709_000_000));
    assert_eq!(checked_scale(18_446_744_073_710, 6), None);
}
