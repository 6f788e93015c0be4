use uwb_clock_tracker::dwt_utils::dwt_ticks_to_us;
use uwb_clock_tracker::dwt_utils::dwt_ticks_to_uus;
use uwb_clock_tracker::dwt_utils::dwt_time_diff;
use uwb_clock_tracker::dwt_utils::dwt_us_to_ticks;
use uwb_clock_tracker::dwt_utils::dwt_us_to_uus;
use uwb_clock_tracker::dwt_utils::dwt_uus_to_ticks;
use uwb_clock_tracker::dwt_utils::dwt_uus_to_us;

const UUS_TO_DTU_TIME: f64 = 65536.0;
const DTU_TO_UUS_TIME: f64 = 1.0 / 65536.0;
const US_TO_DTU_TIME: f64 = 499.2 * 128.0;
const DTU_TO_US_TIME: f64 = 1.0 / 128.0 / 499.2;

#[test]
fn test_dwt_uus_to_us() {
    assert_eq!(
        f64::from_bits(dwt_uus_to_us(8.0f64.to_bits())),
        8.0 * UUS_TO_DTU_TIME * DTU_TO_US_TIME
    );
}

#[test]
fn test_dwt_us_to_uus() {
    assert_eq!(
        f64::from_bits(dwt_us_to_uus(8.0f64.to_bits())),
        8.0 * US_TO_DTU_TIME * DTU_TO_UUS_TIME
    );
}

#[test]
fn test_dwt_uus_to_ticks() {
    assert_eq!(
        dwt_uus_to_ticks(8.0f64.to_bits()).unwrap(),
        (8.0 * UUS_TO_DTU_TIME) as u64
    );
}

#[test]
fn test_dwt_ticks_to_uus() {
    assert_eq!(f64::from_bits(dwt_ticks_to_uus(8)), 8.0 * DTU_TO_UUS_TIME);
}

#[test]
fn test_dwt_us_to_ticks() {
    assert_eq!(
        dwt_us_to_ticks(8.0f64.to_bits()).unwrap(),
        (8.0 * US_TO_DTU_TIME) as u64
    );
}

#[test]
fn test_dwt_ticks_to_us() {
    assert_eq!(f64::from_bits(dwt_ticks_to_us(8)), 8.0 * DTU_TO_US_TIME);
}

#[test]
fn test_dwt_time_diff() {
    assert_eq!(dwt_time_diff(8, 0), 8);
    assert_eq!(dwt_time_diff(0, 8), -8);
    assert_eq!(dwt_time_diff(8, 2u64.pow(40)), 8);
    assert_eq!(dwt_time_diff(0, 2u64.pow(40) + 8), -8);
}

#[test]
fn test_dwt_time_diff_wraps_near_modulus() {
    // one tick before the counter wraps, and one after
    let before = 2u64.pow(40) - 1;
    assert_eq!(dwt_time_diff(0, before), 1);
    assert_eq!(dwt_time_diff(before, 0), -1);
    assert_eq!(dwt_time_diff(5, before), 6);
}

#[test]
fn test_conversion_round_trip_ticks() {
    // seconds_to_ticks(ticks_to_seconds(x)) recovers x up to the final
    // truncation toward zero
    for &x in &[1i64, 8, 1000, 63897600, 1 << 30, (1 << 39) - 1] {
        let us = dwt_ticks_to_us(x);
        let back = dwt_us_to_ticks(us).unwrap() as i64;
        assert!((back - x).abs() <= 1, "round trip {} -> {}", x, back);
    }
}

#[test]
fn test_conversions_scale_their_argument() {
    // each conversion must actually rescale: handing the argument back
    // unchanged would fail every comparison here
    let one = 1.0f64.to_bits();
    assert_eq!(f64::from_bits(dwt_uus_to_us(one)), 512.0 / 499.2);
    assert_eq!(f64::from_bits(dwt_us_to_uus(one)), 0.975);
    assert_eq!(dwt_uus_to_ticks(one).unwrap(), 65536);
    assert_eq!(f64::from_bits(dwt_ticks_to_uus(65536)), 1.0);
    assert_eq!(dwt_us_to_ticks(one).unwrap(), 63897);
    assert_eq!(f64::from_bits(dwt_ticks_to_us(63897600)), 1000.0);
}

#[test]
fn test_out_of_range_conversions_are_refused() {
    // the scaled tick count cannot be represented in a u64
    let huge = 2.0e19f64.to_bits();
    assert_eq!(dwt_us_to_ticks(huge), None);
    let nan = f64::NAN.to_bits();
    assert_eq!(dwt_uus_to_ticks(nan), None);
    let negative = (-8.0f64).to_bits();
    assert_eq!(dwt_us_to_ticks(negative), None);
}
