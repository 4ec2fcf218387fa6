use ad9959::codec::{
    acr_bytes, clock_control, ftw_bytes, ftw_from_bytes, pow_bytes, pow_from_bytes,
};
use ad9959::{
    acr_to_amplitude, amplitude_to_acr, frequency_to_ftw, ftw_to_frequency, phase_to_pow,
    pow_to_phase, validate_clocking, Error, Ratio,
};

fn value(r: Ratio) -> f64 {
    r.num as f64 / r.den as f64
}

#[test]
fn clocking_accepts_the_lower_band() {
    assert_eq!(validate_clocking(25_000_000, 4), Ok(100_000_000));
    assert_eq!(validate_clocking(10_000_000, 16), Ok(160_000_000));
}

#[test]
fn clocking_accepts_the_upper_band() {
    assert_eq!(validate_clocking(25_000_000, 20), Ok(500_000_000));
    assert_eq!(validate_clocking(100_000_000, 5), Ok(500_000_000));
    assert_eq!(validate_clocking(51_000_000, 5), Ok(255_000_000));
}

#[test]
fn clocking_rejects_the_gap_between_the_bands() {
    assert_eq!(validate_clocking(25_000_000, 7), Err(Error::Frequency));
    assert_eq!(validate_clocking(10_000_000, 20), Err(Error::Frequency));
    assert_eq!(validate_clocking(40_000_001, 4), Err(Error::Frequency));
    assert_eq!(validate_clocking(50_999_999, 5), Err(Error::Frequency));
}

#[test]
fn clocking_rejects_what_is_above_the_upper_band() {
    assert_eq!(validate_clocking(26_000_000, 20), Err(Error::Frequency));
    assert_eq!(validate_clocking(500_000_001, 1), Err(Error::Frequency));
    assert_eq!(validate_clocking(u32::MAX, 20), Err(Error::Frequency));
}

#[test]
fn clocking_without_multiplier_reaches_below_the_bands() {
    assert_eq!(validate_clocking(1_000_000, 1), Ok(1_000_000));
    assert_eq!(validate_clocking(50_000_000, 1), Ok(50_000_000));
    assert_eq!(validate_clocking(99_999_999, 1), Ok(99_999_999));
    assert_eq!(validate_clocking(100_000_000, 1), Ok(100_000_000));
    assert_eq!(validate_clocking(200_000_000, 1), Err(Error::Frequency));
    assert_eq!(validate_clocking(255_000_000, 1), Ok(255_000_000));
}

#[test]
fn clocking_rejects_multipliers_out_of_range() {
    assert_eq!(validate_clocking(25_000_000, 0), Err(Error::Bounds));
    assert_eq!(validate_clocking(25_000_000, 2), Err(Error::Bounds));
    assert_eq!(validate_clocking(25_000_000, 3), Err(Error::Bounds));
    assert_eq!(validate_clocking(25_000_000, 21), Err(Error::Bounds));
    assert_eq!(validate_clocking(25_000_000, 255), Err(Error::Bounds));
}

#[test]
fn clocking_rejects_slow_references() {
    assert_eq!(validate_clocking(999_999, 1), Err(Error::Bounds));
    assert_eq!(validate_clocking(0, 1), Err(Error::Bounds));
    assert_eq!(validate_clocking(9_999_999, 4), Err(Error::Bounds));
    assert_eq!(validate_clocking(9_999_999, 1), Ok(9_999_999));
}

#[test]
fn tuning_word_of_a_quarter_of_the_clock() {
    assert_eq!(frequency_to_ftw(Ratio::new(25_000_000, 1), 100_000_000), Ok(0x4000_0000));
}

#[test]
fn tuning_word_reaches_half_the_clock_and_no_further() {
    assert_eq!(frequency_to_ftw(Ratio::new(50_000_000, 1), 100_000_000), Ok(0x8000_0000));
    assert_eq!(frequency_to_ftw(Ratio::new(50_000_001, 1), 100_000_000), Err(Error::Bounds));
    assert_eq!(frequency_to_ftw(Ratio::new(100_000_001, 2), 100_000_000), Err(Error::Bounds));
    assert_eq!(frequency_to_ftw(Ratio::new(i128::MAX, 1), u32::MAX), Err(Error::Bounds));
}

#[test]
fn tuning_word_rounds_down() {
    assert_eq!(frequency_to_ftw(Ratio::new(1, 1), 100_000_000), Ok(42));
    assert_eq!(frequency_to_ftw(Ratio::new(1, 2), 100_000_000), Ok(21));
    assert_eq!(frequency_to_ftw(Ratio::new(0, 1), 100_000_000), Ok(0));
    assert_eq!(frequency_to_ftw(Ratio::new(10_000_000, 1), 500_000_000), Ok(85_899_345));
}

#[test]
fn tuning_word_rejects_negative_frequencies_and_what_is_no_number() {
    assert_eq!(frequency_to_ftw(Ratio::new(-1, 1), 100_000_000), Err(Error::Bounds));
    assert_eq!(frequency_to_ftw(Ratio::new(1, 0), 100_000_000), Err(Error::Bounds));
    assert_eq!(frequency_to_ftw(Ratio::new(0, 0), 100_000_000), Err(Error::Bounds));
}

#[test]
fn tuning_word_without_a_clock() {
    assert_eq!(frequency_to_ftw(Ratio::new(0, 1), 0), Ok(0));
    assert_eq!(frequency_to_ftw(Ratio::new(1, 1), 0), Err(Error::Bounds));
}

#[test]
fn frequency_of_a_tuning_word() {
    let hz = ftw_to_frequency(0x4000_0000, 100_000_000);
    assert_eq!(hz.num, 0x4000_0000i128 * 100_000_000);
    assert_eq!(hz.den, 1 << 32);
    assert_eq!(value(hz), 25_000_000.0);
    let top = ftw_to_frequency(u32::MAX, u32::MAX);
    assert_eq!(top.num, (u32::MAX as i128) * (u32::MAX as i128));
}

#[test]
fn frequency_round_trip_stays_within_one_step() {
    let system_hz: u32 = 500_000_000;
    for (num, den) in [(0i128, 1u64), (1, 3), (10_000_000, 1), (123_456_789, 1), (250_000_000, 1), (999_999_999, 7)] {
        let target = Ratio::new(num, den);
        let ftw = frequency_to_ftw(target, system_hz).unwrap();
        let back = ftw_to_frequency(ftw, system_hz);
        // 0 <= target - back < system_hz / 2^32, in exact arithmetic
        let diff = num * back.den as i128 - back.num * den as i128;
        assert!(diff >= 0);
        assert!(diff * (1i128 << 32) < system_hz as i128 * den as i128 * back.den as i128);
    }
}

#[test]
fn phase_word_of_a_quarter_turn() {
    assert_eq!(phase_to_pow(Ratio::new(1, 4)), Ok(4096));
    assert_eq!(phase_to_pow(Ratio::new(0, 1)), Ok(0));
    assert_eq!(phase_to_pow(Ratio::new(16383, 16384)), Ok(16383));
}

#[test]
fn phase_word_rounds_down() {
    assert_eq!(phase_to_pow(Ratio::new(1, 3)), Ok(5461));
    assert_eq!(phase_to_pow(Ratio::new(32767, 32768)), Ok(16383));
}

#[test]
fn phase_word_wraps_whole_turns() {
    assert_eq!(phase_to_pow(Ratio::new(1, 1)), Ok(0));
    assert_eq!(phase_to_pow(Ratio::new(5, 4)), Ok(4096));
    assert_eq!(phase_to_pow(Ratio::new(17, 4)), Ok(4096));
    assert_eq!(phase_to_pow(Ratio::new(-1, 4)), Ok(12288));
    assert_eq!(phase_to_pow(Ratio::new(-1, 3)), Ok(10922));
    assert_eq!(phase_to_pow(Ratio::new(-4, 4)), Ok(0));
    assert_eq!(phase_to_pow(Ratio::new(i128::MAX, 1)), Ok(0));
    assert_eq!(phase_to_pow(Ratio::new(i128::MIN, 1)), Ok(0));
    assert_eq!(phase_to_pow(Ratio::new(i128::MIN + 1, u64::MAX)), Ok(8192));
}

#[test]
fn phase_word_of_what_is_no_number() {
    assert_eq!(phase_to_pow(Ratio::new(7, 0)), Ok(0));
}

#[test]
fn phase_of_a_word_ignores_the_top_bits() {
    let quarter = pow_to_phase(4096);
    assert_eq!((quarter.num, quarter.den), (4096, 16384));
    let wrapped = pow_to_phase(0xC000 | 4096);
    assert_eq!((wrapped.num, wrapped.den), (4096, 16384));
    let top = pow_to_phase(0xFFFF);
    assert_eq!((top.num, top.den), (16383, 16384));
}

#[test]
fn phase_round_trip_stays_within_one_step() {
    for (num, den) in [(0i128, 1u64), (1, 3), (1, 4), (2, 7), (99_999, 100_000), (16383, 16384)] {
        let pow = phase_to_pow(Ratio::new(num, den)).unwrap();
        let back = pow_to_phase(pow);
        let diff = num * back.den as i128 - back.num * den as i128;
        assert!(diff >= 0);
        assert!(diff * 16384 < den as i128 * back.den as i128);
    }
}

#[test]
fn amplitude_register_below_full_scale() {
    assert_eq!(amplitude_to_acr(Ratio::new(1, 2)), Ok(0x1200));
    assert_eq!(amplitude_to_acr(Ratio::new(0, 1)), Ok(0x1000));
    assert_eq!(amplitude_to_acr(Ratio::new(1023, 1024)), Ok(0x13FF));
    assert_eq!(amplitude_to_acr(Ratio::new(2047, 2048)), Ok(0x13FF));
    assert_eq!(amplitude_to_acr(Ratio::new(1, 3)), Ok(0x1000 + 341));
}

#[test]
fn amplitude_register_at_full_scale_is_zero() {
    assert_eq!(amplitude_to_acr(Ratio::new(1, 1)), Ok(0));
    assert_eq!(amplitude_to_acr(Ratio::new(u64::MAX as i128, u64::MAX)), Ok(0));
    let back = acr_to_amplitude(acr_bytes(0));
    assert_eq!((back.num, back.den), (1, 1));
}

#[test]
fn amplitude_register_rejects_what_is_out_of_range() {
    assert_eq!(amplitude_to_acr(Ratio::new(-1, 1024)), Err(Error::Bounds));
    assert_eq!(amplitude_to_acr(Ratio::new(1025, 1024)), Err(Error::Bounds));
    assert_eq!(amplitude_to_acr(Ratio::new(2, 1)), Err(Error::Bounds));
    assert_eq!(amplitude_to_acr(Ratio::new(1, 0)), Err(Error::Bounds));
    assert_eq!(amplitude_to_acr(Ratio::new(i128::MAX, 1)), Err(Error::Bounds));
    assert_eq!(amplitude_to_acr(Ratio::new(i128::MIN, 1)), Err(Error::Bounds));
}

#[test]
fn amplitude_of_a_register_with_the_multiplier_on() {
    let half = acr_to_amplitude([0x00, 0x12, 0x00]);
    assert_eq!((half.num, half.den), (512, 1024));
    let most = acr_to_amplitude([0x00, 0x13, 0xFF]);
    assert_eq!((most.num, most.den), (1023, 1024));
    let other_bits = acr_to_amplitude([0xFF, 0xFE, 0x01]);
    assert_eq!((other_bits.num, other_bits.den), (513, 1024));
}

#[test]
fn amplitude_of_a_register_with_the_multiplier_off() {
    let full = acr_to_amplitude([0x00, 0x03, 0xFF]);
    assert_eq!((full.num, full.den), (1, 1));
    let full = acr_to_amplitude([0xFF, 0xEF, 0xFF]);
    assert_eq!((full.num, full.den), (1, 1));
}

#[test]
fn amplitude_round_trip_stays_within_one_step() {
    for (num, den) in [(0i128, 1u64), (1, 3), (1, 2), (999, 1000), (1023, 1024), (1, 1)] {
        let acr = amplitude_to_acr(Ratio::new(num, den)).unwrap();
        let back = acr_to_amplitude(acr_bytes(acr));
        let diff = num * back.den as i128 - back.num * den as i128;
        assert!(diff >= 0);
        assert!(diff * 1024 < den as i128 * back.den as i128);
    }
}

#[test]
fn register_bytes_are_most_significant_first() {
    assert_eq!(ftw_bytes(0x1234_5678), [0x12, 0x34, 0x56, 0x78]);
    assert_eq!(ftw_from_bytes([0x12, 0x34, 0x56, 0x78]), 0x1234_5678);
    assert_eq!(ftw_from_bytes([0xFF; 4]), u32::MAX);
    assert_eq!(pow_bytes(0x1234), [0x12, 0x34]);
    assert_eq!(pow_from_bytes([0x12, 0x34]), 0x1234);
    assert_eq!(acr_bytes(0x0012_3456), [0x12, 0x34, 0x56]);
    assert_eq!(acr_bytes(0xFF12_3456), [0x12, 0x34, 0x56]);
}

#[test]
fn clock_control_sets_multiplier_and_range() {
    assert_eq!(clock_control(0x00, 4, 100_000_000), 0x10);
    assert_eq!(clock_control(0x00, 20, 500_000_000), 0xD0);
    assert_eq!(clock_control(0x00, 1, 50_000_000), 0x04);
    assert_eq!(clock_control(0x00, 31, 0), 0x7C);
}

#[test]
fn clock_control_keeps_the_low_bits_and_replaces_the_rest() {
    assert_eq!(clock_control(0xFF, 1, 50_000_000), 0x07);
    assert_eq!(clock_control(0x03, 0, 200_000_001), 0x83);
    assert_eq!(clock_control(0xFC, 0, 200_000_000), 0x00);
}
