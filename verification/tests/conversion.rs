use lsm303agr::conversion::{count_of_word, i16_from_le};
use lsm303agr::{
    convert_fifo_status, convert_interrupt_status, convert_status, convert_temperature_status,
    AccelMode, AccelScale, FifoStatus, InterruptStatus, Measurement, Status, TemperatureStatus,
    UnscaledMeasurement,
};

#[test]
fn scaling_factor_matches_the_table() {
    let scales = [AccelScale::G2, AccelScale::G4, AccelScale::G8, AccelScale::G16];
    let high: Vec<i32> = scales
        .iter()
        .map(|s| AccelMode::HighResolution.scaling_factor(*s))
        .collect();
    let normal: Vec<i32> = scales.iter().map(|s| AccelMode::Normal.scaling_factor(*s)).collect();
    let low: Vec<i32> = scales.iter().map(|s| AccelMode::LowPower.scaling_factor(*s)).collect();
    assert_eq!(high, vec![1, 2, 4, 8]);
    assert_eq!(normal, vec![4, 8, 16, 32]);
    assert_eq!(low, vec![16, 32, 64, 128]);
}

#[test]
fn scaling_factor_is_zero_when_powered_down() {
    for scale in [AccelScale::G2, AccelScale::G4, AccelScale::G8, AccelScale::G16] {
        assert_eq!(AccelMode::PowerDown.scaling_factor(scale), 0);
    }
}

#[test]
fn resolution_shift_matches_the_table() {
    assert_eq!(AccelMode::PowerDown.resolution_shift(), 0);
    assert_eq!(AccelMode::HighResolution.resolution_shift(), 4);
    assert_eq!(AccelMode::Normal.resolution_shift(), 6);
    assert_eq!(AccelMode::LowPower.resolution_shift(), 8);
}

#[test]
fn factor_follows_range_and_shift() {
    for mode in [AccelMode::HighResolution, AccelMode::Normal, AccelMode::LowPower] {
        for (scale, g) in [
            (AccelScale::G2, 2),
            (AccelScale::G4, 4),
            (AccelScale::G8, 8),
            (AccelScale::G16, 16),
        ] {
            assert_eq!(32 * mode.scaling_factor(scale), g * (1 << mode.resolution_shift()));
        }
    }
}

#[test]
fn status_all_set() {
    assert_eq!(
        convert_status(0xFF),
        Status {
            xyz_overrun: true,
            x_overrun: true,
            y_overrun: true,
            z_overrun: true,
            xyz_new_data: true,
            x_new_data: true,
            y_new_data: true,
            z_new_data: true,
        }
    );
}

#[test]
fn status_all_clear() {
    assert_eq!(convert_status(0x00), Status::default());
}

#[test]
fn status_mixed_value() {
    // 0x91: overrun of all axes, overrun of X, new data on X
    assert_eq!(
        convert_status(0x91),
        Status {
            xyz_overrun: true,
            x_overrun: true,
            y_overrun: false,
            z_overrun: false,
            xyz_new_data: false,
            x_new_data: true,
            y_new_data: false,
            z_new_data: false,
        }
    );
}

#[test]
fn status_one_bit_at_a_time() {
    assert!(convert_status(0x01).x_new_data);
    assert!(convert_status(0x02).y_new_data);
    assert!(convert_status(0x04).z_new_data);
    assert!(convert_status(0x08).xyz_new_data);
    assert!(convert_status(0x10).x_overrun);
    assert!(convert_status(0x20).y_overrun);
    assert!(convert_status(0x40).z_overrun);
    assert!(convert_status(0x80).xyz_overrun);
    assert_eq!(
        convert_status(0x20),
        Status { y_overrun: true, ..Status::default() }
    );
}

#[test]
fn fifo_status_all_set_and_all_clear() {
    assert_eq!(
        convert_fifo_status(0xFF),
        FifoStatus { watermark: true, overrun: true, empty: true, fss_unread: 31 }
    );
    assert_eq!(
        convert_fifo_status(0x00),
        FifoStatus { watermark: false, overrun: false, empty: false, fss_unread: 0 }
    );
}

#[test]
fn fifo_status_mixed_values() {
    assert_eq!(
        convert_fifo_status(0x20),
        FifoStatus { watermark: false, overrun: false, empty: true, fss_unread: 0 }
    );
    assert_eq!(
        convert_fifo_status(0x5F),
        FifoStatus { watermark: false, overrun: true, empty: false, fss_unread: 31 }
    );
    assert_eq!(
        convert_fifo_status(0x8A),
        FifoStatus { watermark: true, overrun: false, empty: false, fss_unread: 10 }
    );
}

#[test]
fn temperature_status_decoding() {
    assert_eq!(
        convert_temperature_status(0xFF),
        TemperatureStatus { overrun: true, new_data: true }
    );
    assert_eq!(convert_temperature_status(0x00), TemperatureStatus::default());
    assert_eq!(
        convert_temperature_status(0x04),
        TemperatureStatus { overrun: false, new_data: true }
    );
    assert_eq!(
        convert_temperature_status(0x40),
        TemperatureStatus { overrun: true, new_data: false }
    );
    // the other six bits say nothing
    assert_eq!(convert_temperature_status(0xBB), TemperatureStatus::default());
}

#[test]
fn interrupt_status_decoding() {
    assert_eq!(
        convert_interrupt_status(0xFF),
        InterruptStatus {
            active: true,
            z_high: true,
            z_low: true,
            y_high: true,
            y_low: true,
            x_high: true,
            x_low: true,
        }
    );
    let none = InterruptStatus {
        active: false,
        z_high: false,
        z_low: false,
        y_high: false,
        y_low: false,
        x_high: false,
        x_low: false,
    };
    assert_eq!(convert_interrupt_status(0x00), none);
    // bit 7 is not a flag
    assert_eq!(convert_interrupt_status(0x80), none);
    assert_eq!(
        convert_interrupt_status(0x4A),
        InterruptStatus { active: true, y_high: true, x_high: true, ..none }
    );
    assert_eq!(convert_interrupt_status(0x01), InterruptStatus { x_low: true, ..none });
    assert_eq!(convert_interrupt_status(0x04), InterruptStatus { y_low: true, ..none });
    assert_eq!(convert_interrupt_status(0x10), InterruptStatus { z_low: true, ..none });
    assert_eq!(convert_interrupt_status(0x20), InterruptStatus { z_high: true, ..none });
}

#[test]
fn little_endian_words() {
    assert_eq!(i16_from_le(0x00, 0x00), 0);
    assert_eq!(i16_from_le(0x34, 0x12), 0x1234);
    assert_eq!(i16_from_le(0xFF, 0x7F), i16::MAX);
    assert_eq!(i16_from_le(0x00, 0x80), i16::MIN);
    assert_eq!(i16_from_le(0xFF, 0xFF), -1);
    assert_eq!(i16_from_le(0xE0, 0xFC), -800);
}

#[test]
fn count_is_the_word_shifted_right() {
    assert_eq!(count_of_word(1600, AccelMode::HighResolution), 100);
    assert_eq!(count_of_word(-800, AccelMode::HighResolution), -50);
    assert_eq!(count_of_word(1600, AccelMode::Normal), 25);
    assert_eq!(count_of_word(1600, AccelMode::LowPower), 6);
    assert_eq!(count_of_word(1600, AccelMode::PowerDown), 1600);
    assert_eq!(count_of_word(i16::MAX, AccelMode::LowPower), 127);
    assert_eq!(count_of_word(i16::MIN, AccelMode::LowPower), -128);
    assert_eq!(count_of_word(i16::MIN, AccelMode::HighResolution), -2048);
    assert_eq!(count_of_word(i16::MAX, AccelMode::HighResolution), 2047);
}

#[test]
fn count_rounds_down_below_zero() {
    // a shift keeps the sign bit: -1 stays -1, and -17 / 16 goes to -2
    assert_eq!(count_of_word(-1, AccelMode::HighResolution), -1);
    assert_eq!(count_of_word(-17, AccelMode::HighResolution), -2);
    assert_eq!(count_of_word(-1, AccelMode::Normal), -1);
    assert_eq!(count_of_word(-257, AccelMode::LowPower), -2);
    assert_eq!(count_of_word(15, AccelMode::HighResolution), 0);
}

#[test]
fn unscaled_from_registers() {
    let data = [0x40, 0x06, 0xE0, 0xFC, 0x00, 0x00];
    assert_eq!(
        UnscaledMeasurement::from_registers(&data, AccelMode::HighResolution),
        UnscaledMeasurement { x: 100, y: -50, z: 0 }
    );
    assert_eq!(
        UnscaledMeasurement::from_registers(&data, AccelMode::Normal),
        UnscaledMeasurement { x: 25, y: -13, z: 0 }
    );
    assert_eq!(
        UnscaledMeasurement::from_registers(&data, AccelMode::LowPower),
        UnscaledMeasurement { x: 6, y: -4, z: 0 }
    );
    assert_eq!(
        UnscaledMeasurement::from_registers(&data, AccelMode::PowerDown),
        UnscaledMeasurement { x: 1600, y: -800, z: 0 }
    );
}

#[test]
fn unscaled_takes_each_axis_from_its_own_registers() {
    let data = [0x10, 0x00, 0x20, 0x00, 0x30, 0x00];
    assert_eq!(
        UnscaledMeasurement::from_registers(&data, AccelMode::HighResolution),
        UnscaledMeasurement { x: 1, y: 2, z: 3 }
    );
}

#[test]
fn scaled_multiplies_each_axis() {
    let raw = UnscaledMeasurement { x: 100, y: -50, z: 0 };
    assert_eq!(
        raw.scaled(AccelMode::HighResolution, AccelScale::G4),
        Measurement { x: 200, y: -100, z: 0 }
    );
    assert_eq!(
        raw.scaled(AccelMode::LowPower, AccelScale::G16),
        Measurement { x: 12800, y: -6400, z: 0 }
    );
    assert_eq!(
        raw.scaled(AccelMode::Normal, AccelScale::G2),
        Measurement { x: 400, y: -200, z: 0 }
    );
    assert_eq!(raw.scaled(AccelMode::PowerDown, AccelScale::G8), Measurement::default());
}

#[test]
fn scaled_at_the_ends_of_the_range() {
    let raw = UnscaledMeasurement { x: i16::MAX, y: i16::MIN, z: -1 };
    assert_eq!(
        raw.scaled(AccelMode::LowPower, AccelScale::G16),
        Measurement { x: 32767 * 128, y: -32768 * 128, z: -128 }
    );
}
