use orbis_encoder::CounterType;
use orbis_encoder::Position;
use orbis_encoder::PositionAndDetailedStatus;
use orbis_encoder::PositionAndStatusInner;
use orbis_encoder::PositionAndTemperature;
use orbis_encoder::ShortPosition;
use std::f64::consts::FRAC_PI_2;
use std::f64::consts::FRAC_PI_4;
use std::f64::consts::PI;

#[test]
fn position_and_status_test_singleturn_position() {
    let mut pos = PositionAndStatusInner::new(CounterType::SingleTurn, 0, 0);

    pos.load(vec![0b00000000, 0b000000_00]);
    assert_eq!(pos.position(), 0);
    pos.load(vec![0b00000000, 0b000000_01]);
    assert_eq!(pos.position(), 0);
    pos.load(vec![0b00000000, 0b000000_10]);
    assert_eq!(pos.position(), 0);
    pos.load(vec![0b00000000, 0b000000_11]);
    assert_eq!(pos.position(), 0);

    pos.load(vec![0b00000000, 0b000001_00]);
    assert_eq!(pos.position(), 1);
    pos.load(vec![0b00000000, 0b000001_01]);
    assert_eq!(pos.position(), 1);
    pos.load(vec![0b00000000, 0b000001_10]);
    assert_eq!(pos.position(), 1);
    pos.load(vec![0b00000000, 0b000001_11]);
    assert_eq!(pos.position(), 1);

    pos.load(vec![0b11111111, 0b111111_00]);
    assert_eq!(pos.position(), -1);
    pos.load(vec![0b11111111, 0b111111_01]);
    assert_eq!(pos.position(), -1);
    pos.load(vec![0b11111111, 0b111111_10]);
    assert_eq!(pos.position(), -1);
    pos.load(vec![0b11111111, 0b111111_11]);
    assert_eq!(pos.position(), -1);

    pos.load(vec![0b01111111, 0b111111_00]);
    assert_eq!(pos.position(), 8191);
    pos.load(vec![0b01111111, 0b111111_01]);
    assert_eq!(pos.position(), 8191);
    pos.load(vec![0b01111111, 0b111111_10]);
    assert_eq!(pos.position(), 8191);
    pos.load(vec![0b01111111, 0b111111_11]);
    assert_eq!(pos.position(), 8191);

    pos.load(vec![0b10000000, 0b000000_00]);
    assert_eq!(pos.position(), -8192);
    pos.load(vec![0b10000000, 0b000000_01]);
    assert_eq!(pos.position(), -8192);
    pos.load(vec![0b10000000, 0b000000_10]);
    assert_eq!(pos.position(), -8192);
    pos.load(vec![0b10000000, 0b000000_11]);
    assert_eq!(pos.position(), -8192);

    pos.load(vec![0b01001000, 0b100010_00]);
    assert_eq!(pos.position(), 4642);
    pos.load(vec![0b11100001, 0b001100_00]);
    assert_eq!(pos.position(), -1972);
    pos.load(vec![0b00101111, 0b100001_00]);
    assert_eq!(pos.position(), 3041);
    pos.load(vec![0b11111011, 0b010010_00]);
    assert_eq!(pos.position(), -302);
    pos.load(vec![0b00001001, 0b011101_00]);
    assert_eq!(pos.position(), 605);
}

#[test]
fn position_test_singleturn_position() {
    const PREFIX_LETTER: u8 = 0x31;

    let mut pos = Position::new(CounterType::SingleTurn);

    pos.load(vec![PREFIX_LETTER, 0b00000000, 0b000000_00]);
    assert_eq!(pos.position(), 0);
    pos.load(vec![PREFIX_LETTER, 0b00000000, 0b000001_00]);
    assert_eq!(pos.position(), 1);
    pos.load(vec![PREFIX_LETTER, 0b11111111, 0b111111_00]);
    assert_eq!(pos.position(), -1);
    pos.load(vec![PREFIX_LETTER, 0b01111111, 0b111111_00]);
    assert_eq!(pos.position(), 8191);
    pos.load(vec![PREFIX_LETTER, 0b10000000, 0b000000_00]);
    assert_eq!(pos.position(), -8192);
    pos.load(vec![PREFIX_LETTER, 0b01001000, 0b100010_00]);
    assert_eq!(pos.position(), 4642);
    pos.load(vec![PREFIX_LETTER, 0b11100001, 0b001100_00]);
    assert_eq!(pos.position(), -1972);
    pos.load(vec![PREFIX_LETTER, 0b00101111, 0b100001_00]);
    assert_eq!(pos.position(), 3041);
    pos.load(vec![PREFIX_LETTER, 0b11111011, 0b010010_00]);
    assert_eq!(pos.position(), -302);
    pos.load(vec![PREFIX_LETTER, 0b00001001, 0b011101_00]);
    assert_eq!(pos.position(), 605);
}

#[test]
fn position_and_detailed_status_test_singleturn_position() {
    const PREFIX_LETTER: u8 = 0x64;

    let mut pos = PositionAndDetailedStatus::new(CounterType::SingleTurn);

    pos.load(vec![PREFIX_LETTER, 0b00000000, 0b000000_00, 0b00000000]);
    assert_eq!(pos.position(), 0);
    pos.load(vec![PREFIX_LETTER, 0b00000000, 0b000001_00, 0b00000000]);
    assert_eq!(pos.position(), 1);
    pos.load(vec![PREFIX_LETTER, 0b11111111, 0b111111_00, 0b00000000]);
    assert_eq!(pos.position(), -1);
    pos.load(vec![PREFIX_LETTER, 0b01111111, 0b111111_00, 0b00000000]);
    assert_eq!(pos.position(), 8191);
    pos.load(vec![PREFIX_LETTER, 0b10000000, 0b000000_00, 0b00000000]);
    assert_eq!(pos.position(), -8192);
    pos.load(vec![PREFIX_LETTER, 0b01001000, 0b100010_00, 0b00000000]);
    assert_eq!(pos.position(), 4642);
    pos.load(vec![PREFIX_LETTER, 0b11100001, 0b001100_00, 0b00000000]);
    assert_eq!(pos.position(), -1972);
    pos.load(vec![PREFIX_LETTER, 0b00101111, 0b100001_00, 0b00000000]);
    assert_eq!(pos.position(), 3041);
    pos.load(vec![PREFIX_LETTER, 0b11111011, 0b010010_00, 0b00000000]);
    assert_eq!(pos.position(), -302);
    pos.load(vec![PREFIX_LETTER, 0b00001001, 0b011101_00, 0b00000000]);
    assert_eq!(pos.position(), 605);
}

#[test]
fn test_detailed_status() {
    const PREFIX_LETTER: u8 = 0x64;

    let mut result = PositionAndDetailedStatus::new(CounterType::SingleTurn);

    result.load(vec![PREFIX_LETTER, 0b00000000, 0b000000_00, 0b00000000]);
    assert!(!result.is_signal_too_high());
    assert!(!result.is_signal_too_low());
    assert!(!result.is_temperature_out_of_range());
    assert!(!result.is_speed_too_high());
    assert!(!result.is_multiturn_counter_error());

    result.load(vec![PREFIX_LETTER, 0b00000000, 0b000000_00, 0b10000000]);
    assert!(result.is_signal_too_high());
    assert!(!result.is_signal_too_low());
    assert!(!result.is_temperature_out_of_range());
    assert!(!result.is_speed_too_high());
    assert!(!result.is_multiturn_counter_error());

    result.load(vec![PREFIX_LETTER, 0b00000000, 0b000000_00, 0b01000000]);
    assert!(!result.is_signal_too_high());
    assert!(result.is_signal_too_low());
    assert!(!result.is_temperature_out_of_range());
    assert!(!result.is_speed_too_high());
    assert!(!result.is_multiturn_counter_error());

    result.load(vec![PREFIX_LETTER, 0b00000000, 0b000000_00, 0b00100000]);
    assert!(!result.is_signal_too_high());
    assert!(!result.is_signal_too_low());
    assert!(result.is_temperature_out_of_range());
    assert!(!result.is_speed_too_high());
    assert!(!result.is_multiturn_counter_error());

    result.load(vec![PREFIX_LETTER, 0b00000000, 0b000000_00, 0b00010000]);
    assert!(!result.is_signal_too_high());
    assert!(!result.is_signal_too_low());
    assert!(!result.is_temperature_out_of_range());
    assert!(result.is_speed_too_high());
    assert!(!result.is_multiturn_counter_error());

    result.load(vec![PREFIX_LETTER, 0b00000000, 0b000000_00, 0b00001000]);
    assert!(!result.is_signal_too_high());
    assert!(!result.is_signal_too_low());
    assert!(!result.is_temperature_out_of_range());
    assert!(!result.is_speed_too_high());
    assert!(result.is_multiturn_counter_error());

    result.load(vec![PREFIX_LETTER, 0b00000000, 0b000000_00, 0b11111000]);
    assert!(result.is_signal_too_high());
    assert!(result.is_signal_too_low());
    assert!(result.is_temperature_out_of_range());
    assert!(result.is_speed_too_high());
    assert!(result.is_multiturn_counter_error());
}

#[test]
fn position_and_temperature_test_singleturn_position() {
    const PREFIX_LETTER: u8 = 0x74;

    let mut pos = PositionAndTemperature::new(CounterType::SingleTurn);

    pos.load(vec![PREFIX_LETTER, 0b00000000, 0b000000_00, 0x00, 0x00]);
    assert_eq!(pos.position(), 0);
    pos.load(vec![PREFIX_LETTER, 0b00000000, 0b000001_00, 0x00, 0x00]);
    assert_eq!(pos.position(), 1);
    pos.load(vec![PREFIX_LETTER, 0b11111111, 0b111111_00, 0x00, 0x00]);
    assert_eq!(pos.position(), -1);
    pos.load(vec![PREFIX_LETTER, 0b01111111, 0b111111_00, 0x00, 0x00]);
    assert_eq!(pos.position(), 8191);
    pos.load(vec![PREFIX_LETTER, 0b10000000, 0b000000_00, 0x00, 0x00]);
    assert_eq!(pos.position(), -8192);
    pos.load(vec![PREFIX_LETTER, 0b01001000, 0b100010_00, 0x00, 0x00]);
    assert_eq!(pos.position(), 4642);
    pos.load(vec![PREFIX_LETTER, 0b11100001, 0b001100_00, 0x00, 0x00]);
    assert_eq!(pos.position(), -1972);
    pos.load(vec![PREFIX_LETTER, 0b00101111, 0b100001_00, 0x00, 0x00]);
    assert_eq!(pos.position(), 3041);
    pos.load(vec![PREFIX_LETTER, 0b11111011, 0b010010_00, 0x00, 0x00]);
    assert_eq!(pos.position(), -302);
    pos.load(vec![PREFIX_LETTER, 0b00001001, 0b011101_00, 0x00, 0x00]);
    assert_eq!(pos.position(), 605);
}

#[test]
fn test_temperature() {
    const PREFIX_LETTER: u8 = 0x74;

    let mut result = PositionAndTemperature::new(CounterType::SingleTurn);

    result.load(vec![PREFIX_LETTER, 0b00000000, 0b000000_00, 0x00, 0x00]);
    assert!((result.temperature_decis() as f64 / 10.0 - 0.0).abs() < 1e-6);
    result.load(vec![PREFIX_LETTER, 0b00000000, 0b000000_00, 0x00, 0x64]);
    assert!((result.temperature_decis() as f64 / 10.0 - 10.0).abs() < 1e-6);
    result.load(vec![PREFIX_LETTER, 0b00000000, 0b000000_00, 0x01, 0x0D]);
    assert!((result.temperature_decis() as f64 / 10.0 - 26.9).abs() < 1e-6);
    result.load(vec![PREFIX_LETTER, 0b00000000, 0b000000_00, 0x30, 0x39]);
    assert!((result.temperature_decis() as f64 / 10.0 - 1234.5).abs() < 1e-6);
    result.load(vec![PREFIX_LETTER, 0b00000000, 0b000000_00, 0xFF, 0x9C]);
    assert!((result.temperature_decis() as f64 / 10.0 - -10.0).abs() < 1e-6);
    result.load(vec![PREFIX_LETTER, 0b00000000, 0b000000_00, 0xF5, 0x54]);
    assert!((result.temperature_decis() as f64 / 10.0 - -273.2).abs() < 1e-6);
}

#[test]
fn test_angle() {
    fn angle_rad(pos: &Position) -> f64 {
        2.0 * PI * (pos.angle_counts() as f64) / 16384.0
    }

    // Raw words carrying each test position in their high 14 bits.
    let cases: [([u8; 2], f64); 6] = [
        ([0b00000000, 0b000000_00], 0.0),
        ([0b00100000, 0b000000_00], FRAC_PI_4),
        ([0b01000000, 0b000000_00], FRAC_PI_2),
        ([0b11000000, 0b000000_00], -FRAC_PI_2),
        ([0b10000000, 0b000000_00], -PI),
        ([0b11100000, 0b000000_00], -FRAC_PI_4),
    ];

    for (raw, expected) in cases {
        let mut pos = Position::new(CounterType::SingleTurn);
        pos.load(vec![0x31, raw[0], raw[1]]);
        assert!((angle_rad(&pos) - expected).abs() < 1e-6);
    }
}

#[test]
fn test_multiturn_count() {
    let mut pos = Position::new(CounterType::MultiTurn);
    assert_eq!(pos.total_size(), 5);

    // prefix, multiturn count 2, position 3
    pos.load(vec![0x31, 0x00, 0x02, 0b00000000, 0b000011_00]);
    assert_eq!(pos.multiturn_count(), Some(2));
    assert_eq!(pos.position(), 3);
    assert_eq!(pos.angle_counts(), 2 * 16384 + 3);

    // negative multiturn count
    pos.load(vec![0x31, 0xFF, 0xFE, 0b00000000, 0b000000_00]);
    assert_eq!(pos.multiturn_count(), Some(-2));
    assert_eq!(pos.angle_counts(), -2 * 16384);

    let single = Position::new(CounterType::SingleTurn);
    assert_eq!(single.total_size(), 3);
    assert_eq!(single.multiturn_count(), None);
    assert_eq!(single.counter_type(), CounterType::SingleTurn);
    assert_eq!(pos.counter_type(), CounterType::MultiTurn);
}

#[test]
fn test_error_warning_inverted_logic() {
    // The device signals error/warning with a *clear* bit: a zeroed status
    // byte reports both conditions, a status byte with both low bits set
    // reports neither.
    let mut pos = ShortPosition::new(CounterType::SingleTurn);

    pos.load(vec![0x33, 0b00000000, 0b000000_00]);
    assert!(pos.is_error());
    assert!(pos.is_warning());

    pos.load(vec![0x33, 0b00000000, 0b000000_11]);
    assert!(!pos.is_error());
    assert!(!pos.is_warning());

    pos.load(vec![0x33, 0b00000000, 0b000000_10]);
    assert!(!pos.is_error());
    assert!(pos.is_warning());

    pos.load(vec![0x33, 0b00000000, 0b000000_01]);
    assert!(pos.is_error());
    assert!(!pos.is_warning());
}

#[test]
fn test_layout_offsets() {
    let multi = PositionAndStatusInner::new(CounterType::MultiTurn, 1, 2);
    assert_eq!(multi.prefix_size(), 1);
    assert_eq!(multi.multiturn_offset(), Some(1));
    assert_eq!(multi.position_offset(), 3);
    assert_eq!(multi.status_offset(), 4);
    assert_eq!(multi.postfix_offset(), Some(5));
    assert_eq!(multi.total_size(), 7);

    let single = PositionAndStatusInner::new(CounterType::SingleTurn, 1, 0);
    assert_eq!(single.prefix_size(), 1);
    assert_eq!(single.multiturn_offset(), None);
    assert_eq!(single.position_offset(), 1);
    assert_eq!(single.status_offset(), 2);
    assert_eq!(single.postfix_offset(), None);
    assert_eq!(single.total_size(), 3);

    let mut bare = PositionAndStatusInner::new(CounterType::SingleTurn, 0, 0);
    assert!(bare.prefix().is_none());
    assert!(bare.postfix().is_none());
    bare.load(vec![0x12, 0x34]);
    assert_eq!(bare.position(), 0x1234 >> 2);

    let mut framed = PositionAndStatusInner::new(CounterType::SingleTurn, 1, 1);
    framed.load(vec![0x31, 0x00, 0x00, 0xAB]);
    assert_eq!(framed.prefix().unwrap(), &[0x31]);
    assert_eq!(framed.postfix().unwrap(), &[0xAB]);
}
