use lsm6dsr::accelerometer::AccelSampleRate;
use lsm6dsr::accelerometer::AccelScale;
use lsm6dsr::bitfield::apply_field;
use lsm6dsr::codec::decode_i16_le;
use lsm6dsr::codec::decode_triplet_le;
use lsm6dsr::codec::frame_write;
use lsm6dsr::codec::AxisTriplet;
use lsm6dsr::commands::convert_temp_micro;
use lsm6dsr::commands::identity_matches;
use lsm6dsr::gyroscope::GyroSampleRate;
use lsm6dsr::gyroscope::GyroScale;

#[test]
fn accel_scale_round_trip() {
    let variants = [
        AccelScale::Scale2,
        AccelScale::Scale4,
        AccelScale::Scale8,
        AccelScale::Scale16,
    ];
    for v in variants {
        assert_eq!(AccelScale::from_bits(v.to_bits()), v);
    }
}

#[test]
fn accel_scale_decode_ignores_neighbor_bits() {
    // scale field is bits 2-3; everything else must be masked away
    assert_eq!(AccelScale::from_bits(0b1111_0011), AccelScale::Scale2);
    assert_eq!(AccelScale::from_bits(0b1011_1001), AccelScale::Scale4);
    assert_eq!(AccelScale::from_bits(0b1111_1111), AccelScale::Scale8);
    assert_eq!(AccelScale::from_bits(0b0101_0110), AccelScale::Scale16);
}

#[test]
fn accel_rate_round_trip() {
    let variants = [
        AccelSampleRate::Off,
        AccelSampleRate::Hz12_5,
        AccelSampleRate::Hz26,
        AccelSampleRate::Hz52,
        AccelSampleRate::Hz104,
        AccelSampleRate::Hz208,
        AccelSampleRate::Hz416,
        AccelSampleRate::Hz833,
        AccelSampleRate::KHz1_66,
        AccelSampleRate::KHz3_33,
        AccelSampleRate::KHz6_66,
    ];
    for v in variants {
        assert_eq!(AccelSampleRate::from_bits(v.to_bits()), Some(v));
    }
}

#[test]
fn accel_rate_unrecognized_codes_decode_to_none() {
    assert_eq!(AccelSampleRate::from_bits(0b1100_0000), None);
    assert_eq!(AccelSampleRate::from_bits(0b1101_0000), None);
    assert_eq!(AccelSampleRate::from_bits(0b1110_0000), None);
    assert_eq!(AccelSampleRate::from_bits(0b1111_1111), None);
}

#[test]
fn gyro_scale_round_trip() {
    let variants = [
        GyroScale::Scale125,
        GyroScale::Scale250,
        GyroScale::Scale500,
        GyroScale::Scale1k,
        GyroScale::Scale2k,
        GyroScale::Scale4k,
    ];
    for v in variants {
        assert_eq!(GyroScale::from_bits(v.to_bits()), v);
    }
}

#[test]
fn gyro_scale_4k_bit_takes_priority() {
    // both dedicated select bits set: the 4000 dps bit wins
    assert_eq!(GyroScale::from_bits(0b0000_0011), GyroScale::Scale4k);
}

#[test]
fn gyro_scale_decode_ignores_neighbor_bits() {
    assert_eq!(GyroScale::from_bits(0b1010_0000), GyroScale::Scale250);
    assert_eq!(GyroScale::from_bits(0b0111_1100), GyroScale::Scale2k);
}

#[test]
fn gyro_rate_round_trip() {
    let variants = [
        GyroSampleRate::Off,
        GyroSampleRate::Hz12_5,
        GyroSampleRate::Hz26,
        GyroSampleRate::Hz52,
        GyroSampleRate::Hz104,
        GyroSampleRate::Hz208,
        GyroSampleRate::Hz416,
        GyroSampleRate::Hz833,
        GyroSampleRate::KHz1_66,
        GyroSampleRate::KHz3_33,
        GyroSampleRate::KHz6_66,
    ];
    for v in variants {
        assert_eq!(GyroSampleRate::from_bits(v.to_bits()), Some(v));
    }
}

#[test]
fn gyro_rate_unrecognized_codes_decode_to_none() {
    assert_eq!(GyroSampleRate::from_bits(0b1011_0000), None);
    assert_eq!(GyroSampleRate::from_bits(0b1111_0000), None);
}

#[test]
fn apply_field_preserves_bits_outside_mask() {
    let old_bytes = [0x00u8, 0xFF, 0b1010_1010, 0b0101_0101, 0b1011_0001];
    let fields = [0b0000_0000u8, 0b0000_0100, 0b0000_1000, 0b0000_1100];
    for old in old_bytes {
        for field in fields {
            let new = apply_field(old, 0b0000_1100, 0b1111_0011, field);
            assert_eq!(new & 0b1111_0011, old & 0b1111_0011);
            assert_eq!(new & 0b0000_1100, field);
        }
    }
}

#[test]
fn apply_field_exact_value() {
    assert_eq!(
        apply_field(0b1111_1111, 0b0000_1100, 0b1111_0011, 0b0000_0100),
        0b1111_0111
    );
    assert_eq!(
        apply_field(0b0000_0000, 0b1111_0000, 0b0000_1111, 0b1011_0000),
        0b1011_0000
    );
}

#[test]
fn decode_i16_le_values() {
    assert_eq!(decode_i16_le(0x01, 0x00), 1);
    assert_eq!(decode_i16_le(0xFF, 0xFF), -1);
    assert_eq!(decode_i16_le(0x00, 0x80), -32768);
    assert_eq!(decode_i16_le(0xFF, 0x7F), 32767);
    assert_eq!(decode_i16_le(0x34, 0x12), 0x1234);
    assert_eq!(decode_i16_le(0x00, 0x00), 0);
}

#[test]
fn decode_triplet_le_values() {
    let bytes = [0x01u8, 0x00, 0x02, 0x00, 0xFF, 0xFF];
    let t = decode_triplet_le(&bytes);
    assert_eq!(t, AxisTriplet { x: 1, y: 2, z: -1 });
}

#[test]
fn frame_write_prefixes_register() {
    let payload = [0x11u8, 0x22, 0x33];
    assert_eq!(frame_write(0x10, &payload), vec![0x10, 0x11, 0x22, 0x33]);
    let empty: [u8; 0] = [];
    assert_eq!(frame_write(0x18, &empty), vec![0x18]);
}

#[test]
fn accel_coefficients() {
    assert_eq!(AccelScale::Scale2.coefficient_micro_g(), 61);
    assert_eq!(AccelScale::Scale4.coefficient_micro_g(), 122);
    assert_eq!(AccelScale::Scale8.coefficient_micro_g(), 244);
    assert_eq!(AccelScale::Scale16.coefficient_micro_g(), 488);
}

#[test]
fn accel_convert_is_linear() {
    let variants = [
        AccelScale::Scale2,
        AccelScale::Scale4,
        AccelScale::Scale8,
        AccelScale::Scale16,
    ];
    for v in variants {
        let c = v.coefficient_micro_g() as i64;
        assert_eq!(v.convert_micro_g(0), 0);
        assert_eq!(v.convert_micro_g(1), c);
        assert_eq!(v.convert_micro_g(-1), -c);
        assert_eq!(v.convert_micro_g(32767), 32767 * c);
        assert_eq!(v.convert_micro_g(-32768), -32768 * c);
    }
}

#[test]
fn accel_convert_matches_datasheet_formula() {
    // value_g == raw * coefficient_milli_g_per_lsb / 1000
    let micro_g = AccelScale::Scale2.convert_micro_g(1000);
    let value_g = micro_g as f64 / 1_000_000.0;
    assert!((value_g - 1000.0 * 0.061 / 1000.0).abs() < 1e-12);
}

#[test]
fn gyro_coefficients() {
    assert_eq!(GyroScale::Scale125.coefficient_micro_dps(), 4375);
    assert_eq!(GyroScale::Scale250.coefficient_micro_dps(), 8750);
    assert_eq!(GyroScale::Scale500.coefficient_micro_dps(), 17500);
    assert_eq!(GyroScale::Scale1k.coefficient_micro_dps(), 35000);
    assert_eq!(GyroScale::Scale2k.coefficient_micro_dps(), 70000);
    assert_eq!(GyroScale::Scale4k.coefficient_micro_dps(), 140000);
}

#[test]
fn gyro_convert_is_linear() {
    let variants = [
        GyroScale::Scale125,
        GyroScale::Scale250,
        GyroScale::Scale500,
        GyroScale::Scale1k,
        GyroScale::Scale2k,
        GyroScale::Scale4k,
    ];
    for v in variants {
        let c = v.coefficient_micro_dps() as i64;
        assert_eq!(v.convert_micro_dps(0), 0);
        assert_eq!(v.convert_micro_dps(1), c);
        assert_eq!(v.convert_micro_dps(-1), -c);
        assert_eq!(v.convert_micro_dps(32767), 32767 * c);
        assert_eq!(v.convert_micro_dps(-32768), -32768 * c);
    }
}

#[test]
fn gyro_convert_matches_datasheet_formula() {
    // value_dps == raw * coefficient_milli_dps_per_lsb / 1000
    let micro_dps = GyroScale::Scale250.convert_micro_dps(2000);
    let value_dps = micro_dps as f64 / 1_000_000.0;
    assert!((value_dps - 2000.0 * 8.75 / 1000.0).abs() < 1e-9);
}

#[test]
fn temperature_conversion_values() {
    assert_eq!(convert_temp_micro(0), 25_000_000);
    assert_eq!(convert_temp_micro(16), 26_000_000);
    assert_eq!(convert_temp_micro(-16), 24_000_000);
    assert_eq!(convert_temp_micro(8), 25_500_000);
}

#[test]
fn identity_matches_only_the_documented_value() {
    assert!(identity_matches(0b01101011));
    assert!(!identity_matches(0b01101010));
    assert!(!identity_matches(0x00));
    assert!(!identity_matches(0xFF));
}
