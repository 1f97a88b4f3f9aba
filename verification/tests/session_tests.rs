use lsm6dsr::accelerometer::AccelSampleRate;
use lsm6dsr::accelerometer::AccelScale;
use lsm6dsr::codec::AxisTriplet;
use lsm6dsr::gyroscope::GyroSampleRate;
use lsm6dsr::gyroscope::GyroScale;
use lsm6dsr::transport::I2cBus;
use lsm6dsr::Lsm6dsr;
use lsm6dsr::DEVICE_ADDRESS;

#[derive(Debug, PartialEq, Eq)]
struct MockError;

/// A mock transport backed by a plain register file. A write transaction
/// stores its payload at consecutive registers starting at the one named by
/// the first byte; a read returns consecutive register contents.
struct MockBus {
    regs: [u8; 256],
    fail_writes: bool,
    fail_reads: bool,
}

impl MockBus {
    fn new() -> MockBus {
        MockBus {
            regs: [0u8; 256],
            fail_writes: false,
            fail_reads: false,
        }
    }
}

impl I2cBus for MockBus {
    type BusError = MockError;

    fn write(&mut self, address: u8, bytes: &[u8]) -> Result<(), MockError> {
        assert_eq!(address, DEVICE_ADDRESS);
        if self.fail_writes {
            return Err(MockError);
        }
        assert!(!bytes.is_empty());
        let register = bytes[0] as usize;
        for (i, b) in bytes[1..].iter().enumerate() {
            self.regs[register + i] = *b;
        }
        Ok(())
    }

    fn read(&mut self, address: u8, register: u8, len: usize) -> Result<Vec<u8>, MockError> {
        assert_eq!(address, DEVICE_ADDRESS);
        if self.fail_reads {
            return Err(MockError);
        }
        let start = register as usize;
        Ok(self.regs[start..start + len].to_vec())
    }
}

#[test]
fn is_valid_true_on_correct_identity() {
    let mut bus = MockBus::new();
    bus.regs[0x0F] = 0b01101011;
    let mut dev = Lsm6dsr::new(bus);
    assert_eq!(dev.is_valid(), Ok(true));
}

#[test]
fn is_valid_false_on_other_identity() {
    let mut bus = MockBus::new();
    bus.regs[0x0F] = 0b01101010;
    let mut dev = Lsm6dsr::new(bus);
    assert_eq!(dev.is_valid(), Ok(false));
}

#[test]
fn is_valid_propagates_transport_error() {
    let mut bus = MockBus::new();
    bus.regs[0x0F] = 0b01101011;
    bus.fail_reads = true;
    let mut dev = Lsm6dsr::new(bus);
    assert_eq!(dev.is_valid(), Err(MockError));
}

#[test]
fn new_session_has_power_on_defaults() {
    let dev = Lsm6dsr::new(MockBus::new());
    assert_eq!(dev.accel_scale(), AccelScale::Scale2);
    assert_eq!(dev.gyro_scale(), GyroScale::Scale250);
}

#[test]
fn set_accel_scale_updates_chip_and_believed_value() {
    let mut bus = MockBus::new();
    bus.regs[0x10] = 0b1011_0001;
    let mut dev = Lsm6dsr::new(bus);
    assert_eq!(dev.set_accel_scale(AccelScale::Scale16), Ok(()));
    assert_eq!(dev.accel_scale(), AccelScale::Scale16);
    assert_eq!(dev.get_accel_scale(), Ok(AccelScale::Scale16));
}

#[test]
fn set_accel_scale_preserves_neighbor_bits() {
    let mut bus = MockBus::new();
    bus.regs[0x10] = 0b1011_0001;
    let mut dev = Lsm6dsr::new(bus);
    assert_eq!(dev.set_accel_scale(AccelScale::Scale16), Ok(()));
    // bits 4-7 (sample rate) and bits 0-1 stay; bits 2-3 become 0b01
    let t = dev.read_trio_i16(0x10).unwrap();
    let control_byte = (t.x as u16 & 0x00FF) as u8;
    assert_eq!(control_byte, 0b1011_0101);
}

#[test]
fn failed_set_accel_scale_keeps_believed_value() {
    let mut bus = MockBus::new();
    bus.regs[0x10] = 0b0000_1000; // chip at Scale4
    bus.fail_writes = true;
    let mut dev = Lsm6dsr::new(bus);
    assert_eq!(dev.set_accel_scale(AccelScale::Scale8), Err(MockError));
    // believed value is still the pre-call one
    assert_eq!(dev.accel_scale(), AccelScale::Scale2);
}

#[test]
fn get_accel_scale_reads_chip_without_touching_believed_value() {
    let mut bus = MockBus::new();
    bus.regs[0x10] = 0b0000_1000;
    let mut dev = Lsm6dsr::new(bus);
    assert_eq!(dev.get_accel_scale(), Ok(AccelScale::Scale4));
    assert_eq!(dev.accel_scale(), AccelScale::Scale2);
}

#[test]
fn set_gyro_scale_updates_chip_and_believed_value() {
    let mut bus = MockBus::new();
    bus.regs[0x11] = 0b0101_0000;
    let mut dev = Lsm6dsr::new(bus);
    assert_eq!(dev.set_gyro_scale(GyroScale::Scale4k), Ok(()));
    assert_eq!(dev.gyro_scale(), GyroScale::Scale4k);
    assert_eq!(dev.get_gyro_scale(), Ok(GyroScale::Scale4k));
}

#[test]
fn failed_set_gyro_scale_keeps_believed_value() {
    let mut bus = MockBus::new();
    bus.fail_writes = true;
    let mut dev = Lsm6dsr::new(bus);
    assert_eq!(dev.set_gyro_scale(GyroScale::Scale2k), Err(MockError));
    assert_eq!(dev.gyro_scale(), GyroScale::Scale250);
}

#[test]
fn get_gyro_scale_reads_chip_without_touching_believed_value() {
    let mut bus = MockBus::new();
    bus.regs[0x11] = 0b0000_0010;
    let mut dev = Lsm6dsr::new(bus);
    assert_eq!(dev.get_gyro_scale(), Ok(GyroScale::Scale125));
    assert_eq!(dev.gyro_scale(), GyroScale::Scale250);
}

#[test]
fn set_accel_sample_rate_preserves_scale_bits() {
    let mut bus = MockBus::new();
    bus.regs[0x10] = 0b0000_1101;
    let mut dev = Lsm6dsr::new(bus);
    assert_eq!(dev.set_accel_sample_rate(AccelSampleRate::Hz104), Ok(()));
    // rate nibble becomes 0b0100, low nibble untouched
    assert_eq!(dev.get_accel_scale(), Ok(AccelScale::Scale8));
    let t = dev.read_trio_i16(0x10).unwrap();
    assert_eq!((t.x as u16 & 0x00FF) as u8, 0b0100_1101);
}

#[test]
fn set_gyro_sample_rate_preserves_scale_bits() {
    let mut bus = MockBus::new();
    bus.regs[0x11] = 0b0000_1100;
    let mut dev = Lsm6dsr::new(bus);
    assert_eq!(dev.set_gyro_sample_rate(GyroSampleRate::KHz6_66), Ok(()));
    assert_eq!(dev.get_gyro_scale(), Ok(GyroScale::Scale2k));
}

#[test]
fn disable_i3c_sets_only_the_disable_bit() {
    let mut bus = MockBus::new();
    bus.regs[0x18] = 0b1010_0001;
    let mut dev = Lsm6dsr::new(bus);
    assert_eq!(dev.disable_i3c(), Ok(()));
    // the low byte of the triplet's x value is register 0x18: only the
    // disable bit changed
    let t = dev.read_trio_i16(0x18).unwrap();
    assert_eq!((t.x as u16 & 0x00FF) as u8, 0b1010_0011);
}

#[test]
fn raw_temp_reads_little_endian_pair() {
    let mut bus = MockBus::new();
    bus.regs[0x20] = 0x10;
    bus.regs[0x21] = 0x00;
    let mut dev = Lsm6dsr::new(bus);
    assert_eq!(dev.raw_temp(), Ok(16));
}

#[test]
fn raw_temp_negative_sample() {
    let mut bus = MockBus::new();
    bus.regs[0x20] = 0xF0;
    bus.regs[0x21] = 0xFF;
    let mut dev = Lsm6dsr::new(bus);
    assert_eq!(dev.raw_temp(), Ok(-16));
}

#[test]
fn raw_x_accel_reads_little_endian_pair() {
    let mut bus = MockBus::new();
    bus.regs[0x28] = 0x34;
    bus.regs[0x29] = 0x12;
    let mut dev = Lsm6dsr::new(bus);
    assert_eq!(dev.raw_x_accel(), Ok(0x1234));
}

#[test]
fn triplet_read_decodes_three_axes_in_order() {
    let mut bus = MockBus::new();
    let sample = [0x01u8, 0x00, 0x02, 0x00, 0xFF, 0xFF];
    bus.regs[0x28..0x2E].copy_from_slice(&sample);
    let mut dev = Lsm6dsr::new(bus);
    assert_eq!(
        dev.raw_accel_triplet(),
        Ok(AxisTriplet { x: 1, y: 2, z: -1 })
    );
    assert_eq!(
        dev.read_trio_i16(0x28),
        Ok(AxisTriplet { x: 1, y: 2, z: -1 })
    );
}

#[test]
fn triplet_read_propagates_transport_error() {
    let mut bus = MockBus::new();
    bus.fail_reads = true;
    let mut dev = Lsm6dsr::new(bus);
    assert_eq!(dev.raw_accel_triplet(), Err(MockError));
}
