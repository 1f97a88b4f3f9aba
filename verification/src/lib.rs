//! Register-level driver for the LSM6DSR 6-axis inertial sensor
//! (accelerometer + gyroscope) accessed over a two-wire serial bus.
//!
//! The driver translates high-level operations (configure full-scale range,
//! configure output data rate, read raw samples, verify chip identity) into
//! byte-oriented register transactions over an [`transport::I2cBus`]
//! transport, and converts raw signed 16-bit register values into physical
//! units stated exactly in integer micro-units.

use vstd::prelude::*;

pub mod accelerometer;
pub mod bitfield;
pub mod codec;
pub mod commands;
pub mod gyroscope;
pub mod transport;

use accelerometer::AccelScale;
use gyroscope::GyroScale;
use transport::I2cBus;

verus! {

/// Fixed bus address of the chip.
pub const DEVICE_ADDRESS: u8 = 0x6A;

/// Identity register (`WHO_AM_I`, read-only).
pub const REG_WHO_AM_I: u8 = 0x0F;

/// Accelerometer control register: bits 4-7 sample rate, bits 2-3 scale.
pub const REG_ACCEL_CTRL: u8 = 0x10;

/// Gyroscope control register: bits 4-7 sample rate, bits 0-3 scale.
pub const REG_GYRO_CTRL: u8 = 0x11;

/// Miscellaneous control register; bit 1 disables the alternate (I3C)
/// protocol.
pub const REG_MISC_CTRL: u8 = 0x18;

/// Low byte of the little-endian signed 16-bit temperature registers.
pub const REG_TEMP_LOW: u8 = 0x20;

/// Low byte of the first of six contiguous accelerometer output registers
/// (x, y, z, little-endian signed).
pub const REG_ACCEL_X_LOW: u8 = 0x28;

/// A session with one LSM6DSR chip: the exclusively owned transport handle
/// plus the scale settings the driver believes are currently active on the
/// chip.
///
/// A believed scale is updated only after the corresponding register write
/// succeeds; after a failed write it keeps the prior, chip-matching value.
/// The session is created with the chip's power-on-reset scale defaults.
pub struct Lsm6dsr<I2C: I2cBus> {
    i2c: I2C,
    accel_scale: AccelScale,
    gyro_scale: GyroScale,
}

impl<I2C: I2cBus> Lsm6dsr<I2C> {
    /// The accelerometer scale the driver believes is active on the chip.
    pub closed spec fn believed_accel_scale(self) -> AccelScale {
        self.accel_scale
    }

    /// The gyroscope scale the driver believes is active on the chip.
    pub closed spec fn believed_gyro_scale(self) -> GyroScale {
        self.gyro_scale
    }

    /// Opens a session over the given transport, with the chip's
    /// power-on-reset scale defaults as the believed configuration.
    ///
    /// NOTE: you must turn on the accelerometer and gyroscope by using
    /// `set_accel_sample_rate` and `set_gyro_sample_rate`.
    pub fn new(i2c: I2C) -> (dev: Self)
        ensures
            dev.believed_accel_scale() == AccelScale::Scale2,
            dev.believed_gyro_scale() == GyroScale::Scale250,
    {
        Self { i2c, accel_scale: AccelScale::Scale2, gyro_scale: GyroScale::Scale250 }
    }

    /// Value of the believed accelerometer scale. NOTE: doesn't ask the chip
    /// what the value is, use `get_accel_scale` for that.
    pub fn accel_scale(&self) -> (scale: AccelScale)
        ensures
            scale == self.believed_accel_scale(),
    {
        self.accel_scale
    }

    /// Value of the believed gyroscope scale. NOTE: doesn't ask the chip
    /// what the value is, use `get_gyro_scale` for that.
    pub fn gyro_scale(&self) -> (scale: GyroScale)
        ensures
            scale == self.believed_gyro_scale(),
    {
        self.gyro_scale
    }

    /// Reads `len` bytes starting at `register`. The believed configuration
    /// is never touched by a read.
    fn read_buf(&mut self, register: u8, len: usize) -> (r: Result<Vec<u8>, I2C::BusError>)
        ensures
            final(self).believed_accel_scale() == old(self).believed_accel_scale(),
            final(self).believed_gyro_scale() == old(self).believed_gyro_scale(),
            r matches Ok(bytes) ==> bytes@.len() == len,
    {
        self.i2c.read(DEVICE_ADDRESS, register, len)
    }

    /// Writes `payload` to the registers starting at `register`, as one
    /// transaction framed with the register address first.
    fn write_buf(&mut self, register: u8, payload: &[u8]) -> (r: Result<(), I2C::BusError>)
        ensures
            final(self).believed_accel_scale() == old(self).believed_accel_scale(),
            final(self).believed_gyro_scale() == old(self).believed_gyro_scale(),
    {
        let buf = codec::frame_write(register, payload);
        self.i2c.write(DEVICE_ADDRESS, buf.as_slice())
    }

    /// Writes one byte to one register.
    pub(crate) fn write_byte(&mut self, register: u8, value: u8) -> (r: Result<
        (),
        I2C::BusError,
    >)
        ensures
            final(self).believed_accel_scale() == old(self).believed_accel_scale(),
            final(self).believed_gyro_scale() == old(self).believed_gyro_scale(),
    {
        let payload: [u8; 1] = [value];
        self.write_buf(register, payload.as_slice())
    }

    /// Reads one byte from one register.
    pub(crate) fn read_byte(&mut self, register: u8) -> (r: Result<u8, I2C::BusError>)
        ensures
            final(self).believed_accel_scale() == old(self).believed_accel_scale(),
            final(self).believed_gyro_scale() == old(self).believed_gyro_scale(),
    {
        let buf = self.read_buf(register, 1)?;
        Ok(buf[0])
    }

    /// Reads a single little-endian signed 16-bit value, where `register` is
    /// the low byte's address and `register + 1` the high byte's.
    pub(crate) fn read_i16(&mut self, register: u8) -> (r: Result<i16, I2C::BusError>)
        ensures
            final(self).believed_accel_scale() == old(self).believed_accel_scale(),
            final(self).believed_gyro_scale() == old(self).believed_gyro_scale(),
    {
        let buf = self.read_buf(register, 2)?;
        Ok(codec::decode_i16_le(buf[0], buf[1]))
    }

    /// Reads three little-endian signed 16-bit values from six contiguous
    /// registers starting at `register`, in address order (x, y, z), as one
    /// transaction, so that the three axes come from the same update cycle.
    pub fn read_trio_i16(&mut self, register: u8) -> (r: Result<
        codec::AxisTriplet,
        I2C::BusError,
    >)
        ensures
            final(self).believed_accel_scale() == old(self).believed_accel_scale(),
            final(self).believed_gyro_scale() == old(self).believed_gyro_scale(),
    {
        let buf = self.read_buf(register, 6)?;
        Ok(codec::decode_triplet_le(buf.as_slice()))
    }
}

} // verus!
