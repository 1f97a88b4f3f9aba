//! Session commands that are not tied to one sensor's configuration:
//! identity check, disabling the alternate bus protocol, and the raw
//! temperature and axis reads with the temperature conversion formula.

use vstd::prelude::*;
use crate::Lsm6dsr;
use crate::REG_ACCEL_X_LOW;
use crate::REG_MISC_CTRL;
use crate::REG_TEMP_LOW;
use crate::REG_WHO_AM_I;
use crate::bitfield::apply_field;
use crate::bitfield::lemma_mask_complements;
use crate::codec::AxisTriplet;
use crate::transport::I2cBus;

verus! {

/// Expected content of the identity register (`WHO_AM_I`).
pub const CORRECT_WHO_AM_I: u8 = 0b01101011;

/// Bit of the miscellaneous control register that disables the alternate
/// (I3C) protocol.
pub const I3C_DISABLE_MASK: u8 = 0b0000_0010;

/// Bits of the miscellaneous control register outside the I3C disable bit.
pub const I3C_DISABLE_INVERSE_MASK: u8 = 0b1111_1101;

/// Tells whether a byte read from the identity register matches the chip's
/// documented `WHO_AM_I` value.
pub fn identity_matches(id: u8) -> (r: bool)
    ensures
        r == (id == CORRECT_WHO_AM_I),
{
    id == CORRECT_WHO_AM_I
}

/// Micro-degrees Celsius of a raw temperature sample: the chip's fixed
/// linear formula of one sixteenth of a degree per least-significant bit
/// around 25 degrees.
pub open spec fn spec_temp_micro_celsius(raw: int) -> int {
    raw * 62500 + 25000000
}

/// Converts a raw temperature sample to micro-degrees Celsius, exactly.
pub fn convert_temp_micro(raw_temp: i16) -> (r: i64)
    ensures
        r as int == spec_temp_micro_celsius(raw_temp as int),
{
    raw_temp as i64 * 62500 + 25000000
}

/// Law: the temperature conversion is exactly linear in the raw sample, with
/// a raw sample of zero converting to 25 degrees Celsius.
pub proof fn lemma_temp_convert_linear(raw: i16)
    ensures
        spec_temp_micro_celsius(0) == 25000000,
        spec_temp_micro_celsius(raw as int) == raw as int * 62500 + 25000000,
{
}

impl<I2C: I2cBus> Lsm6dsr<I2C> {
    /// Checks whether the chip reports the correct `WHO_AM_I` value.
    ///
    /// Returns `Ok(true)` if the chip reports the correct value, `Ok(false)`
    /// if it reports an incorrect value, and `Err` if the transport failed
    /// while checking.
    pub fn is_valid(&mut self) -> (r: Result<bool, I2C::BusError>)
        ensures
            final(self).believed_accel_scale() == old(self).believed_accel_scale(),
            final(self).believed_gyro_scale() == old(self).believed_gyro_scale(),
    {
        let id = self.read_byte(REG_WHO_AM_I)?;
        Ok(identity_matches(id))
    }

    /// Disables the alternate (I3C, *not* I2C) protocol by a
    /// read-modify-write of a single control bit that preserves all other
    /// bits in that register.
    ///
    /// It is recommended to do this before any other configuration call.
    pub fn disable_i3c(&mut self) -> (r: Result<(), I2C::BusError>)
        ensures
            final(self).believed_accel_scale() == old(self).believed_accel_scale(),
            final(self).believed_gyro_scale() == old(self).believed_gyro_scale(),
    {
        // get the other settings so we don't accidentally change them
        let settings = self.read_byte(REG_MISC_CTRL)?;
        proof {
            lemma_mask_complements();
            assert(0b0000_0010u8 & 0b0000_0010 == 0b0000_0010) by (bit_vector);
        }
        let new_settings = apply_field(
            settings,
            I3C_DISABLE_MASK,
            I3C_DISABLE_INVERSE_MASK,
            I3C_DISABLE_MASK,
        );
        self.write_byte(REG_MISC_CTRL, new_settings)
    }

    /// Reads the raw signed 16-bit temperature sample; `convert_temp_micro`
    /// gives its value in micro-degrees Celsius.
    pub fn raw_temp(&mut self) -> (r: Result<i16, I2C::BusError>)
        ensures
            final(self).believed_accel_scale() == old(self).believed_accel_scale(),
            final(self).believed_gyro_scale() == old(self).believed_gyro_scale(),
    {
        self.read_i16(REG_TEMP_LOW)
    }

    /// Reads the raw signed 16-bit x-axis accelerometer sample.
    pub fn raw_x_accel(&mut self) -> (r: Result<i16, I2C::BusError>)
        ensures
            final(self).believed_accel_scale() == old(self).believed_accel_scale(),
            final(self).believed_gyro_scale() == old(self).believed_gyro_scale(),
    {
        self.read_i16(REG_ACCEL_X_LOW)
    }

    /// Reads the raw accelerometer triplet (x, y, z) in one six-byte
    /// transaction, so the three axes come from the same update cycle.
    pub fn raw_accel_triplet(&mut self) -> (r: Result<AxisTriplet, I2C::BusError>)
        ensures
            final(self).believed_accel_scale() == old(self).believed_accel_scale(),
            final(self).believed_gyro_scale() == old(self).believed_gyro_scale(),
    {
        self.read_trio_i16(REG_ACCEL_X_LOW)
    }
}

} // verus!
