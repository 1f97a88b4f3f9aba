//! Gyroscope configuration bitfields and unit conversion: the full-scale
//! field (the extended layout over the low nibble, including the 125 dps and
//! 4000 dps ranges) and the sample-rate field of the gyroscope control
//! register, and the raw-sample-to-angular-rate conversion at each scale.

use vstd::prelude::*;
use crate::Lsm6dsr;
use crate::REG_GYRO_CTRL;
use crate::bitfield::apply_field;
use crate::bitfield::lemma_apply_field;
use crate::bitfield::lemma_mask_complements;
use crate::transport::I2cBus;

verus! {

/// Bits of the gyroscope control register that hold the scale field.
pub const GYRO_SCALE_MASK: u8 = 0b0000_1111;

/// Bits of the gyroscope control register outside the scale field.
pub const GYRO_SCALE_INVERSE_MASK: u8 = 0b1111_0000;

/// Bits of the gyroscope control register that hold the sample-rate field.
pub const GYRO_RATE_MASK: u8 = 0b1111_0000;

/// Bits of the gyroscope control register outside the sample-rate field.
pub const GYRO_RATE_INVERSE_MASK: u8 = 0b0000_1111;

/// Gyroscope full-scale range options.
#[derive(Debug, Clone, Copy, PartialEq, Eq, Structural)]
pub enum GyroScale {
    /// ± 125 degrees per second
    Scale125,
    /// ± 250 degrees per second
    Scale250,
    /// ± 500 degrees per second
    Scale500,
    /// ± 1,000 degrees per second
    Scale1k,
    /// ± 2,000 degrees per second
    Scale2k,
    /// ± 4,000 degrees per second
    Scale4k,
}

impl GyroScale {
    /// The bit pattern of this scale within the control register's low
    /// nibble. The 4000 dps and 125 dps ranges each have a dedicated select
    /// bit (bits 0 and 1); the remaining ranges use bits 2-3.
    pub open spec fn spec_to_bits(self) -> u8 {
        match self {
            GyroScale::Scale125 => 0b0000_0010,
            GyroScale::Scale250 => 0b0000_0000,
            GyroScale::Scale500 => 0b0000_0100,
            GyroScale::Scale1k => 0b0000_1000,
            GyroScale::Scale2k => 0b0000_1100,
            GyroScale::Scale4k => 0b0000_0001,
        }
    }

    /// The scale a register byte decodes to. Decoding is total: the 4000 dps
    /// select bit takes priority over the 125 dps select bit, and a pattern
    /// outside the documented table falls back to the narrowest 2-bit scale,
    /// since a corrupted scale bit is recoverable noise, not a caller
    /// mistake.
    pub open spec fn spec_from_bits(bits: u8) -> GyroScale {
        if bits & 0b0000_0001 != 0 {
            GyroScale::Scale4k
        } else if bits & 0b0000_0010 != 0 {
            GyroScale::Scale125
        } else {
            let field = (bits & GYRO_SCALE_MASK) >> 2;
            if field == 0 {
                GyroScale::Scale250
            } else if field == 1 {
                GyroScale::Scale500
            } else if field == 2 {
                GyroScale::Scale1k
            } else if field == 3 {
                GyroScale::Scale2k
            } else {
                GyroScale::Scale250
            }
        }
    }

    /// Micro-degrees-per-second represented by one least-significant bit at
    /// this scale.
    pub open spec fn spec_coefficient_micro_dps(self) -> int {
        match self {
            GyroScale::Scale125 => 4375,
            GyroScale::Scale250 => 8750,
            GyroScale::Scale500 => 17500,
            GyroScale::Scale1k => 35000,
            GyroScale::Scale2k => 70000,
            GyroScale::Scale4k => 140000,
        }
    }

    /// Angular rate in micro-degrees-per-second of a raw sample measured at
    /// this scale.
    pub open spec fn spec_convert_micro_dps(self, raw: int) -> int {
        raw * self.spec_coefficient_micro_dps()
    }

    /// Converts this scale to the raw bits for the control register (the
    /// whole low nibble, already in place).
    pub fn to_bits(self) -> (bits: u8)
        ensures
            bits == self.spec_to_bits(),
            bits & GYRO_SCALE_MASK == bits,
    {
        proof {
            lemma_gyro_scale_bits_in_mask(self);
        }
        match self {
            GyroScale::Scale125 => 0b0000_0010,
            GyroScale::Scale250 => 0b0000_0000,
            GyroScale::Scale500 => 0b0000_0100,
            GyroScale::Scale1k => 0b0000_1000,
            GyroScale::Scale2k => 0b0000_1100,
            GyroScale::Scale4k => 0b0000_0001,
        }
    }

    /// Masks the scale field out of a register byte and maps it to a scale;
    /// unmapped patterns fall back to the narrowest 2-bit scale.
    pub fn from_bits(bits: u8) -> (scale: GyroScale)
        ensures
            scale == GyroScale::spec_from_bits(bits),
    {
        if bits & 0b0000_0001 != 0 {
            GyroScale::Scale4k
        } else if bits & 0b0000_0010 != 0 {
            GyroScale::Scale125
        } else {
            let field: u8 = (bits & GYRO_SCALE_MASK) >> 2;
            match field {
                0 => GyroScale::Scale250,
                1 => GyroScale::Scale500,
                2 => GyroScale::Scale1k,
                3 => GyroScale::Scale2k,
                _ => GyroScale::Scale250,
            }
        }
    }

    /// Micro-degrees-per-second per least-significant bit at this scale (the
    /// chip's documented coefficient of 4.375 through 140 milli-dps per LSB,
    /// in micro-dps).
    pub fn coefficient_micro_dps(self) -> (c: u32)
        ensures
            c as int == self.spec_coefficient_micro_dps(),
    {
        match self {
            GyroScale::Scale125 => 4375,
            GyroScale::Scale250 => 8750,
            GyroScale::Scale500 => 17500,
            GyroScale::Scale1k => 35000,
            GyroScale::Scale2k => 70000,
            GyroScale::Scale4k => 140000,
        }
    }

    /// Converts a raw sample measured at this scale to
    /// micro-degrees-per-second, exactly.
    pub fn convert_micro_dps(self, raw: i16) -> (r: i64)
        ensures
            r as int == self.spec_convert_micro_dps(raw as int),
    {
        match self {
            GyroScale::Scale125 => raw as i64 * 4375,
            GyroScale::Scale250 => raw as i64 * 8750,
            GyroScale::Scale500 => raw as i64 * 17500,
            GyroScale::Scale1k => raw as i64 * 35000,
            GyroScale::Scale2k => raw as i64 * 70000,
            GyroScale::Scale4k => raw as i64 * 140000,
        }
    }
}

/// The encoded bits of every gyroscope scale lie within the scale field's
/// mask.
pub proof fn lemma_gyro_scale_bits_in_mask(v: GyroScale)
    ensures
        v.spec_to_bits() & GYRO_SCALE_MASK == v.spec_to_bits(),
{
    assert(0b0000_0010u8 & 0b0000_1111 == 0b0000_0010 && 0b0000_0000u8 & 0b0000_1111 == 0b0000_0000
        && 0b0000_0100u8 & 0b0000_1111 == 0b0000_0100 && 0b0000_1000u8 & 0b0000_1111
        == 0b0000_1000 && 0b0000_1100u8 & 0b0000_1111 == 0b0000_1100 && 0b0000_0001u8
        & 0b0000_1111 == 0b0000_0001) by (bit_vector);
}

/// Decoding a gyroscope scale field reads only the bits inside the scale
/// mask: two bytes that agree inside the mask decode to the same scale.
pub proof fn lemma_gyro_scale_mask_dependence(x: u8, y: u8)
    requires
        x & GYRO_SCALE_MASK == y & GYRO_SCALE_MASK,
    ensures
        GyroScale::spec_from_bits(x) == GyroScale::spec_from_bits(y),
{
    assert(x & 0b0000_1111 == y & 0b0000_1111 ==> (x & 0b0000_0001 == y & 0b0000_0001 && x
        & 0b0000_0010 == y & 0b0000_0010 && (x & 0b0000_1111) >> 2 == (y & 0b0000_1111) >> 2))
        by (bit_vector);
}

/// Law: decoding an encoded gyroscope scale gives the scale back, for every
/// variant.
pub proof fn lemma_gyro_scale_round_trip(v: GyroScale)
    ensures
        GyroScale::spec_from_bits(v.spec_to_bits()) == v,
{
    assert(0b0000_0010u8 & 0b0000_0001 == 0 && 0b0000_0010u8 & 0b0000_0010 != 0 && 0b0000_0000u8
        & 0b0000_0011 == 0 && (0b0000_0000u8 & 0b0000_1111) >> 2 == 0 && 0b0000_0100u8
        & 0b0000_0011 == 0 && (0b0000_0100u8 & 0b0000_1111) >> 2 == 1 && 0b0000_1000u8
        & 0b0000_0011 == 0 && (0b0000_1000u8 & 0b0000_1111) >> 2 == 2 && 0b0000_1100u8
        & 0b0000_0011 == 0 && (0b0000_1100u8 & 0b0000_1111) >> 2 == 3 && 0b0000_0001u8
        & 0b0000_0001 != 0) by (bit_vector);
    assert(0b0000_0000u8 & 0b0000_0001 == 0 && 0b0000_0000u8 & 0b0000_0010 == 0 && 0b0000_0100u8
        & 0b0000_0001 == 0 && 0b0000_0100u8 & 0b0000_0010 == 0 && 0b0000_1000u8 & 0b0000_0001 == 0
        && 0b0000_1000u8 & 0b0000_0010 == 0 && 0b0000_1100u8 & 0b0000_0001 == 0 && 0b0000_1100u8
        & 0b0000_0010 == 0) by (bit_vector);
}

/// Law: writing a gyroscope scale into any register byte by the
/// read-modify-write discipline and decoding the result gives the scale
/// back, whatever the neighboring bits hold.
pub proof fn lemma_gyro_scale_register_round_trip(old_byte: u8, v: GyroScale)
    ensures
        GyroScale::spec_from_bits((old_byte & GYRO_SCALE_INVERSE_MASK) | v.spec_to_bits()) == v,
{
    crate::bitfield::lemma_mask_complements();
    lemma_gyro_scale_bits_in_mask(v);
    lemma_apply_field(old_byte, GYRO_SCALE_MASK, GYRO_SCALE_INVERSE_MASK, v.spec_to_bits());
    lemma_gyro_scale_mask_dependence(
        (old_byte & GYRO_SCALE_INVERSE_MASK) | v.spec_to_bits(),
        v.spec_to_bits(),
    );
    lemma_gyro_scale_round_trip(v);
}

/// Law: gyroscope conversion is exactly linear in the raw sample; a raw
/// sample of zero converts to zero angular rate at every scale.
pub proof fn lemma_gyro_convert_linear(v: GyroScale, raw: i16)
    ensures
        v.spec_convert_micro_dps(0) == 0,
        v.spec_convert_micro_dps(raw as int) == raw as int * v.spec_coefficient_micro_dps(),
{
}

/// Gyroscope output-data-rate options, including the powered-down state.
#[derive(Debug, Clone, Copy, PartialEq, Eq, Structural)]
pub enum GyroSampleRate {
    /// Gyroscope is powered down
    Off,
    /// 12.5 Hz
    Hz12_5,
    /// 26 Hz
    Hz26,
    /// 52 Hz
    Hz52,
    /// 104 Hz
    Hz104,
    /// 208 Hz
    Hz208,
    /// 416 Hz
    Hz416,
    /// 833 Hz
    Hz833,
    /// 1.66 kHz
    KHz1_66,
    /// 3.33 kHz
    KHz3_33,
    /// 6.66 kHz
    KHz6_66,
}

impl GyroSampleRate {
    /// The pre-shifted bit pattern of this sample rate within the control
    /// register.
    pub open spec fn spec_to_bits(self) -> u8 {
        match self {
            GyroSampleRate::Off => 0b0000_0000,
            GyroSampleRate::Hz12_5 => 0b0001_0000,
            GyroSampleRate::Hz26 => 0b0010_0000,
            GyroSampleRate::Hz52 => 0b0011_0000,
            GyroSampleRate::Hz104 => 0b0100_0000,
            GyroSampleRate::Hz208 => 0b0101_0000,
            GyroSampleRate::Hz416 => 0b0110_0000,
            GyroSampleRate::Hz833 => 0b0111_0000,
            GyroSampleRate::KHz1_66 => 0b1000_0000,
            GyroSampleRate::KHz3_33 => 0b1001_0000,
            GyroSampleRate::KHz6_66 => 0b1010_0000,
        }
    }

    /// The sample rate a register byte decodes to, if any. Decoding is
    /// partial: only the documented codes map to a rate; any other code
    /// yields no value, since silently defaulting a rate could violate a
    /// caller's timing expectations.
    pub open spec fn spec_from_bits(bits: u8) -> Option<GyroSampleRate> {
        let field = (bits & GYRO_RATE_MASK) >> 4;
        if field == 0 {
            Some(GyroSampleRate::Off)
        } else if field == 1 {
            Some(GyroSampleRate::Hz12_5)
        } else if field == 2 {
            Some(GyroSampleRate::Hz26)
        } else if field == 3 {
            Some(GyroSampleRate::Hz52)
        } else if field == 4 {
            Some(GyroSampleRate::Hz104)
        } else if field == 5 {
            Some(GyroSampleRate::Hz208)
        } else if field == 6 {
            Some(GyroSampleRate::Hz416)
        } else if field == 7 {
            Some(GyroSampleRate::Hz833)
        } else if field == 8 {
            Some(GyroSampleRate::KHz1_66)
        } else if field == 9 {
            Some(GyroSampleRate::KHz3_33)
        } else if field == 10 {
            Some(GyroSampleRate::KHz6_66)
        } else {
            None
        }
    }

    /// Converts this sample rate to the raw bits for the control register
    /// (pre-shifted to the field's offset).
    pub fn to_bits(self) -> (bits: u8)
        ensures
            bits == self.spec_to_bits(),
            bits & GYRO_RATE_MASK == bits,
    {
        proof {
            lemma_gyro_rate_bits_in_mask(self);
        }
        match self {
            GyroSampleRate::Off => 0b0000_0000,
            GyroSampleRate::Hz12_5 => 0b0001_0000,
            GyroSampleRate::Hz26 => 0b0010_0000,
            GyroSampleRate::Hz52 => 0b0011_0000,
            GyroSampleRate::Hz104 => 0b0100_0000,
            GyroSampleRate::Hz208 => 0b0101_0000,
            GyroSampleRate::Hz416 => 0b0110_0000,
            GyroSampleRate::Hz833 => 0b0111_0000,
            GyroSampleRate::KHz1_66 => 0b1000_0000,
            GyroSampleRate::KHz3_33 => 0b1001_0000,
            GyroSampleRate::KHz6_66 => 0b1010_0000,
        }
    }

    /// Masks and shifts the sample-rate field out of a register byte;
    /// returns no value on an unrecognized code.
    pub fn from_bits(bits: u8) -> (rate: Option<GyroSampleRate>)
        ensures
            rate == GyroSampleRate::spec_from_bits(bits),
    {
        let field: u8 = (bits & GYRO_RATE_MASK) >> 4;
        match field {
            0 => Some(GyroSampleRate::Off),
            1 => Some(GyroSampleRate::Hz12_5),
            2 => Some(GyroSampleRate::Hz26),
            3 => Some(GyroSampleRate::Hz52),
            4 => Some(GyroSampleRate::Hz104),
            5 => Some(GyroSampleRate::Hz208),
            6 => Some(GyroSampleRate::Hz416),
            7 => Some(GyroSampleRate::Hz833),
            8 => Some(GyroSampleRate::KHz1_66),
            9 => Some(GyroSampleRate::KHz3_33),
            10 => Some(GyroSampleRate::KHz6_66),
            _ => None,
        }
    }
}

/// The encoded bits of every gyroscope sample rate lie within the rate
/// field's mask.
pub proof fn lemma_gyro_rate_bits_in_mask(v: GyroSampleRate)
    ensures
        v.spec_to_bits() & GYRO_RATE_MASK == v.spec_to_bits(),
{
    assert(0b0000_0000u8 & 0b1111_0000 == 0b0000_0000 && 0b0001_0000u8 & 0b1111_0000 == 0b0001_0000
        && 0b0010_0000u8 & 0b1111_0000 == 0b0010_0000 && 0b0011_0000u8 & 0b1111_0000
        == 0b0011_0000 && 0b0100_0000u8 & 0b1111_0000 == 0b0100_0000 && 0b0101_0000u8
        & 0b1111_0000 == 0b0101_0000 && 0b0110_0000u8 & 0b1111_0000 == 0b0110_0000 && 0b0111_0000u8
        & 0b1111_0000 == 0b0111_0000 && 0b1000_0000u8 & 0b1111_0000 == 0b1000_0000 && 0b1001_0000u8
        & 0b1111_0000 == 0b1001_0000 && 0b1010_0000u8 & 0b1111_0000 == 0b1010_0000)
        by (bit_vector);
}

/// Law: decoding an encoded gyroscope sample rate gives the rate back, for
/// every variant.
pub proof fn lemma_gyro_rate_round_trip(v: GyroSampleRate)
    ensures
        GyroSampleRate::spec_from_bits(v.spec_to_bits()) == Some(v),
{
    assert((0b0000_0000u8 & 0b1111_0000) >> 4 == 0 && (0b0001_0000u8 & 0b1111_0000) >> 4 == 1 && (
    0b0010_0000u8 & 0b1111_0000) >> 4 == 2 && (0b0011_0000u8 & 0b1111_0000) >> 4 == 3 && (
    0b0100_0000u8 & 0b1111_0000) >> 4 == 4 && (0b0101_0000u8 & 0b1111_0000) >> 4 == 5 && (
    0b0110_0000u8 & 0b1111_0000) >> 4 == 6 && (0b0111_0000u8 & 0b1111_0000) >> 4 == 7 && (
    0b1000_0000u8 & 0b1111_0000) >> 4 == 8 && (0b1001_0000u8 & 0b1111_0000) >> 4 == 9 && (
    0b1010_0000u8 & 0b1111_0000) >> 4 == 10) by (bit_vector);
}

impl<I2C: I2cBus> Lsm6dsr<I2C> {
    /// Reads the gyroscope scale from the chip (the source of truth);
    /// neither consults nor updates the session's believed value.
    pub fn get_gyro_scale(&mut self) -> (r: Result<GyroScale, I2C::BusError>)
        ensures
            final(self).believed_accel_scale() == old(self).believed_accel_scale(),
            final(self).believed_gyro_scale() == old(self).believed_gyro_scale(),
    {
        let bits = self.read_byte(REG_GYRO_CTRL)?;
        Ok(GyroScale::from_bits(bits))
    }

    /// Changes the gyroscope scale of the chip by a read-modify-write of the
    /// control register, preserving the neighboring bits. The believed value
    /// is updated only after the write succeeds; after a failure it keeps
    /// the prior, chip-matching value.
    pub fn set_gyro_scale(&mut self, scale: GyroScale) -> (r: Result<(), I2C::BusError>)
        ensures
            r is Ok ==> final(self).believed_gyro_scale() == scale,
            r is Err ==> final(self).believed_gyro_scale() == old(self).believed_gyro_scale(),
            final(self).believed_accel_scale() == old(self).believed_accel_scale(),
    {
        let bits = self.read_byte(REG_GYRO_CTRL)?;
        proof {
            lemma_mask_complements();
        }
        let new_bits = apply_field(bits, GYRO_SCALE_MASK, GYRO_SCALE_INVERSE_MASK, scale.to_bits());
        self.write_byte(REG_GYRO_CTRL, new_bits)?;
        // change the stored value only after the write went through, in case
        // the bus failed
        self.gyro_scale = scale;
        Ok(())
    }

    /// Turns the gyroscope on or off and sets its sample rate, by a
    /// read-modify-write of the control register that preserves the scale
    /// bits. The believed scales are not affected.
    pub fn set_gyro_sample_rate(&mut self, sample_rate: GyroSampleRate) -> (r: Result<
        (),
        I2C::BusError,
    >)
        ensures
            final(self).believed_accel_scale() == old(self).believed_accel_scale(),
            final(self).believed_gyro_scale() == old(self).believed_gyro_scale(),
    {
        let bits = self.read_byte(REG_GYRO_CTRL)?;
        proof {
            lemma_mask_complements();
        }
        let new_bits = apply_field(
            bits,
            GYRO_RATE_MASK,
            GYRO_RATE_INVERSE_MASK,
            sample_rate.to_bits(),
        );
        self.write_byte(REG_GYRO_CTRL, new_bits)
    }
}

/// Law: writing a gyroscope sample rate into any register byte by the
/// read-modify-write discipline and decoding the result gives the rate back,
/// whatever the neighboring bits hold.
pub proof fn lemma_gyro_rate_register_round_trip(old_byte: u8, v: GyroSampleRate)
    ensures
        GyroSampleRate::spec_from_bits((old_byte & GYRO_RATE_INVERSE_MASK) | v.spec_to_bits())
            == Some(v),
{
    crate::bitfield::lemma_mask_complements();
    lemma_gyro_rate_bits_in_mask(v);
    lemma_apply_field(old_byte, GYRO_RATE_MASK, GYRO_RATE_INVERSE_MASK, v.spec_to_bits());
    lemma_gyro_rate_round_trip(v);
}

} // verus!
