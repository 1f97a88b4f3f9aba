//! Accelerometer configuration bitfields and unit conversion: the full-scale
//! field and the sample-rate field of the accelerometer control register, and
//! the raw-sample-to-acceleration conversion at each scale.

use vstd::prelude::*;
use crate::Lsm6dsr;
use crate::REG_ACCEL_CTRL;
use crate::bitfield::apply_field;
use crate::bitfield::lemma_apply_field;
use crate::bitfield::lemma_mask_complements;
use crate::transport::I2cBus;

verus! {

/// Bits of the accelerometer control register that hold the scale field.
pub const ACCEL_SCALE_MASK: u8 = 0b0000_1100;

/// Bits of the accelerometer control register outside the scale field.
pub const ACCEL_SCALE_INVERSE_MASK: u8 = 0b1111_0011;

/// Bits of the accelerometer control register that hold the sample-rate
/// field.
pub const ACCEL_RATE_MASK: u8 = 0b1111_0000;

/// Bits of the accelerometer control register outside the sample-rate field.
pub const ACCEL_RATE_INVERSE_MASK: u8 = 0b0000_1111;

/// Accelerometer full-scale range options.
#[derive(Debug, Clone, Copy, PartialEq, Eq, Structural)]
pub enum AccelScale {
    /// ± 2 g
    Scale2,
    /// ± 4 g
    Scale4,
    /// ± 8 g
    Scale8,
    /// ± 16 g
    Scale16,
}

impl AccelScale {
    /// The pre-shifted bit pattern of this scale within the control register.
    pub open spec fn spec_to_bits(self) -> u8 {
        match self {
            AccelScale::Scale2 => 0b0000_0000,
            AccelScale::Scale4 => 0b0000_1000,
            AccelScale::Scale8 => 0b0000_1100,
            AccelScale::Scale16 => 0b0000_0100,
        }
    }

    /// The scale a register byte decodes to. Decoding is total: a pattern
    /// outside the documented table falls back to the narrowest scale, since
    /// a corrupted scale bit is recoverable noise, not a caller mistake.
    pub open spec fn spec_from_bits(bits: u8) -> AccelScale {
        let field = (bits & ACCEL_SCALE_MASK) >> 2;
        if field == 0 {
            AccelScale::Scale2
        } else if field == 2 {
            AccelScale::Scale4
        } else if field == 3 {
            AccelScale::Scale8
        } else if field == 1 {
            AccelScale::Scale16
        } else {
            AccelScale::Scale2
        }
    }

    /// Micro-g represented by one least-significant bit at this scale.
    pub open spec fn spec_coefficient_micro_g(self) -> int {
        match self {
            AccelScale::Scale2 => 61,
            AccelScale::Scale4 => 122,
            AccelScale::Scale8 => 244,
            AccelScale::Scale16 => 488,
        }
    }

    /// Acceleration in micro-g of a raw sample measured at this scale.
    pub open spec fn spec_convert_micro_g(self, raw: int) -> int {
        raw * self.spec_coefficient_micro_g()
    }

    /// Converts this scale to the raw bits for the control register
    /// (pre-shifted to the field's offset).
    pub fn to_bits(self) -> (bits: u8)
        ensures
            bits == self.spec_to_bits(),
            bits & ACCEL_SCALE_MASK == bits,
    {
        proof {
            lemma_accel_scale_bits_in_mask(self);
        }
        match self {
            AccelScale::Scale2 => 0b0000_0000,
            AccelScale::Scale4 => 0b0000_1000,
            AccelScale::Scale8 => 0b0000_1100,
            AccelScale::Scale16 => 0b0000_0100,
        }
    }

    /// Masks and shifts the scale field out of a register byte and maps it
    /// to a scale; unmapped patterns fall back to the narrowest scale.
    pub fn from_bits(bits: u8) -> (scale: AccelScale)
        ensures
            scale == AccelScale::spec_from_bits(bits),
    {
        let field: u8 = (bits & ACCEL_SCALE_MASK) >> 2;
        match field {
            0 => AccelScale::Scale2,
            2 => AccelScale::Scale4,
            3 => AccelScale::Scale8,
            1 => AccelScale::Scale16,
            _ => AccelScale::Scale2,
        }
    }

    /// Micro-g per least-significant bit at this scale (the chip's documented
    /// coefficient of 0.061/0.122/0.244/0.488 milli-g per LSB, in micro-g).
    pub fn coefficient_micro_g(self) -> (c: u32)
        ensures
            c as int == self.spec_coefficient_micro_g(),
    {
        match self {
            AccelScale::Scale2 => 61,
            AccelScale::Scale4 => 122,
            AccelScale::Scale8 => 244,
            AccelScale::Scale16 => 488,
        }
    }

    /// Converts a raw sample measured at this scale to micro-g, exactly.
    pub fn convert_micro_g(self, raw: i16) -> (r: i64)
        ensures
            r as int == self.spec_convert_micro_g(raw as int),
    {
        match self {
            AccelScale::Scale2 => raw as i64 * 61,
            AccelScale::Scale4 => raw as i64 * 122,
            AccelScale::Scale8 => raw as i64 * 244,
            AccelScale::Scale16 => raw as i64 * 488,
        }
    }
}

/// The encoded bits of every scale lie within the scale field's mask.
pub proof fn lemma_accel_scale_bits_in_mask(v: AccelScale)
    ensures
        v.spec_to_bits() & ACCEL_SCALE_MASK == v.spec_to_bits(),
{
    assert(0b0000_0000u8 & 0b0000_1100 == 0b0000_0000 && 0b0000_1000u8 & 0b0000_1100 == 0b0000_1000
        && 0b0000_1100u8 & 0b0000_1100 == 0b0000_1100 && 0b0000_0100u8 & 0b0000_1100
        == 0b0000_0100) by (bit_vector);
}

/// Law: decoding an encoded accelerometer scale gives the scale back, for
/// every variant.
pub proof fn lemma_accel_scale_round_trip(v: AccelScale)
    ensures
        AccelScale::spec_from_bits(v.spec_to_bits()) == v,
{
    assert((0b0000_0000u8 & 0b0000_1100) >> 2 == 0 && (0b0000_1000u8 & 0b0000_1100) >> 2 == 2 && (
    0b0000_1100u8 & 0b0000_1100) >> 2 == 3 && (0b0000_0100u8 & 0b0000_1100) >> 2 == 1)
        by (bit_vector);
}

/// Law: writing an accelerometer scale into any register byte by the
/// read-modify-write discipline and decoding the result gives the scale
/// back, whatever the neighboring bits hold.
pub proof fn lemma_accel_scale_register_round_trip(old_byte: u8, v: AccelScale)
    ensures
        AccelScale::spec_from_bits((old_byte & ACCEL_SCALE_INVERSE_MASK) | v.spec_to_bits()) == v,
{
    crate::bitfield::lemma_mask_complements();
    lemma_accel_scale_bits_in_mask(v);
    lemma_apply_field(old_byte, ACCEL_SCALE_MASK, ACCEL_SCALE_INVERSE_MASK, v.spec_to_bits());
    lemma_accel_scale_round_trip(v);
}

/// Law: accelerometer conversion is exactly linear in the raw sample; a raw
/// sample of zero converts to zero acceleration at every scale.
pub proof fn lemma_accel_convert_linear(v: AccelScale, raw: i16)
    ensures
        v.spec_convert_micro_g(0) == 0,
        v.spec_convert_micro_g(raw as int) == raw as int * v.spec_coefficient_micro_g(),
{
}

/// Accelerometer output-data-rate options, including the powered-down state.
#[derive(Debug, Clone, Copy, PartialEq, Eq, Structural)]
pub enum AccelSampleRate {
    /// Accelerometer is powered down
    Off,
    /// 12.5 Hz
    Hz12_5,
    /// 26 Hz
    Hz26,
    /// 52 Hz
    Hz52,
    /// 104 Hz
    Hz104,
    /// 208 Hz
    Hz208,
    /// 416 Hz
    Hz416,
    /// 833 Hz
    Hz833,
    /// 1.66 kHz
    KHz1_66,
    /// 3.33 kHz
    KHz3_33,
    /// 6.66 kHz
    KHz6_66,
}

impl AccelSampleRate {
    /// The pre-shifted bit pattern of this sample rate within the control
    /// register.
    pub open spec fn spec_to_bits(self) -> u8 {
        match self {
            AccelSampleRate::Off => 0b0000_0000,
            AccelSampleRate::Hz12_5 => 0b1011_0000,
            AccelSampleRate::Hz26 => 0b0010_0000,
            AccelSampleRate::Hz52 => 0b0011_0000,
            AccelSampleRate::Hz104 => 0b0100_0000,
            AccelSampleRate::Hz208 => 0b0101_0000,
            AccelSampleRate::Hz416 => 0b0110_0000,
            AccelSampleRate::Hz833 => 0b0111_0000,
            AccelSampleRate::KHz1_66 => 0b1000_0000,
            AccelSampleRate::KHz3_33 => 0b1001_0000,
            AccelSampleRate::KHz6_66 => 0b1010_0000,
        }
    }

    /// The sample rate a register byte decodes to, if any. Decoding is
    /// partial: only the documented codes map to a rate; any other code
    /// yields no value, since silently defaulting a rate could violate a
    /// caller's timing expectations.
    pub open spec fn spec_from_bits(bits: u8) -> Option<AccelSampleRate> {
        let field = (bits & ACCEL_RATE_MASK) >> 4;
        if field == 0b0000 {
            Some(AccelSampleRate::Off)
        } else if field == 0b1011 {
            Some(AccelSampleRate::Hz12_5)
        } else if field == 0b0010 {
            Some(AccelSampleRate::Hz26)
        } else if field == 0b0011 {
            Some(AccelSampleRate::Hz52)
        } else if field == 0b0100 {
            Some(AccelSampleRate::Hz104)
        } else if field == 0b0101 {
            Some(AccelSampleRate::Hz208)
        } else if field == 0b0110 {
            Some(AccelSampleRate::Hz416)
        } else if field == 0b0111 {
            Some(AccelSampleRate::Hz833)
        } else if field == 0b1000 {
            Some(AccelSampleRate::KHz1_66)
        } else if field == 0b1001 {
            Some(AccelSampleRate::KHz3_33)
        } else if field == 0b1010 {
            Some(AccelSampleRate::KHz6_66)
        } else {
            None
        }
    }

    /// Converts this sample rate to the raw bits for the control register
    /// (pre-shifted to the field's offset).
    pub fn to_bits(self) -> (bits: u8)
        ensures
            bits == self.spec_to_bits(),
            bits & ACCEL_RATE_MASK == bits,
    {
        proof {
            lemma_accel_rate_bits_in_mask(self);
        }
        match self {
            AccelSampleRate::Off => 0b0000_0000,
            AccelSampleRate::Hz12_5 => 0b1011_0000,
            AccelSampleRate::Hz26 => 0b0010_0000,
            AccelSampleRate::Hz52 => 0b0011_0000,
            AccelSampleRate::Hz104 => 0b0100_0000,
            AccelSampleRate::Hz208 => 0b0101_0000,
            AccelSampleRate::Hz416 => 0b0110_0000,
            AccelSampleRate::Hz833 => 0b0111_0000,
            AccelSampleRate::KHz1_66 => 0b1000_0000,
            AccelSampleRate::KHz3_33 => 0b1001_0000,
            AccelSampleRate::KHz6_66 => 0b1010_0000,
        }
    }

    /// Masks and shifts the sample-rate field out of a register byte;
    /// returns no value on an unrecognized code.
    pub fn from_bits(bits: u8) -> (rate: Option<AccelSampleRate>)
        ensures
            rate == AccelSampleRate::spec_from_bits(bits),
    {
        let field: u8 = (bits & ACCEL_RATE_MASK) >> 4;
        match field {
            0b0000 => Some(AccelSampleRate::Off),
            0b1011 => Some(AccelSampleRate::Hz12_5),
            0b0010 => Some(AccelSampleRate::Hz26),
            0b0011 => Some(AccelSampleRate::Hz52),
            0b0100 => Some(AccelSampleRate::Hz104),
            0b0101 => Some(AccelSampleRate::Hz208),
            0b0110 => Some(AccelSampleRate::Hz416),
            0b0111 => Some(AccelSampleRate::Hz833),
            0b1000 => Some(AccelSampleRate::KHz1_66),
            0b1001 => Some(AccelSampleRate::KHz3_33),
            0b1010 => Some(AccelSampleRate::KHz6_66),
            _ => None,
        }
    }
}

/// The encoded bits of every sample rate lie within the rate field's mask.
pub proof fn lemma_accel_rate_bits_in_mask(v: AccelSampleRate)
    ensures
        v.spec_to_bits() & ACCEL_RATE_MASK == v.spec_to_bits(),
{
    assert(0b0000_0000u8 & 0b1111_0000 == 0b0000_0000 && 0b1011_0000u8 & 0b1111_0000 == 0b1011_0000
        && 0b0010_0000u8 & 0b1111_0000 == 0b0010_0000 && 0b0011_0000u8 & 0b1111_0000
        == 0b0011_0000 && 0b0100_0000u8 & 0b1111_0000 == 0b0100_0000 && 0b0101_0000u8
        & 0b1111_0000 == 0b0101_0000 && 0b0110_0000u8 & 0b1111_0000 == 0b0110_0000 && 0b0111_0000u8
        & 0b1111_0000 == 0b0111_0000 && 0b1000_0000u8 & 0b1111_0000 == 0b1000_0000 && 0b1001_0000u8
        & 0b1111_0000 == 0b1001_0000 && 0b1010_0000u8 & 0b1111_0000 == 0b1010_0000)
        by (bit_vector);
}

/// Law: decoding an encoded accelerometer sample rate gives the rate back,
/// for every variant.
pub proof fn lemma_accel_rate_round_trip(v: AccelSampleRate)
    ensures
        AccelSampleRate::spec_from_bits(v.spec_to_bits()) == Some(v),
{
    assert((0b0000_0000u8 & 0b1111_0000) >> 4 == 0b0000 && (0b1011_0000u8 & 0b1111_0000) >> 4
        == 0b1011 && (0b0010_0000u8 & 0b1111_0000) >> 4 == 0b0010 && (0b0011_0000u8 & 0b1111_0000)
        >> 4 == 0b0011 && (0b0100_0000u8 & 0b1111_0000) >> 4 == 0b0100 && (0b0101_0000u8
        & 0b1111_0000) >> 4 == 0b0101 && (0b0110_0000u8 & 0b1111_0000) >> 4 == 0b0110 && (
    0b0111_0000u8 & 0b1111_0000) >> 4 == 0b0111 && (0b1000_0000u8 & 0b1111_0000) >> 4 == 0b1000
        && (0b1001_0000u8 & 0b1111_0000) >> 4 == 0b1001 && (0b1010_0000u8 & 0b1111_0000) >> 4
        == 0b1010) by (bit_vector);
}

impl<I2C: I2cBus> Lsm6dsr<I2C> {
    /// Reads the accelerometer scale from the chip (the source of truth);
    /// neither consults nor updates the session's believed value.
    pub fn get_accel_scale(&mut self) -> (r: Result<AccelScale, I2C::BusError>)
        ensures
            final(self).believed_accel_scale() == old(self).believed_accel_scale(),
            final(self).believed_gyro_scale() == old(self).believed_gyro_scale(),
    {
        let bits = self.read_byte(REG_ACCEL_CTRL)?;
        Ok(AccelScale::from_bits(bits))
    }

    /// Changes the accelerometer scale of the chip by a read-modify-write of
    /// the control register, preserving the neighboring bits. The believed
    /// value is updated only after the write succeeds; after a failure it
    /// keeps the prior, chip-matching value.
    pub fn set_accel_scale(&mut self, scale: AccelScale) -> (r: Result<(), I2C::BusError>)
        ensures
            r is Ok ==> final(self).believed_accel_scale() == scale,
            r is Err ==> final(self).believed_accel_scale() == old(self).believed_accel_scale(),
            final(self).believed_gyro_scale() == old(self).believed_gyro_scale(),
    {
        let bits = self.read_byte(REG_ACCEL_CTRL)?;
        proof {
            lemma_mask_complements();
        }
        let new_bits = apply_field(bits, ACCEL_SCALE_MASK, ACCEL_SCALE_INVERSE_MASK, scale.to_bits());
        self.write_byte(REG_ACCEL_CTRL, new_bits)?;
        // change the stored value only after the write went through, in case
        // the bus failed
        self.accel_scale = scale;
        Ok(())
    }

    /// Turns the accelerometer on or off and sets its sample rate, by a
    /// read-modify-write of the control register that preserves the scale
    /// bits. The believed scales are not affected.
    pub fn set_accel_sample_rate(&mut self, sample_rate: AccelSampleRate) -> (r: Result<
        (),
        I2C::BusError,
    >)
        ensures
            final(self).believed_accel_scale() == old(self).believed_accel_scale(),
            final(self).believed_gyro_scale() == old(self).believed_gyro_scale(),
    {
        let bits = self.read_byte(REG_ACCEL_CTRL)?;
        proof {
            lemma_mask_complements();
        }
        let new_bits = apply_field(
            bits,
            ACCEL_RATE_MASK,
            ACCEL_RATE_INVERSE_MASK,
            sample_rate.to_bits(),
        );
        self.write_byte(REG_ACCEL_CTRL, new_bits)
    }
}

/// Law: writing an accelerometer sample rate into any register byte by the
/// read-modify-write discipline and decoding the result gives the rate back,
/// whatever the neighboring bits hold.
pub proof fn lemma_accel_rate_register_round_trip(old_byte: u8, v: AccelSampleRate)
    ensures
        AccelSampleRate::spec_from_bits((old_byte & ACCEL_RATE_INVERSE_MASK) | v.spec_to_bits())
            == Some(v),
{
    crate::bitfield::lemma_mask_complements();
    lemma_accel_rate_bits_in_mask(v);
    lemma_apply_field(old_byte, ACCEL_RATE_MASK, ACCEL_RATE_INVERSE_MASK, v.spec_to_bits());
    lemma_accel_rate_round_trip(v);
}

} // verus!
