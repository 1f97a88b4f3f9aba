//! Byte/word codec: framing of outgoing register writes and decoding of
//! incoming register bytes into little-endian signed 16-bit samples.

use vstd::prelude::*;

verus! {

/// Mathematical value of the little-endian signed 16-bit integer whose low
/// byte is `lo` and whose high byte is `hi`.
pub open spec fn spec_i16_le(lo: u8, hi: u8) -> int {
    if hi < 128 {
        lo + 256 * hi
    } else {
        lo + 256 * hi - 65536
    }
}

/// Decodes a little-endian signed 16-bit integer from its two bytes, where
/// `lo` comes from the lower register address.
pub fn decode_i16_le(lo: u8, hi: u8) -> (r: i16)
    ensures
        r as int == spec_i16_le(lo, hi),
{
    let unsigned: i32 = lo as i32 + 256 * (hi as i32);
    if unsigned >= 32768 {
        (unsigned - 65536) as i16
    } else {
        unsigned as i16
    }
}

/// One raw sample of the three axes, in register-address order, as read from
/// six contiguous registers in a single transaction.
#[derive(Debug, Clone, Copy, PartialEq, Eq, Structural)]
pub struct AxisTriplet {
    /// Raw x-axis sample.
    pub x: i16,
    /// Raw y-axis sample.
    pub y: i16,
    /// Raw z-axis sample.
    pub z: i16,
}

/// Decodes three little-endian signed 16-bit samples from six contiguous
/// register bytes, in address order (x, y, z).
pub fn decode_triplet_le(bytes: &[u8]) -> (t: AxisTriplet)
    requires
        bytes@.len() == 6,
    ensures
        t.x as int == spec_i16_le(bytes@[0], bytes@[1]),
        t.y as int == spec_i16_le(bytes@[2], bytes@[3]),
        t.z as int == spec_i16_le(bytes@[4], bytes@[5]),
{
    AxisTriplet {
        x: decode_i16_le(bytes[0], bytes[1]),
        y: decode_i16_le(bytes[2], bytes[3]),
        z: decode_i16_le(bytes[4], bytes[5]),
    }
}

/// Builds the outgoing payload of a register write: the target register
/// first, then the data bytes in register order.
pub fn frame_write(register: u8, payload: &[u8]) -> (buf: Vec<u8>)
    ensures
        buf@ == seq![register] + payload@,
{
    let mut buf: Vec<u8> = Vec::new();
    buf.push(register);
    let mut i: usize = 0;
    while i < payload.len()
        invariant
            i <= payload@.len(),
            buf@ == seq![register] + payload@.subrange(0, i as int),
        decreases payload@.len() - i,
    {
        buf.push(payload[i]);
        assert(buf@ =~= seq![register] + payload@.subrange(0, i + 1 as int));
        i = i + 1;
    }
    assert(payload@.subrange(0, i as int) =~= payload@);
    buf
}

} // verus!
