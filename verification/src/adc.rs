//! The wire format of the eight-channel 10-bit analog-to-digital converter:
//! the three-byte request frame for one channel, and the 10-bit value
//! packed into the last two reply bytes.  Driving the serial bus itself is
//! the embedding program's concern.

use vstd::prelude::*;

verus! {

/// The three bytes that request a single-ended conversion of `channel`:
/// a start bit, then the single-ended flag and the channel number in the
/// top nibble of the second byte.
pub fn request_frame(channel: u8) -> (r: [u8; 3])
    requires
        channel < 8,
    ensures
        r@ == seq![0x01u8, (0x08u8 | channel) << 4u8, 0x00u8],
{
    let r = [0x01, (0x08 | channel) << 4, 0x00];
    proof {
        assert(r@ =~= seq![0x01u8, (0x08u8 | channel) << 4u8, 0x00u8]);
    }
    r
}

/// The 10-bit reading packed in the reply: the low two bits of the second
/// byte are the high bits, the third byte the low ones.  Always at most
/// 1023, so it can feed the joystick mappings directly.
pub fn decode_reading(high: u8, low: u8) -> (r: u16)
    ensures
        r == (high & 0x03) as u16 * 256 + low as u16,
        r <= 1023,
{
    let r = (((high & 0x03) as u16) << 8) | (low as u16);
    proof {
        assert((((high & 0x03) as u16) << 8u16) | (low as u16) == (high & 0x03) as u16 * 256
            + low as u16 && (((high & 0x03) as u16) << 8u16) | (low as u16) <= 1023)
            by (bit_vector);
    }
    r
}

} // verus!
