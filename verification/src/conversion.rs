//! Value conversions between register bytes and fixed-point quantities.
//!
//! Temperatures are counted in eighths of a degree Celsius, the finest step
//! the sensor family can represent; the resolution mask selects how many of
//! the low register byte's top bits actually carry fraction steps.

use vstd::prelude::*;

use crate::markers::BitMasks;

verus! {

/// Number of fraction steps (eighths of a degree) carried by the top bits
/// of the low register byte under the given resolution mask.
pub open spec fn fraction_steps(lsb: u8, mask: u16) -> u8 {
    (lsb & (mask as u8)) >> 5
}

/// The temperature held in a register pair, in eighths of a degree Celsius.
/// The high byte is a two's-complement whole number of degrees; the masked
/// top bits of the low byte always add a positive fractional offset, so the
/// coldest representable value is the high byte's minimum with zero
/// fraction bits.
pub open spec fn temperature_eighths(msb: u8, lsb: u8, mask: u16) -> int {
    (msb as i8) as int * 8 + fraction_steps(lsb, mask) as int
}

/// The register pair encoding a temperature given in eighths of a degree:
/// the eleven significant bits sit in the top bits of the 16-bit register,
/// and the resolution mask clears the low byte's insignificant bits.
pub open spec fn register_pair(eighths: i16, mask: u16) -> (u8, u8) {
    let bits = (eighths as u16) << 5;
    (((bits >> 8) as u8), ((bits as u8) & (mask as u8)))
}

/// Decode a temperature register pair to eighths of a degree Celsius.
pub fn convert_temp_from_register(msb: u8, lsb: u8, mask: u16) -> (eighths: i16)
    ensures
        eighths as int == temperature_eighths(msb, lsb, mask),
        -1024 <= eighths <= 1023,
{
    let whole = msb as i8;
    let steps = (lsb & (mask as u8)) >> 5;
    proof {
        assert((lsb & (mask as u8)) >> 5 <= 7) by (bit_vector);
    }
    (whole as i16) * 8 + (steps as i16)
}

/// Encode a temperature in eighths of a degree Celsius as a register pair.
/// No range clamping is performed here: range validation is the facade's
/// job, and out-of-range values wrap like the register's own arithmetic.
pub fn convert_temp_to_register(eighths: i16, mask: u16) -> (r: (u8, u8))
    ensures
        r == register_pair(eighths, mask),
{
    let bits = (#[verifier::truncate] (eighths as u16)) << 5;
    (
        ((bits >> 8) as u8),
        ((#[verifier::truncate] (bits as u8)) & (#[verifier::truncate] (mask as u8))),
    )
}

/// The sampling period, in milliseconds, held in the idle register:
/// bits [4:0] count 100 ms steps.
pub open spec fn sample_rate_ms(byte: u8) -> u16 {
    ((byte & BitMasks::SAMPLE_RATE_MASK) * 100) as u16
}

/// Decode the idle register to a sampling period in milliseconds.
pub fn convert_sample_rate_from_register(byte: u8) -> (period: u16)
    ensures
        period == sample_rate_ms(byte),
        period <= 3100,
        period % 100 == 0,
{
    proof {
        assert((byte & BitMasks::SAMPLE_RATE_MASK) <= 31) by (bit_vector);
    }
    let steps = (byte & BitMasks::SAMPLE_RATE_MASK) as u16;
    steps * 100
}

/// Encode a sampling period in milliseconds as the idle register value,
/// truncating to 100 ms steps. Range validation is the facade's job.
pub fn convert_sample_rate_to_register(period: u16) -> (byte: u8)
    ensures
        byte == ((period / 100) as u8),
        period <= 25500 ==> byte == period / 100,
{
    #[verifier::truncate] ((period / 100) as u8)
}

/// Decoding a register pair and encoding the result reproduces the original
/// register bytes, except for the low-byte bits below the resolution mask,
/// which carry no temperature information and come back cleared.
pub proof fn lemma_register_round_trip(msb: u8, lsb: u8, mask: u16)
    requires
        mask == BitMasks::RESOLUTION_9BIT || mask == BitMasks::RESOLUTION_11BIT,
    ensures
        register_pair(temperature_eighths(msb, lsb, mask) as i16, mask) == (msb, lsb & (mask as u8)),
        lsb & (mask as u8) == lsb ==> register_pair(
            temperature_eighths(msb, lsb, mask) as i16,
            mask,
        ) == (msb, lsb),
{
    assert((lsb & (mask as u8)) >> 5 <= 7) by (bit_vector);
    assert(-1024 <= temperature_eighths(msb, lsb, mask) <= 1023);
    let e = temperature_eighths(msb, lsb, mask) as i16;
    if mask == BitMasks::RESOLUTION_9BIT {
        assert(mask as u8 == 0x80u8) by (bit_vector)
            requires
                mask == 0b1111_1111_1000_0000u16,
        ;
        assert(((((e as u16) << 5) >> 8) as u8) == msb && ((((e as u16) << 5) as u8) & 0x80u8) == (
        lsb & 0x80u8)) by (bit_vector)
            requires
                e == (msb as i8) as i16 * 8 + (((lsb & 0x80u8) >> 5) as i16),
        ;
    } else {
        assert(mask as u8 == 0xe0u8) by (bit_vector)
            requires
                mask == 0b1111_1111_1110_0000u16,
        ;
        assert(((((e as u16) << 5) >> 8) as u8) == msb && ((((e as u16) << 5) as u8) & 0xe0u8) == (
        lsb & 0xe0u8)) by (bit_vector)
            requires
                e == (msb as i8) as i16 * 8 + (((lsb & 0xe0u8) >> 5) as i16),
        ;
    }
}

/// Encoding a representable temperature and decoding the register pair
/// reproduces the temperature: every multiple of the resolution's step in
/// the register range survives the round trip.
pub proof fn lemma_value_round_trip(eighths: i16, mask: u16)
    requires
        -1024 <= eighths <= 1023,
        mask == BitMasks::RESOLUTION_9BIT || mask == BitMasks::RESOLUTION_11BIT,
        mask == BitMasks::RESOLUTION_9BIT ==> eighths % 4 == 0,
    ensures
        temperature_eighths(register_pair(eighths, mask).0, register_pair(eighths, mask).1, mask)
            == eighths,
{
    let hi = register_pair(eighths, mask).0;
    let lo = register_pair(eighths, mask).1;
    if mask == BitMasks::RESOLUTION_9BIT {
        assert(mask as u8 == 0x80u8) by (bit_vector)
            requires
                mask == 0b1111_1111_1000_0000u16,
        ;
        assert((hi as i8) as i16 * 8 + (((lo & 0x80u8) >> 5) as i16) == eighths) by (bit_vector)
            requires
                -1024 <= eighths <= 1023,
                eighths % 4 == 0,
                hi == ((((eighths as u16) << 5) >> 8) as u8),
                lo == ((((eighths as u16) << 5) as u8) & 0x80u8),
        ;
        assert(fraction_steps(lo, mask) == (lo & 0x80u8) >> 5);
    } else {
        assert(mask as u8 == 0xe0u8) by (bit_vector)
            requires
                mask == 0b1111_1111_1110_0000u16,
        ;
        assert((hi as i8) as i16 * 8 + (((lo & 0xe0u8) >> 5) as i16) == eighths) by (bit_vector)
            requires
                -1024 <= eighths <= 1023,
                hi == ((((eighths as u16) << 5) >> 8) as u8),
                lo == ((((eighths as u16) << 5) as u8) & 0xe0u8),
        ;
        assert(fraction_steps(lo, mask) == (lo & 0xe0u8) >> 5);
    }
}

} // verus!
