//! Exact expected values for the codec formulas, stated directly in
//! register bytes and eighths of a degree Celsius.

use lm75::conversion::{
    convert_sample_rate_from_register, convert_sample_rate_to_register, convert_temp_from_register,
    convert_temp_to_register,
};
use lm75::markers::BitMasks;

#[test]
fn decode_hits_the_reference_values() {
    // 125.0 degrees
    assert_eq!(
        convert_temp_from_register(0b0111_1101, 0b0101_1010, BitMasks::RESOLUTION_9BIT),
        1000
    );
    // -128.0 degrees: the true minimum, the fraction bits only ever add a
    // positive offset to the two's-complement integer part.
    assert_eq!(
        convert_temp_from_register(0b1000_0000, 0b0101_1010, BitMasks::RESOLUTION_9BIT),
        -1024
    );
    // 0.5 degrees
    assert_eq!(
        convert_temp_from_register(0b0000_0000, 0b1101_1010, BitMasks::RESOLUTION_9BIT),
        4
    );
    // -0.5 degrees: a negative integer part under a positive fraction bit.
    assert_eq!(
        convert_temp_from_register(0b1111_1111, 0b1101_1010, BitMasks::RESOLUTION_9BIT),
        -4
    );
}

#[test]
fn encode_hits_the_reference_values() {
    // 0.5 degrees: the 0.5-degree fraction bit is the top bit of the low byte.
    assert_eq!(convert_temp_to_register(4, BitMasks::RESOLUTION_9BIT), (0b0000_0000, 0b1000_0000));
    // -128.0 degrees
    assert_eq!(convert_temp_to_register(-1024, BitMasks::RESOLUTION_9BIT), (0b1000_0000, 0));
    // 127.5 degrees
    assert_eq!(
        convert_temp_to_register(1020, BitMasks::RESOLUTION_9BIT),
        (0b0111_1111, 0b1000_0000)
    );
}

#[test]
fn sample_rate_hits_the_reference_values() {
    assert_eq!(convert_sample_rate_from_register(0b0001_1111), 3100);
    assert_eq!(convert_sample_rate_to_register(1500), 0b0000_1111);
}
