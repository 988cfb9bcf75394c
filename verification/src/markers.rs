//! Register bit masks and the per-variant resolution selection.

use vstd::prelude::*;

use crate::ic;
use crate::private;

verus! {

/// Bit masks used by the register codecs.
pub struct BitMasks;

impl BitMasks {
    /// 9-bit resolution: the top bit of the low byte is significant,
    /// giving 0.5 degree steps.
    pub const RESOLUTION_9BIT: u16 = 0b1111_1111_1000_0000;

    /// 11-bit resolution: the top three bits of the low byte are
    /// significant, giving 0.125 degree steps.
    pub const RESOLUTION_11BIT: u16 = 0b1111_1111_1110_0000;

    /// Bits [4:0] of the idle register hold the sample rate value.
    pub const SAMPLE_RATE_MASK: u8 = 0b0001_1111;
}

/// Resolution of a device variant's temperature registers.
pub trait ResolutionSupport<E>: private::Sealed {
    /// The resolution mask of this device variant.
    spec fn resolution_mask_spec() -> u16;

    /// Resolution mask to apply to this variant's temperature registers.
    fn get_resolution_mask() -> (mask: u16)
        ensures
            mask == Self::resolution_mask_spec(),
    ;
}

impl<E> ResolutionSupport<E> for ic::Pct2075 {
    open spec fn resolution_mask_spec() -> u16 {
        BitMasks::RESOLUTION_11BIT
    }

    fn get_resolution_mask() -> u16 {
        BitMasks::RESOLUTION_11BIT
    }
}

impl<E> ResolutionSupport<E> for ic::Lm75 {
    open spec fn resolution_mask_spec() -> u16 {
        BitMasks::RESOLUTION_9BIT
    }

    fn get_resolution_mask() -> u16 {
        BitMasks::RESOLUTION_9BIT
    }
}

} // verus!
