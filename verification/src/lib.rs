//! Platform-agnostic driver for the LM75 temperature sensor and thermal
//! watchdog, and for its PCT2075 variant with a configurable sample rate.
//!
//! The driver exposes register-level operations (read the temperature,
//! configure the alarm thresholds, set the sampling rate, enable or disable
//! the device) over a generic synchronous I2C bus transport, supplied by the
//! user as an implementation of [`bus::I2cBus`].
//!
//! Temperatures are fixed-point values, counted in eighths of a degree
//! Celsius (the finest step the sensor family can represent), so that the
//! register codec and the range checks are exact integer arithmetic.

use vstd::prelude::*;

pub mod bus;
pub mod conversion;
pub mod ic;
pub mod markers;
pub mod device_impl;
pub mod private;

verus! {

/// All possible errors in this crate.
#[derive(Debug)]
pub enum Error<E> {
    /// I2C bus error, forwarded unchanged from the transport.
    I2C(E),
    /// Invalid input data, rejected before any bus transaction.
    InvalidInputData,
}

/// Base I2C address shared by the whole device family; the three address
/// pins select one of eight consecutive addresses above it.
pub const DEVICE_BASE_ADDRESS: u8 = 0b100_1000;

/// I2C device address (7 bits significant).
#[derive(Debug, Copy, Clone, PartialEq, Eq, Structural)]
pub struct Address(pub u8);

/// Default device address: all three address pins low.
impl Default for Address {
    fn default() -> (a: Self)
        ensures
            a == (Address(DEVICE_BASE_ADDRESS)),
    {
        Address(DEVICE_BASE_ADDRESS)
    }
}

/// Support custom (integer) addresses.
impl From<u8> for Address {
    fn from(a: u8) -> (r: Self)
        ensures
            r == (Address(a)),
    {
        Address(a)
    }
}

impl vstd::std_specs::convert::FromSpecImpl<u8> for Address {
    open spec fn obeys_from_spec() -> bool {
        true
    }

    open spec fn from_spec(a: u8) -> Address {
        Address(a)
    }
}

/// The address resolved from the three pin-strap bits `(a2, a1, a0)`.
pub open spec fn resolved_address(a2: bool, a1: bool, a0: bool) -> u8 {
    DEVICE_BASE_ADDRESS | ((a2 as u8) << 2) | ((a1 as u8) << 1) | (a0 as u8)
}

/// Compute the device address from the address pin states.
impl From<(bool, bool, bool)> for Address {
    fn from(a: (bool, bool, bool)) -> (r: Self)
        ensures
            r == (Address(resolved_address(a.0, a.1, a.2))),
    {
        Address(DEVICE_BASE_ADDRESS | ((a.0 as u8) << 2) | ((a.1 as u8) << 1) | (a.2 as u8))
    }
}

impl vstd::std_specs::convert::FromSpecImpl<(bool, bool, bool)> for Address {
    open spec fn obeys_from_spec() -> bool {
        true
    }

    open spec fn from_spec(a: (bool, bool, bool)) -> Address {
        Address(resolved_address(a.0, a.1, a.2))
    }
}

/// Fault queue: number of consecutive faults necessary to trigger an OS
/// (overtemperature shutdown) condition.
#[derive(Debug, Clone, Copy, PartialEq, Eq, Structural)]
pub enum FaultQueue {
    /// 1 fault will trigger OS condition (default).
    _1,
    /// 2 consecutive faults will trigger OS condition.
    _2,
    /// 4 consecutive faults will trigger OS condition.
    _4,
    /// 6 consecutive faults will trigger OS condition.
    _6,
}

/// OS polarity.
#[derive(Debug, Clone, Copy, PartialEq, Eq, Structural)]
pub enum OsPolarity {
    /// Active low (default).
    ActiveLow,
    /// Active high.
    ActiveHigh,
}

/// OS operation mode.
#[derive(Debug, Clone, Copy, PartialEq, Eq, Structural)]
pub enum OsMode {
    /// Comparator (default).
    Comparator,
    /// Interrupt.
    Interrupt,
}

/// Cached copy of the 8-bit configuration register.
#[derive(Debug, Clone, Copy, PartialEq, Eq, Structural)]
pub(crate) struct Config {
    pub(crate) bits: u8,
}

impl Config {
    /// The configuration with the given bit(s) set.
    pub(crate) fn with_high(self, mask: u8) -> (r: Self)
        ensures
            r.bits == self.bits | mask,
    {
        Config { bits: self.bits | mask }
    }

    /// The configuration with the given bit(s) cleared.
    pub(crate) fn with_low(self, mask: u8) -> (r: Self)
        ensures
            r.bits == self.bits & !mask,
    {
        Config { bits: self.bits & !mask }
    }

    /// Power-up configuration: all bits low.
    pub(crate) fn default() -> (c: Self)
        ensures
            c.bits == 0,
    {
        Config { bits: 0 }
    }
}

/// Family device driver, generic over the bus transport `I2C` and the
/// device marker `IC` (see [`ic`]).
pub struct Xx75<I2C, IC> {
    /// The concrete I2C bus implementation.
    pub(crate) i2c: I2C,
    /// The I2C device address.
    pub(crate) address: u8,
    /// Cached configuration register contents.
    pub(crate) config: Config,
    /// Device marker.
    pub(crate) _ic: core::marker::PhantomData<IC>,
}

/// LM75 device driver: the family driver under its most common name.
pub type Lm75<I2C, IC> = Xx75<I2C, IC>;

} // verus!
