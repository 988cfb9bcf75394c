//! The driver facade: register map, configuration bit flags, and the
//! operations issued over the bus transport.

use vstd::prelude::*;

use crate::bus::{I2cBus, Transaction};
use crate::conversion;
use crate::ic;
use crate::markers::ResolutionSupport;
use crate::{Address, Config, Error, FaultQueue, OsMode, OsPolarity, Xx75};

verus! {

/// The device family's fixed register map.
pub struct Register;

impl Register {
    /// Temperature register (read-only, 2 bytes).
    pub const TEMPERATURE: u8 = 0x00;

    /// Configuration register (read/write, 1 byte).
    pub const CONFIGURATION: u8 = 0x01;

    /// Hysteresis threshold register (2 bytes).
    pub const T_HYST: u8 = 0x02;

    /// Overtemperature shutdown threshold register (2 bytes).
    pub const T_OS: u8 = 0x03;

    /// Idle (sample rate) register, PCT2075 only (read/write, 1 byte).
    pub const T_IDLE: u8 = 0x04;
}

/// Named bit positions of the configuration register.
pub struct BitFlags;

impl BitFlags {
    /// Shutdown: set to disable the sensor.
    pub const SHUTDOWN: u8 = 0b0000_0001;

    /// OS operation mode: clear for comparator, set for interrupt.
    pub const COMP_INT: u8 = 0b0000_0010;

    /// OS polarity: clear for active low, set for active high.
    pub const OS_POLARITY: u8 = 0b0000_0100;

    /// Low bit of the 2-bit fault queue field.
    pub const FAULT_QUEUE0: u8 = 0b0000_1000;

    /// High bit of the 2-bit fault queue field.
    pub const FAULT_QUEUE1: u8 = 0b0001_0000;
}

/// The bus transaction that commits the given configuration bits.
pub open spec fn config_write(addr: u8, bits: u8) -> Transaction {
    Transaction::Write { addr, bytes: seq![Register::CONFIGURATION, bits] }
}

/// The configuration bits after selecting the given fault queue depth in
/// the 2-bit fault queue field.
pub open spec fn fault_queue_bits(bits: u8, fq: FaultQueue) -> u8 {
    match fq {
        FaultQueue::_1 => bits & !BitFlags::FAULT_QUEUE1 & !BitFlags::FAULT_QUEUE0,
        FaultQueue::_2 => (bits & !BitFlags::FAULT_QUEUE1) | BitFlags::FAULT_QUEUE0,
        FaultQueue::_4 => (bits | BitFlags::FAULT_QUEUE1) & !BitFlags::FAULT_QUEUE0,
        FaultQueue::_6 => bits | BitFlags::FAULT_QUEUE1 | BitFlags::FAULT_QUEUE0,
    }
}

/// The configuration bits after selecting the given OS polarity.
pub open spec fn os_polarity_bits(bits: u8, polarity: OsPolarity) -> u8 {
    match polarity {
        OsPolarity::ActiveLow => bits & !BitFlags::OS_POLARITY,
        OsPolarity::ActiveHigh => bits | BitFlags::OS_POLARITY,
    }
}

/// The configuration bits after selecting the given OS operation mode.
pub open spec fn os_mode_bits(bits: u8, mode: OsMode) -> u8 {
    match mode {
        OsMode::Comparator => bits & !BitFlags::COMP_INT,
        OsMode::Interrupt => bits | BitFlags::COMP_INT,
    }
}

/// Coldest temperature the thresholds accept: -55 degrees Celsius, in
/// eighths of a degree.
pub const MIN_TEMP_EIGHTHS: i16 = -440;

/// Hottest temperature the thresholds accept: 125 degrees Celsius, in
/// eighths of a degree.
pub const MAX_TEMP_EIGHTHS: i16 = 1000;

/// The bus transaction that writes the given temperature to a threshold
/// register, encoded under the given resolution mask.
pub open spec fn temperature_write(addr: u8, register: u8, eighths: i16, mask: u16) -> Transaction {
    Transaction::Write {
        addr,
        bytes: seq![
            register,
            crate::conversion::register_pair(eighths, mask).0,
            crate::conversion::register_pair(eighths, mask).1,
        ],
    }
}

impl<I2C, IC> Xx75<I2C, IC> where I2C: I2cBus {
    /// The log of bus transactions completed by this driver's transport.
    pub closed spec fn bus_log(&self) -> Seq<Transaction> {
        self.i2c.history()
    }

    /// The driver's cached copy of the configuration register.
    pub closed spec fn cached_config(&self) -> u8 {
        self.config.bits
    }

    /// The device address this driver was constructed with.
    pub closed spec fn bus_address(&self) -> u8 {
        self.address
    }

    /// Destroy driver instance, return the I2C bus instance.
    pub fn destroy(self) -> (i2c: I2C)
        ensures
            i2c.history() == self.bus_log(),
    {
        self.i2c
    }

    /// Write a configuration byte to the device, and commit it to the
    /// cached copy only after the bus transaction has succeeded.
    fn write_config(&mut self, config: Config) -> (r: Result<(), Error<I2C::Error>>)
        ensures
            final(self).address == old(self).address,
            match r {
                Ok(()) => final(self).config == config && final(self).i2c.history() == old(
                    self,
                ).i2c.history().push(config_write(old(self).address, config.bits)),
                Err(Error::I2C(_)) => final(self).config == old(self).config,
                Err(Error::InvalidInputData) => false,
            },
    {
        let frame: [u8; 2] = [Register::CONFIGURATION, config.bits];
        proof {
            assert(frame@ =~= seq![Register::CONFIGURATION, config.bits]);
        }
        match self.i2c.write(self.address, frame.as_slice()) {
            Ok(()) => {
                self.config = config;
                Ok(())
            },
            Err(e) => Err(Error::I2C(e)),
        }
    }

    /// Enable the sensor (default state): clear the shutdown bit.
    pub fn enable(&mut self) -> (r: Result<(), Error<I2C::Error>>)
        ensures
            final(self).bus_address() == old(self).bus_address(),
            match r {
                Ok(()) => final(self).cached_config() == old(self).cached_config()
                    & !BitFlags::SHUTDOWN && final(self).bus_log() == old(self).bus_log().push(
                    config_write(
                        old(self).bus_address(),
                        old(self).cached_config() & !BitFlags::SHUTDOWN,
                    ),
                ),
                Err(Error::I2C(_)) => final(self).cached_config() == old(self).cached_config(),
                Err(Error::InvalidInputData) => false,
            },
    {
        let config = self.config;
        self.write_config(config.with_low(BitFlags::SHUTDOWN))
    }

    /// Disable the sensor (shutdown): set the shutdown bit.
    pub fn disable(&mut self) -> (r: Result<(), Error<I2C::Error>>)
        ensures
            final(self).bus_address() == old(self).bus_address(),
            match r {
                Ok(()) => final(self).cached_config() == (old(self).cached_config()
                    | BitFlags::SHUTDOWN) && final(self).bus_log() == old(self).bus_log().push(
                    config_write(
                        old(self).bus_address(),
                        old(self).cached_config() | BitFlags::SHUTDOWN,
                    ),
                ),
                Err(Error::I2C(_)) => final(self).cached_config() == old(self).cached_config(),
                Err(Error::InvalidInputData) => false,
            },
    {
        let config = self.config;
        self.write_config(config.with_high(BitFlags::SHUTDOWN))
    }

    /// Set the fault queue: the number of consecutive faults that will
    /// trigger an OS condition.
    pub fn set_fault_queue(&mut self, fq: FaultQueue) -> (r: Result<(), Error<I2C::Error>>)
        ensures
            final(self).bus_address() == old(self).bus_address(),
            match r {
                Ok(()) => final(self).cached_config() == fault_queue_bits(
                    old(self).cached_config(),
                    fq,
                ) && final(self).bus_log() == old(self).bus_log().push(
                    config_write(
                        old(self).bus_address(),
                        fault_queue_bits(old(self).cached_config(), fq),
                    ),
                ),
                Err(Error::I2C(_)) => final(self).cached_config() == old(self).cached_config(),
                Err(Error::InvalidInputData) => false,
            },
    {
        let config = self.config;
        match fq {
            FaultQueue::_1 => self.write_config(
                config.with_low(BitFlags::FAULT_QUEUE1).with_low(BitFlags::FAULT_QUEUE0),
            ),
            FaultQueue::_2 => self.write_config(
                config.with_low(BitFlags::FAULT_QUEUE1).with_high(BitFlags::FAULT_QUEUE0),
            ),
            FaultQueue::_4 => self.write_config(
                config.with_high(BitFlags::FAULT_QUEUE1).with_low(BitFlags::FAULT_QUEUE0),
            ),
            FaultQueue::_6 => self.write_config(
                config.with_high(BitFlags::FAULT_QUEUE1).with_high(BitFlags::FAULT_QUEUE0),
            ),
        }
    }

    /// Set the OS polarity.
    pub fn set_os_polarity(&mut self, polarity: OsPolarity) -> (r: Result<(), Error<I2C::Error>>)
        ensures
            final(self).bus_address() == old(self).bus_address(),
            match r {
                Ok(()) => final(self).cached_config() == os_polarity_bits(
                    old(self).cached_config(),
                    polarity,
                ) && final(self).bus_log() == old(self).bus_log().push(
                    config_write(
                        old(self).bus_address(),
                        os_polarity_bits(old(self).cached_config(), polarity),
                    ),
                ),
                Err(Error::I2C(_)) => final(self).cached_config() == old(self).cached_config(),
                Err(Error::InvalidInputData) => false,
            },
    {
        let config = self.config;
        match polarity {
            OsPolarity::ActiveLow => self.write_config(config.with_low(BitFlags::OS_POLARITY)),
            OsPolarity::ActiveHigh => self.write_config(config.with_high(BitFlags::OS_POLARITY)),
        }
    }

    /// Set the OS operation mode.
    pub fn set_os_mode(&mut self, mode: OsMode) -> (r: Result<(), Error<I2C::Error>>)
        ensures
            final(self).bus_address() == old(self).bus_address(),
            match r {
                Ok(()) => final(self).cached_config() == os_mode_bits(
                    old(self).cached_config(),
                    mode,
                ) && final(self).bus_log() == old(self).bus_log().push(
                    config_write(
                        old(self).bus_address(),
                        os_mode_bits(old(self).cached_config(), mode),
                    ),
                ),
                Err(Error::I2C(_)) => final(self).cached_config() == old(self).cached_config(),
                Err(Error::InvalidInputData) => false,
            },
    {
        let config = self.config;
        match mode {
            OsMode::Comparator => self.write_config(config.with_low(BitFlags::COMP_INT)),
            OsMode::Interrupt => self.write_config(config.with_high(BitFlags::COMP_INT)),
        }
    }
}

impl<I2C, IC> Xx75<I2C, IC> where I2C: I2cBus, IC: ResolutionSupport<<I2C as I2cBus>::Error> {
    /// Set the OS (overtemperature shutdown) threshold, in eighths of a
    /// degree Celsius. Temperatures outside [-55, 125] degrees are rejected
    /// as invalid input before any bus transaction is attempted.
    pub fn set_os_temperature(&mut self, temperature: i16) -> (r: Result<(), Error<I2C::Error>>)
        ensures
            final(self).bus_address() == old(self).bus_address(),
            final(self).cached_config() == old(self).cached_config(),
            (temperature < MIN_TEMP_EIGHTHS || temperature > MAX_TEMP_EIGHTHS) <==> (r matches Err(
                Error::InvalidInputData,
            )),
            (r matches Err(Error::InvalidInputData)) ==> final(self).bus_log() == old(
                self,
            ).bus_log(),
            r is Ok ==> final(self).bus_log() == old(self).bus_log().push(
                temperature_write(
                    old(self).bus_address(),
                    Register::T_OS,
                    temperature,
                    IC::resolution_mask_spec(),
                ),
            ),
    {
        self.write_temperature(Register::T_OS, temperature)
    }

    /// Set the hysteresis threshold, in eighths of a degree Celsius.
    /// Temperatures outside [-55, 125] degrees are rejected as invalid
    /// input before any bus transaction is attempted.
    pub fn set_hysteresis_temperature(&mut self, temperature: i16) -> (r: Result<
        (),
        Error<I2C::Error>,
    >)
        ensures
            final(self).bus_address() == old(self).bus_address(),
            final(self).cached_config() == old(self).cached_config(),
            (temperature < MIN_TEMP_EIGHTHS || temperature > MAX_TEMP_EIGHTHS) <==> (r matches Err(
                Error::InvalidInputData,
            )),
            (r matches Err(Error::InvalidInputData)) ==> final(self).bus_log() == old(
                self,
            ).bus_log(),
            r is Ok ==> final(self).bus_log() == old(self).bus_log().push(
                temperature_write(
                    old(self).bus_address(),
                    Register::T_HYST,
                    temperature,
                    IC::resolution_mask_spec(),
                ),
            ),
    {
        self.write_temperature(Register::T_HYST, temperature)
    }

    /// Validate a threshold temperature and write it to the given register.
    fn write_temperature(&mut self, register: u8, temperature: i16) -> (r: Result<
        (),
        Error<I2C::Error>,
    >)
        ensures
            final(self).bus_address() == old(self).bus_address(),
            final(self).cached_config() == old(self).cached_config(),
            (temperature < MIN_TEMP_EIGHTHS || temperature > MAX_TEMP_EIGHTHS) <==> (r matches Err(
                Error::InvalidInputData,
            )),
            (r matches Err(Error::InvalidInputData)) ==> final(self).bus_log() == old(
                self,
            ).bus_log(),
            r is Ok ==> final(self).bus_log() == old(self).bus_log().push(
                temperature_write(
                    old(self).bus_address(),
                    register,
                    temperature,
                    IC::resolution_mask_spec(),
                ),
            ),
    {
        if temperature < MIN_TEMP_EIGHTHS || temperature > MAX_TEMP_EIGHTHS {
            return Err(Error::InvalidInputData);
        }
        let mask = IC::get_resolution_mask();
        let (msb, lsb) = conversion::convert_temp_to_register(temperature, mask);
        let frame: [u8; 3] = [register, msb, lsb];
        proof {
            assert(frame@ =~= seq![register, msb, lsb]);
        }
        match self.i2c.write(self.address, frame.as_slice()) {
            Ok(()) => Ok(()),
            Err(e) => Err(Error::I2C(e)),
        }
    }

    /// Read the temperature from the sensor, in eighths of a degree
    /// Celsius, decoded under this variant's resolution.
    pub fn read_temperature(&mut self) -> (r: Result<i16, Error<I2C::Error>>)
        ensures
            final(self).bus_address() == old(self).bus_address(),
            final(self).cached_config() == old(self).cached_config(),
            match r {
                Ok(t) => {
                    let log = final(self).bus_log();
                    &&& log.len() == old(self).bus_log().len() + 1
                    &&& log.drop_last() == old(self).bus_log()
                    &&& (log.last() matches Transaction::WriteRead { addr, bytes, response }
                        && addr == old(self).bus_address() && bytes == seq![Register::TEMPERATURE]
                        && response.len() == 2 && t as int == conversion::temperature_eighths(
                        response[0],
                        response[1],
                        IC::resolution_mask_spec(),
                    ))
                },
                Err(Error::I2C(_)) => true,
                Err(Error::InvalidInputData) => false,
            },
    {
        let frame: [u8; 1] = [Register::TEMPERATURE];
        proof {
            assert(frame@ =~= seq![Register::TEMPERATURE]);
        }
        match self.i2c.write_read(self.address, frame.as_slice(), 2) {
            Ok(data) => {
                let mask = IC::get_resolution_mask();
                Ok(conversion::convert_temp_from_register(data[0], data[1], mask))
            },
            Err(e) => Err(Error::I2C(e)),
        }
    }
}

impl<I2C> Xx75<I2C, ic::Lm75> where I2C: I2cBus {
    /// Create a new instance of the LM75 device.
    pub fn new(i2c: I2C, address: Address) -> (sensor: Self)
        ensures
            sensor.bus_address() == address.0,
            sensor.cached_config() == 0,
            sensor.bus_log() == i2c.history(),
    {
        Xx75 {
            i2c,
            address: address.0,
            config: Config::default(),
            _ic: core::marker::PhantomData,
        }
    }
}

impl<I2C> Xx75<I2C, ic::Pct2075> where I2C: I2cBus {
    /// Create a new instance of the PCT2075 device.
    pub fn new_pct2075(i2c: I2C, address: Address) -> (sensor: Self)
        ensures
            sensor.bus_address() == address.0,
            sensor.cached_config() == 0,
            sensor.bus_log() == i2c.history(),
    {
        Xx75 {
            i2c,
            address: address.0,
            config: Config::default(),
            _ic: core::marker::PhantomData,
        }
    }

    /// Set the sensor sample rate period in milliseconds (100 ms
    /// increments). Periods outside [100, 3100], or not a multiple of 100,
    /// are rejected as invalid input before any bus transaction is
    /// attempted.
    pub fn set_sample_rate(&mut self, period: u16) -> (r: Result<(), Error<I2C::Error>>)
        ensures
            final(self).bus_address() == old(self).bus_address(),
            final(self).cached_config() == old(self).cached_config(),
            (period < 100 || period > 3100 || period % 100 != 0) <==> (r matches Err(
                Error::InvalidInputData,
            )),
            (r matches Err(Error::InvalidInputData)) ==> final(self).bus_log() == old(
                self,
            ).bus_log(),
            r is Ok ==> final(self).bus_log() == old(self).bus_log().push(
                (Transaction::Write {
                    addr: old(self).bus_address(),
                    bytes: seq![Register::T_IDLE, (period / 100) as u8],
                }),
            ),
    {
        if period < 100 || period > 3100 || period % 100 != 0 {
            return Err(Error::InvalidInputData);
        }
        let byte = conversion::convert_sample_rate_to_register(period);
        let frame: [u8; 2] = [Register::T_IDLE, byte];
        proof {
            assert(frame@ =~= seq![Register::T_IDLE, byte]);
        }
        match self.i2c.write(self.address, frame.as_slice()) {
            Ok(()) => Ok(()),
            Err(e) => Err(Error::I2C(e)),
        }
    }

    /// Read the sample rate period from the sensor, in milliseconds.
    pub fn read_sample_rate(&mut self) -> (r: Result<u16, Error<I2C::Error>>)
        ensures
            final(self).bus_address() == old(self).bus_address(),
            final(self).cached_config() == old(self).cached_config(),
            match r {
                Ok(period) => {
                    let log = final(self).bus_log();
                    &&& log.len() == old(self).bus_log().len() + 1
                    &&& log.drop_last() == old(self).bus_log()
                    &&& (log.last() matches Transaction::WriteRead { addr, bytes, response }
                        && addr == old(self).bus_address() && bytes == seq![Register::T_IDLE]
                        && response.len() == 1 && period == conversion::sample_rate_ms(response[0]))
                    &&& period <= 3100
                    &&& period % 100 == 0
                },
                Err(Error::I2C(_)) => true,
                Err(Error::InvalidInputData) => false,
            },
    {
        let frame: [u8; 1] = [Register::T_IDLE];
        proof {
            assert(frame@ =~= seq![Register::T_IDLE]);
        }
        match self.i2c.write_read(self.address, frame.as_slice(), 1) {
            Ok(data) => Ok(conversion::convert_sample_rate_from_register(data[0])),
            Err(e) => Err(Error::I2C(e)),
        }
    }
}

} // verus!
