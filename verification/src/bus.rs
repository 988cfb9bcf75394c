//! Generic synchronous I2C bus transport.
//!
//! The driver does not perform I/O itself: the user supplies the transport
//! as an implementation of [`I2cBus`], exactly as the sensor family expects
//! it — byte-addressed registers behind "write bytes" and "write bytes then
//! read reply" primitives keyed by a 7-bit device address.
//!
//! Implementations live outside this library and are not verified; the
//! history that the trait's contracts speak of is the ghost log of the
//! transactions that completed successfully, so everything proved about the
//! driver holds of a transport insofar as it keeps that log faithfully.

use vstd::prelude::*;

verus! {

/// One completed bus transaction, as recorded in a transport's history.
pub enum Transaction {
    /// Bytes written to a device.
    Write { addr: u8, bytes: Seq<u8> },
    /// Bytes written to a device, followed by a reply read back from it.
    WriteRead { addr: u8, bytes: Seq<u8>, response: Seq<u8> },
}

/// Synchronous, blocking I2C bus transport: exactly one transaction is in
/// flight at a time, and each call returns only once the transaction has
/// completed or failed.
pub trait I2cBus {
    /// The transport's own error type, forwarded unchanged by the driver.
    type Error;

    /// The log of the transactions completed so far. This is a ghost
    /// quantity: transports outside the library leave it at its default,
    /// and the library's contracts over it hold of such a transport
    /// insofar as it honours the two methods' contracts below.
    open spec fn history(&self) -> Seq<Transaction> {
        Seq::empty()
    }

    /// Write `bytes` to the device at `addr`.
    fn write(&mut self, addr: u8, bytes: &[u8]) -> (r: Result<(), Self::Error>)
        ensures
            r is Ok ==> final(self).history() == old(self).history().push(
                (Transaction::Write { addr, bytes: bytes@ }),
            ),
    ;

    /// Write `bytes` to the device at `addr`, then read a reply of exactly
    /// `read_len` bytes from it.
    fn write_read(&mut self, addr: u8, bytes: &[u8], read_len: usize) -> (r: Result<
        Vec<u8>,
        Self::Error,
    >)
        ensures
            (r matches Ok(response) ==> response@.len() == read_len && final(self).history()
                == old(self).history().push(
                (Transaction::WriteRead { addr, bytes: bytes@, response: response@ }),
            )),
    ;
}

} // verus!
