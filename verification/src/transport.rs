//! Boundary contract with the register transport adapter: the capability to
//! perform addressed byte reads and writes over the bus. The driver owns one
//! transport exclusively for the session's lifetime; implementations live
//! outside this crate (a real two-wire bus, or a mock register file).

use vstd::prelude::*;

verus! {

/// An addressed byte transport to the chip's registers.
///
/// Every operation may fail with a transport-specific error; the driver
/// propagates such failures verbatim and never retries.
pub trait I2cBus {
    /// The transport's own failure type.
    type BusError;

    /// Writes `bytes` to the device, where `bytes[0]` is the target register
    /// and the remainder is the payload, in register order.
    fn write(&mut self, address: u8, bytes: &[u8]) -> (r: Result<(), Self::BusError>);

    /// Performs an addressed read of `len` bytes starting at `register`.
    ///
    /// An implementation must return exactly `len` bytes on success.
    fn read(&mut self, address: u8, register: u8, len: usize) -> (r: Result<
        Vec<u8>,
        Self::BusError,
    >)
        ensures
            r matches Ok(bytes) ==> bytes@.len() == len,
    ;
}

} // verus!
