use vstd::prelude::*;

verus! {

/// A blocking I2C bus, supplied by each target's peripheral layer.
pub trait I2c {
    /// What a failed transaction reports.
    type Error;

    /// Writes `bytes` to the device at `address`.
    fn write(&mut self, address: u8, bytes: &[u8]) -> Result<(), Self::Error>;

    /// Fills `buffer` from the device at `address`.
    fn read(&mut self, address: u8, buffer: &mut [u8]) -> Result<(), Self::Error>;

    /// Writes `bytes` to the device at `address`, then fills `buffer` from it
    /// in the same transaction.
    fn write_read(&mut self, address: u8, bytes: &[u8], buffer: &mut [u8]) -> Result<
        (),
        Self::Error,
    >;
}

/// A blocking millisecond wait, supplied by each target's peripheral layer.
pub trait Delay {
    /// Waits `ms` milliseconds.
    fn delay_ms_u8(&mut self, ms: u8);

    /// Waits `ms` milliseconds.
    fn delay_ms_u32(&mut self, ms: u32);
}

} // verus!
