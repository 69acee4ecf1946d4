//! What can go wrong while the driver is at work.

use vstd::prelude::*;

verus! {

/// A failure of the hardware the driver talks through.
#[derive(Debug)]
pub enum BusError<SPIError, CSError> {
    /// The SPI transfer failed.
    Spi(SPIError),
    /// Reading the interrupt pin, or waiting for it, failed.
    Pin(CSError),
}

/// A failure of a driver operation. `C` is how the computation of new
/// calibration data reports that it has failed.
#[derive(Debug)]
pub enum Error<E, C> {
    /// The hardware failed.
    Bus(E),
    /// No calibration data could be computed from the measured points.
    Calibration(C),
}

} // verus!
