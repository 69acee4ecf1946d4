//! A platform agnostic driver core for the XPT2046 touch controller.
//!
//! The crate holds the driver's state and every decision the driver takes. It
//! performs no input or output itself: each operation is a step function that
//! takes what has just happened and returns what has to be done next (exchange
//! bytes over SPI, wait for the interrupt pin, draw a calibration target and
//! so on). The caller performs that and reports back.

pub mod calibration;
pub mod driver;
pub mod error;
pub mod geometry;
pub mod laws;
pub mod orientation;
pub mod samples;

pub use crate::calibration::CalibrationData;
pub use crate::calibration::CalibrationPoint;
pub use crate::driver::TouchScreenOperationMode;
pub use crate::driver::TouchScreenState;
pub use crate::driver::Xpt2046;
pub use crate::error::BusError;
pub use crate::error::Error;
pub use crate::orientation::Orientation;
pub use crate::samples::TouchSamples;
