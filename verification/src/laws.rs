//! What holds of the driver's operations as a whole.

pub mod calibration;
pub mod course;
pub mod initialisation;
pub mod measurement;
pub mod steps;
pub mod touch;
