//! Calibration coefficients and calibration targets.

use vstd::arithmetic::power2::pow2;
use vstd::prelude::*;

use crate::geometry::Point;

verus! {

/// A single-precision floating-point number, held as its IEEE 754 bit pattern.
#[derive(Debug, Clone, Copy, PartialEq, Eq, Structural)]
pub struct Single {
    /// The bit pattern.
    pub bits: u32,
}

impl Single {
    /// The eight exponent bits.
    pub open spec fn exponent_bits(self) -> int {
        (self.bits as int / 0x80_0000) % 0x100
    }

    /// The significand of a normal number, with its leading one and its sign.
    /// The number is the significand times two to the power of the exponent
    /// bits less 150.
    pub open spec fn significand(self) -> int {
        let magnitude = 0x80_0000 + self.bits as int % 0x80_0000;
        if self.bits >= 0x8000_0000 {
            -magnitude
        } else {
            magnitude
        }
    }

    /// The number is normal and differs from the given fraction by less than
    /// half a unit in its last place. Stated for numbers with a fractional
    /// part, that is of magnitude below two to the power of 24.
    pub open spec fn rounds(self, numerator: int, denominator: int) -> bool {
        let scale = pow2((150 - self.exponent_bits()) as nat);
        let error = 2 * (numerator * scale - self.significand() * denominator);
        &&& 0 < self.exponent_bits() <= 150
        &&& -denominator < error < denominator
    }
}

/// The coefficients that turn a raw measurement into a point on the screen:
/// `x = alpha_x * raw.x + beta_x * raw.y + delta_x`, and `y` alike.
#[derive(Debug, Clone, Copy, PartialEq, Eq, Structural)]
pub struct CalibrationData {
    /// What the raw x coordinate contributes to x
    pub alpha_x: Single,
    /// What the raw y coordinate contributes to x
    pub beta_x: Single,
    /// Offset of x
    pub delta_x: Single,
    /// What the raw x coordinate contributes to y
    pub alpha_y: Single,
    /// What the raw y coordinate contributes to y
    pub beta_y: Single,
    /// Offset of y
    pub delta_y: Single,
}

impl CalibrationData {
    /// Each coefficient is a decimal fraction rounded to single precision. The
    /// factors are given in units of 10^-8, the offsets in units of 10^-3.
    pub open spec fn rounds(
        self,
        alpha_x: int,
        beta_x: int,
        delta_x: int,
        alpha_y: int,
        beta_y: int,
        delta_y: int,
    ) -> bool {
        &&& self.alpha_x.rounds(alpha_x, 1_0000_0000)
        &&& self.beta_x.rounds(beta_x, 1_0000_0000)
        &&& self.delta_x.rounds(delta_x, 1000)
        &&& self.alpha_y.rounds(alpha_y, 1_0000_0000)
        &&& self.beta_y.rounds(beta_y, 1_0000_0000)
        &&& self.delta_y.rounds(delta_y, 1000)
    }
}

/// Three touch points that a calibration goes by.
#[derive(Debug, Clone, Copy, PartialEq, Eq, Structural)]
pub struct CalibrationPoint {
    /// The first point
    pub a: Point,
    /// The second point
    pub b: Point,
    /// The third point
    pub c: Point,
}

} // verus!
