//! The ways in which the touch screen can be mounted.

use vstd::arithmetic::power2::lemma2_to64;
use vstd::arithmetic::power2::lemma2_to64_rest;
use vstd::prelude::*;

use crate::calibration::CalibrationData;
use crate::calibration::CalibrationPoint;
use crate::calibration::Single;
use crate::geometry::Point;

verus! {

/// Orientation of the touch screen
#[derive(Debug, Clone, Copy)]
pub enum Orientation {
    Portrait,
    PortraitFlipped,
    Landscape,
    LandscapeFlipped,
}

impl Orientation {
    /// The screen is higher than it is wide.
    pub open spec fn is_portrait(self) -> bool {
        self is Portrait || self is PortraitFlipped
    }

    /// The coefficients are the decimal fractions that the orientation starts
    /// with, each rounded to single precision.
    pub open spec fn default_coefficients(self, data: CalibrationData) -> bool {
        match self {
            Orientation::Portrait => data.rounds(
                -93_370,
                -6_368_390,
                250_342,
                -8_897_750,
                -118_110,
                356_538,
            ),
            Orientation::PortraitFlipped => data.rounds(
                61_000,
                6_478_280,
                -13_634,
                8_906_090,
                13_810,
                -35_730,
            ),
            Orientation::Landscape => data.rounds(
                -8_855_420,
                165_320,
                349_800,
                73_090,
                6_543_699,
                -15_290,
            ),
            Orientation::LandscapeFlipped => data.rounds(
                9_022_160,
                65_100,
                -38_657,
                -100_050,
                -6_670_300,
                258_080,
            ),
        }
    }

    /// Default location for the test touch point
    /// Those depend on whether the touch screen operates in
    /// Portrait or Landscape position
    #[must_use]
    pub fn calibration_point(&self) -> (point: CalibrationPoint)
        ensures
            point == self.default_point(),
    {
        match self {
            Orientation::Portrait | Orientation::PortraitFlipped => CalibrationPoint {
                a: Point::new(10, 10),
                b: Point::new(80, 210),
                c: Point::new(200, 170),
            },
            Orientation::Landscape | Orientation::LandscapeFlipped => CalibrationPoint {
                a: Point::new(20, 25),
                b: Point::new(160, 220),
                c: Point::new(300, 110),
            },
        }
    }

    /// Default calibration values used for calculating the touch points
    /// Those depend on whether the touch screen operates in
    /// Portrait or Landscape position
    #[must_use]
    pub fn calibration_data(&self) -> (data: CalibrationData)
        ensures
            data == self.default_data(),
            self.default_coefficients(data),
    {
        proof {
            default_data_rounds(*self);
        }
        match self {
            Orientation::Portrait => CalibrationData {
                alpha_x: Single { bits: 0xBA74_C38C },  // -0.0009337
                beta_x: Single { bits: 0xBD82_6CB4 },  // -0.0636839
                delta_x: Single { bits: 0x437A_578D },  // 250.342
                alpha_y: Single { bits: 0xBDB6_39D6 },  // -0.0889775
                beta_y: Single { bits: 0xBA9A_CF24 },  // -0.0011811
                delta_y: Single { bits: 0x43B2_44DD },  // 356.538
            },
            Orientation::PortraitFlipped => CalibrationData {
                alpha_x: Single { bits: 0x3A1F_E868 },  // 0.00061
                beta_x: Single { bits: 0x3D84_ACD8 },  // 0.0647828
                delta_x: Single { bits: 0xC15A_24DD },  // -13.634
                alpha_y: Single { bits: 0x3DB6_6590 },  // 0.0890609
                beta_y: Single { bits: 0x3910_CEF0 },  // 0.0001381
                delta_y: Single { bits: 0xC20E_EB85 },  // -35.73
            },
            Orientation::Landscape => CalibrationData {
                alpha_x: Single { bits: 0xBDB5_5BE8 },  // -0.0885542
                beta_x: Single { bits: 0x3AD8_B030 },  // 0.0016532
                delta_x: Single { bits: 0x43AE_E666 },  // 349.8
                alpha_y: Single { bits: 0x3A3F_99DE },  // 0.0007309
                beta_y: Single { bits: 0x3D86_03D4 },  // 0.06543699
                delta_y: Single { bits: 0xC174_A3D7 },  // -15.29
            },
            Orientation::LandscapeFlipped => CalibrationData {
                alpha_x: Single { bits: 0x3DB8_C61A },  // 0.0902216
                beta_x: Single { bits: 0x3A2A_A7DF },  // 0.000651
                delta_x: Single { bits: 0xC21A_A0C5 },  // -38.657
                alpha_y: Single { bits: 0xBA83_2336 },  // -0.0010005
                beta_y: Single { bits: 0xBD88_9B95 },  // -0.066703
                delta_y: Single { bits: 0x4381_0A3D },  // 258.08
            },
        }
    }

    /// The targets that an orientation starts with.
    pub open spec fn default_point(self) -> CalibrationPoint {
        if self.is_portrait() {
            CalibrationPoint {
                a: Point { x: 10, y: 10 },
                b: Point { x: 80, y: 210 },
                c: Point { x: 200, y: 170 },
            }
        } else {
            CalibrationPoint {
                a: Point { x: 20, y: 25 },
                b: Point { x: 160, y: 220 },
                c: Point { x: 300, y: 110 },
            }
        }
    }

    /// The bit patterns of the coefficients that an orientation starts with.
    pub open spec fn default_data(self) -> CalibrationData {
        match self {
            Orientation::Portrait => CalibrationData {
                alpha_x: Single { bits: 0xBA74_C38C },  // -0.0009337
                beta_x: Single { bits: 0xBD82_6CB4 },  // -0.0636839
                delta_x: Single { bits: 0x437A_578D },  // 250.342
                alpha_y: Single { bits: 0xBDB6_39D6 },  // -0.0889775
                beta_y: Single { bits: 0xBA9A_CF24 },  // -0.0011811
                delta_y: Single { bits: 0x43B2_44DD },  // 356.538
            },
            Orientation::PortraitFlipped => CalibrationData {
                alpha_x: Single { bits: 0x3A1F_E868 },  // 0.00061
                beta_x: Single { bits: 0x3D84_ACD8 },  // 0.0647828
                delta_x: Single { bits: 0xC15A_24DD },  // -13.634
                alpha_y: Single { bits: 0x3DB6_6590 },  // 0.0890609
                beta_y: Single { bits: 0x3910_CEF0 },  // 0.0001381
                delta_y: Single { bits: 0xC20E_EB85 },  // -35.73
            },
            Orientation::Landscape => CalibrationData {
                alpha_x: Single { bits: 0xBDB5_5BE8 },  // -0.0885542
                beta_x: Single { bits: 0x3AD8_B030 },  // 0.0016532
                delta_x: Single { bits: 0x43AE_E666 },  // 349.8
                alpha_y: Single { bits: 0x3A3F_99DE },  // 0.0007309
                beta_y: Single { bits: 0x3D86_03D4 },  // 0.06543699
                delta_y: Single { bits: 0xC174_A3D7 },  // -15.29
            },
            Orientation::LandscapeFlipped => CalibrationData {
                alpha_x: Single { bits: 0x3DB8_C61A },  // 0.0902216
                beta_x: Single { bits: 0x3A2A_A7DF },  // 0.000651
                delta_x: Single { bits: 0xC21A_A0C5 },  // -38.657
                alpha_y: Single { bits: 0xBA83_2336 },  // -0.0010005
                beta_y: Single { bits: 0xBD88_9B95 },  // -0.066703
                delta_y: Single { bits: 0x4381_0A3D },  // 258.08
            },
        }
    }
}

/// The bit patterns an orientation starts with are its decimal coefficients,
/// each rounded to single precision.
pub proof fn default_data_rounds(orientation: Orientation)
    ensures
        orientation.default_coefficients(orientation.default_data()),
{
    lemma2_to64();
    lemma2_to64_rest();
}

} // verus!
