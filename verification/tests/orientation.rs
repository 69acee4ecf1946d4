use xpt2046_async::calibration::{CalibrationData, CalibrationPoint, Single};
use xpt2046_async::geometry::Point;
use xpt2046_async::orientation::Orientation;

fn number(single: Single) -> f32 {
    f32::from_bits(single.bits)
}

fn numbers(data: CalibrationData) -> [f32; 6] {
    [
        number(data.alpha_x),
        number(data.beta_x),
        number(data.delta_x),
        number(data.alpha_y),
        number(data.beta_y),
        number(data.delta_y),
    ]
}

#[test]
fn portrait_coefficients() {
    assert_eq!(
        numbers(Orientation::Portrait.calibration_data()),
        [-0.000_933_7, -0.063_683_9, 250.342, -0.088_977_5, -0.001_181_10, 356.538]
    );
}

#[test]
fn flipped_portrait_coefficients() {
    assert_eq!(
        numbers(Orientation::PortraitFlipped.calibration_data()),
        [0.000_610_0, 0.064_782_8, -13.634, 0.089_060_9, 0.000_138_1, -35.73]
    );
}

#[test]
fn landscape_coefficients() {
    assert_eq!(
        numbers(Orientation::Landscape.calibration_data()),
        [-0.088_554_2, 0.001_653_2, 349.800, 0.000_730_9, 0.065_436_99, -15.290]
    );
}

#[test]
fn flipped_landscape_coefficients() {
    assert_eq!(
        numbers(Orientation::LandscapeFlipped.calibration_data()),
        [0.090_221_6, 0.000_651_0, -38.657, -0.001_000_5, -0.066_703_0, 258.08]
    );
}

#[test]
fn portrait_targets() {
    let expected = CalibrationPoint {
        a: Point::new(10, 10),
        b: Point::new(80, 210),
        c: Point::new(200, 170),
    };
    assert_eq!(Orientation::Portrait.calibration_point(), expected);
    assert_eq!(Orientation::PortraitFlipped.calibration_point(), expected);
}

#[test]
fn landscape_targets() {
    let expected = CalibrationPoint {
        a: Point::new(20, 25),
        b: Point::new(160, 220),
        c: Point::new(300, 110),
    };
    assert_eq!(Orientation::Landscape.calibration_point(), expected);
    assert_eq!(Orientation::LandscapeFlipped.calibration_point(), expected);
}
