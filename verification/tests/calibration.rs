use xpt2046_async::calibration::Single;
use xpt2046_async::driver::calibrate::{
    CalibrateAction, CalibrateEvent, CalibrationSession, ScreenColor,
};
use xpt2046_async::driver::{RunAction, RunEvent};
use xpt2046_async::geometry::Point;
use xpt2046_async::{BusError, CalibrationData, CalibrationPoint, Error, Orientation, Xpt2046};

type SpiFault = u16;
type PinFault = u8;
type CalculationFault = &'static str;
type Fault = Error<BusError<SpiFault, PinFault>, CalculationFault>;
type Action = CalibrateAction<SpiFault, PinFault, CalculationFault>;

fn whole_run(driver: &mut Xpt2046, rx: [u8; 5], is_low: Result<bool, PinFault>) -> Result<(), Fault> {
    let mut event: RunEvent<SpiFault, PinFault> = RunEvent::Start;
    loop {
        event = match driver.run(event) {
            RunAction::AwaitLow => RunEvent::LowAwaited(Ok(())),
            RunAction::Transfer { .. } => RunEvent::Transferred {
                rx,
                outcome: Ok(()),
            },
            RunAction::Compensate { .. } => panic!("a calibration works on raw measurements"),
            RunAction::ReadLevel { point } => RunEvent::LevelRead { point, is_low },
            RunAction::Finished(result) => return result,
        };
    }
}

/// A screen and a finger: what has been asked for, and what the next runs find.
struct Bench {
    drawn: Vec<Point>,
    cleared: Vec<ScreenColor>,
    delays: Vec<u32>,
    calculations: Vec<(CalibrationPoint, CalibrationPoint)>,
    session: CalibrationSession,
    touches: Vec<([u8; 5], bool)>,
}

impl Bench {
    fn new(driver: &Xpt2046, touches: &[([u8; 5], bool)]) -> Bench {
        Bench {
            drawn: Vec::new(),
            cleared: Vec::new(),
            delays: Vec::new(),
            calculations: Vec::new(),
            session: driver.start_calibration(),
            touches: touches.iter().rev().cloned().collect(),
        }
    }

    fn calibrate(
        &mut self,
        driver: &mut Xpt2046,
        answers: &[Result<CalibrationData, CalculationFault>],
    ) -> Result<CalibrationData, Fault> {
        let mut event = CalibrateEvent::Start;
        loop {
            let action: Action = driver.calibrate(&mut self.session, event);
            event = match action {
                CalibrateAction::ClearScreen { color, occasion } => {
                    self.cleared.push(color);
                    CalibrateEvent::ScreenCleared { occasion }
                }
                CalibrateAction::DrawTarget { target } => {
                    self.drawn.push(target);
                    CalibrateEvent::TargetDrawn
                }
                CalibrateAction::DelayMs(ms) => {
                    self.delays.push(ms);
                    CalibrateEvent::Delayed
                }
                CalibrateAction::Calculate { targets, measured } => {
                    self.calculations.push((targets, measured));
                    CalibrateEvent::Calculated(answers[self.calculations.len() - 1])
                }
                CalibrateAction::Run => CalibrateEvent::Ran(match self.touches.pop() {
                    Some((rx, is_low)) => whole_run(driver, rx, Ok(is_low)),
                    None => {
                        driver.clear_touch();
                        whole_run(driver, [0; 5], Err(42))
                    }
                }),
                CalibrateAction::Finished(result) => return result,
            };
        }
    }
}

/// The runs of a touch at a raw point: wait, confirm, release, rest.
fn touch(x: u8, y: u8) -> [([u8; 5], bool); 4] {
    [
        ([0; 5], true),
        ([0, 0, x, 0, y], true),
        ([0, 0, 250, 0, 250], false),
        ([0; 5], false),
    ]
}

fn three_touches(n: u8) -> Vec<([u8; 5], bool)> {
    let mut all = Vec::new();
    all.extend_from_slice(&touch(n + 10, n + 20));
    all.extend_from_slice(&touch(n + 30, n + 40));
    all.extend_from_slice(&touch(n + 50, n + 61));
    all
}

fn coefficients(bits: u32) -> CalibrationData {
    let single = Single { bits };
    CalibrationData {
        alpha_x: single,
        beta_x: single,
        delta_x: single,
        alpha_y: single,
        beta_y: single,
        delta_y: single,
    }
}

fn first_measured() -> CalibrationPoint {
    CalibrationPoint {
        a: Point::new(5, 10),
        b: Point::new(15, 20),
        c: Point::new(25, 30),
    }
}

/// The coefficients with which the driver works in normal mode.
fn data_in_use(driver: &mut Xpt2046) -> Option<CalibrationData> {
    let received: RunEvent<SpiFault, PinFault> = RunEvent::Transferred {
        rx: [0; 5],
        outcome: Ok(()),
    };
    let action: RunAction<SpiFault, PinFault, CalculationFault> = driver.run(received);
    match action {
        RunAction::Compensate { data, .. } => Some(data),
        _ => None,
    }
}

#[test]
fn three_touches_calibrate() {
    let mut driver = Xpt2046::new(Orientation::Landscape);
    let mut bench = Bench::new(&driver, &three_touches(0));
    let result = bench.calibrate(&mut driver, &[Ok(coefficients(17))]);
    assert_eq!(result.ok(), Some(coefficients(17)));
    let targets = Orientation::Landscape.calibration_point();
    assert_eq!(bench.calculations, vec![(targets, first_measured())]);
    let mut drawn = bench.drawn.clone();
    drawn.dedup();
    assert_eq!(drawn, vec![targets.a, targets.b, targets.c]);
    assert_eq!(bench.drawn.len(), 12);
    assert_eq!(bench.delays, vec![200, 200, 200]);
    assert_eq!(bench.cleared, vec![ScreenColor::Black, ScreenColor::White]);
    assert_eq!(data_in_use(&mut driver), Some(coefficients(17)));
}

#[test]
fn lasting_touch_is_measured_where_it_was_last() {
    let mut driver = Xpt2046::new(Orientation::Landscape);
    let mut touches = vec![
        ([0; 5], true),
        ([0, 0, 2, 0, 2], true),
        ([0, 0, 4, 0, 4], true),
        ([0, 1, 6, 0, 6], true),
        ([0, 0, 8, 0, 8], false),
        ([0; 5], false),
    ];
    touches.extend_from_slice(&touch(30, 40));
    touches.extend_from_slice(&touch(50, 60));
    let mut bench = Bench::new(&driver, &touches);
    assert!(bench.calibrate(&mut driver, &[Ok(coefficients(1))]).is_ok());
    assert_eq!(bench.calculations[0].1.a, Point::new(131, 3));
}

#[test]
fn failed_calculation_is_tried_again_with_the_first_targets() {
    let mut driver = Xpt2046::new(Orientation::Portrait);
    let mut touches = three_touches(0);
    // The new attempt begins with a run of its own.
    touches.push(([0; 5], true));
    touches.extend_from_slice(&three_touches(100)[1..]);
    let mut bench = Bench::new(&driver, &touches);
    let result = bench.calibrate(&mut driver, &[Err("flat"), Ok(coefficients(3))]);
    assert_eq!(result.ok(), Some(coefficients(3)));
    let targets = Orientation::Portrait.calibration_point();
    assert_eq!(bench.calculations.len(), 2);
    assert_eq!(bench.calculations[0], (targets, first_measured()));
    assert_eq!(
        bench.calculations[1],
        (
            targets,
            CalibrationPoint {
                a: Point::new(55, 60),
                b: Point::new(65, 70),
                c: Point::new(75, 80),
            }
        )
    );
    assert_eq!(
        bench.cleared,
        vec![ScreenColor::Black, ScreenColor::Black, ScreenColor::White]
    );
}

#[test]
fn four_failed_calculations_end_the_calibration() {
    let mut driver = Xpt2046::new(Orientation::Portrait);
    let mut touches = Vec::new();
    for _ in 0..4 {
        touches.extend_from_slice(&three_touches(0));
    }
    let mut bench = Bench::new(&driver, &touches);
    let result = bench.calibrate(
        &mut driver,
        &[Err("one"), Err("two"), Err("three"), Err("four")],
    );
    assert!(matches!(result, Err(Error::Calibration("four"))));
    assert_eq!(bench.calculations.len(), 4);
    assert_eq!(bench.cleared, vec![ScreenColor::Black; 4]);
    // Measurements stay raw after that.
    assert_eq!(data_in_use(&mut driver), None);
}

#[test]
fn failed_run_ends_the_calibration() {
    let mut driver = Xpt2046::new(Orientation::Portrait);
    let mut bench = Bench::new(&driver, &touch(10, 20));
    let result = bench.calibrate(&mut driver, &[]);
    assert!(matches!(result, Err(Error::Bus(BusError::Pin(42)))));
    assert!(bench.calculations.is_empty());
    assert_eq!(data_in_use(&mut driver), None);
}

#[test]
fn next_calibration_goes_by_the_measured_points() {
    let mut driver = Xpt2046::new(Orientation::Landscape);
    let mut bench = Bench::new(&driver, &three_touches(0));
    assert!(bench.calibrate(&mut driver, &[Ok(coefficients(1))]).is_ok());
    let mut bench = Bench::new(&driver, &three_touches(100));
    assert!(bench.calibrate(&mut driver, &[Ok(coefficients(2))]).is_ok());
    assert_eq!(bench.calculations[0].0, first_measured());
    assert_eq!(bench.drawn[0], first_measured().a);
    assert_eq!(data_in_use(&mut driver), Some(coefficients(2)));
}

/// A driver that has sampled the point (100, 200) in normal mode.
fn driver_after_a_touch(levels: &[bool]) -> Xpt2046 {
    let mut driver = Xpt2046::new(Orientation::Landscape);
    let arrival: RunEvent<SpiFault, PinFault> = RunEvent::LowAwaited(Ok(()));
    let _: RunAction<SpiFault, PinFault, CalculationFault> = driver.run(arrival);
    for is_low in levels {
        let sampled: RunEvent<SpiFault, PinFault> = RunEvent::LevelRead {
            point: Point::new(100, 200),
            is_low: Ok(*is_low),
        };
        let _: RunAction<SpiFault, PinFault, CalculationFault> = driver.run(sampled);
    }
    driver
}

fn three_targets_are_measured(mut driver: Xpt2046, touches: &[([u8; 5], bool)]) {
    let mut bench = Bench::new(&driver, touches);
    let result = bench.calibrate(&mut driver, &[Ok(coefficients(9))]);
    assert_eq!(result.ok(), Some(coefficients(9)));
    let targets = Orientation::Landscape.calibration_point();
    assert_eq!(bench.calculations, vec![(targets, first_measured())]);
    assert!(bench.touches.is_empty());
    assert_eq!(bench.delays, vec![200, 200, 200]);
}

/// A run that brings a released driver back to waiting.
const REST: ([u8; 5], bool) = ([0; 5], false);

#[test]
fn calibration_after_a_release_measures_three_targets() {
    let driver = driver_after_a_touch(&[true, false]);
    assert!(!driver.is_touched());
    let mut touches = vec![REST];
    touches.extend(three_touches(0));
    three_targets_are_measured(driver, &touches);
}

#[test]
fn touch_that_lasts_into_the_calibration_is_that_of_the_first_target() {
    let driver = driver_after_a_touch(&[true]);
    assert!(driver.is_touched());
    assert_eq!(driver.get_touch_point(), Point::new(50, 100));
    // The arrival and the confirmation came before: what is left is a touch
    // that lasts for a run, its release and the rest.
    three_targets_are_measured(driver, &three_touches(0)[1..]);
}

#[test]
fn touch_that_ends_with_the_first_run_is_none_of_the_first_target() {
    let driver = driver_after_a_touch(&[true]);
    let mut touches = vec![([0, 0, 70, 0, 80], false), REST];
    touches.extend(three_touches(0));
    three_targets_are_measured(driver, &touches);
}

#[test]
fn calibration_at_the_arrival_of_a_touch_measures_it_for_the_first_target() {
    let driver = driver_after_a_touch(&[]);
    three_targets_are_measured(driver, &three_touches(0)[1..]);
}

#[test]
fn two_touches_do_not_calibrate() {
    let mut driver = driver_after_a_touch(&[true, false]);
    let mut touches = vec![REST];
    touches.extend_from_slice(&three_touches(0)[..8]);
    let mut bench = Bench::new(&driver, &touches);
    let result = bench.calibrate(&mut driver, &[]);
    assert!(matches!(result, Err(Error::Bus(BusError::Pin(42)))));
    assert!(bench.calculations.is_empty());
}

#[test]
fn calibration_that_fails_at_once_keeps_the_touch() {
    let mut driver = driver_after_a_touch(&[true]);
    let mut session = driver.start_calibration();
    let mut event: CalibrateEvent<SpiFault, PinFault, CalculationFault> = CalibrateEvent::Start;
    loop {
        event = match driver.calibrate(&mut session, event) {
            CalibrateAction::ClearScreen { occasion, .. } => {
                CalibrateEvent::ScreenCleared { occasion }
            }
            CalibrateAction::DrawTarget { .. } => CalibrateEvent::TargetDrawn,
            CalibrateAction::Run => CalibrateEvent::Ran(Err(Error::Bus(BusError::Spi(5)))),
            CalibrateAction::Finished(result) => {
                assert!(matches!(result, Err(Error::Bus(BusError::Spi(5)))));
                break;
            }
            other => panic!("unexpected {:?}", other),
        };
    }
    assert!(driver.is_touched());
    assert_eq!(driver.get_touch_point(), Point::new(50, 100));
}
