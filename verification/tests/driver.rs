use xpt2046_async::driver::{InitAction, InitEvent, RunAction, RunEvent};
use xpt2046_async::geometry::Point;
use xpt2046_async::{BusError, Error, Orientation, TouchSamples, Xpt2046};

type SpiFault = &'static str;
type PinFault = u8;
type Fault = Error<BusError<SpiFault, PinFault>, ()>;

fn init(driver: &mut Xpt2046, event: InitEvent<SpiFault>) -> InitAction<SpiFault, PinFault, ()> {
    driver.init(event)
}

fn run(
    driver: &mut Xpt2046,
    event: RunEvent<SpiFault, PinFault>,
) -> RunAction<SpiFault, PinFault, ()> {
    driver.run(event)
}

/// A whole run of a driver that waits for a touch.
fn wait(driver: &mut Xpt2046, outcome: Result<(), PinFault>) -> Result<(), Fault> {
    assert!(matches!(run(driver, RunEvent::Start), RunAction::AwaitLow));
    match run(driver, RunEvent::LowAwaited(outcome)) {
        RunAction::Finished(result) => result,
        other => panic!("unexpected {:?}", other),
    }
}

/// A whole run in normal mode that measures a point on the screen.
fn sample(driver: &mut Xpt2046, point: Point, is_low: bool) {
    assert!(matches!(
        run(driver, RunEvent::Start),
        RunAction::Transfer { .. }
    ));
    assert!(matches!(
        run(
            driver,
            RunEvent::Transferred {
                rx: [0; 5],
                outcome: Ok(())
            }
        ),
        RunAction::Compensate { .. }
    ));
    match run(driver, RunEvent::Compensated { point }) {
        RunAction::ReadLevel { point: carried } => assert_eq!(carried, point),
        other => panic!("unexpected {:?}", other),
    }
    assert!(matches!(
        run(
            driver,
            RunEvent::LevelRead {
                point,
                is_low: Ok(is_low)
            }
        ),
        RunAction::Finished(Ok(()))
    ));
}

fn touched_driver(point: Point) -> Xpt2046 {
    let mut driver = Xpt2046::new(Orientation::Portrait);
    assert!(wait(&mut driver, Ok(())).is_ok());
    sample(&mut driver, point, true);
    driver
}

fn initialised_driver() -> Xpt2046 {
    let mut driver = Xpt2046::new(Orientation::Portrait);
    init(&mut driver, InitEvent::Start);
    init(
        &mut driver,
        InitEvent::Transferred {
            rx: [0; 5],
            outcome: Ok(()),
        },
    );
    init(&mut driver, InitEvent::Delayed);
    driver
}

fn next_transfer(driver: &mut Xpt2046) -> [u8; 5] {
    match run(driver, RunEvent::Start) {
        RunAction::Transfer { tx, .. } => tx,
        other => panic!("unexpected {:?}", other),
    }
}

#[test]
fn empty_buffer_averages_to_the_origin() {
    assert_eq!(TouchSamples::default().average(), Point::zero());
}

#[test]
fn new_driver_is_not_touched() {
    let driver = Xpt2046::new(Orientation::Landscape);
    assert!(!driver.is_touched());
    assert_eq!(driver.get_touch_point(), Point::new(0, 0));
}

#[test]
fn init_resets_waits_and_loads_the_channels() {
    let mut driver = Xpt2046::new(Orientation::Portrait);
    match init(&mut driver, InitEvent::Start) {
        InitAction::Transfer { tx, rx } => {
            assert_eq!(tx, [0x80, 0, 0, 0, 0]);
            assert_eq!(rx, [0; 5]);
        }
        other => panic!("unexpected {:?}", other),
    }
    let received = InitEvent::Transferred {
        rx: [9, 8, 7, 6, 5],
        outcome: Ok(()),
    };
    assert!(matches!(
        init(&mut driver, received),
        InitAction::DelayMs(1)
    ));
    assert!(matches!(
        init(&mut driver, InitEvent::Delayed),
        InitAction::Finished(Ok(()))
    ));
    driver.clear_touch();
    match run(&mut driver, RunEvent::Start) {
        RunAction::Transfer { tx, rx } => {
            assert_eq!(tx, [0x12, 0x00, 0x1a, 0x00, 0x00]);
            assert_eq!(rx, [9, 8, 7, 6, 5]);
        }
        other => panic!("unexpected {:?}", other),
    }
}

#[test]
fn init_reports_a_failed_transfer() {
    let mut driver = Xpt2046::new(Orientation::Portrait);
    init(&mut driver, InitEvent::Start);
    let failed = InitEvent::Transferred {
        rx: [0; 5],
        outcome: Err("nack"),
    };
    assert!(matches!(
        init(&mut driver, failed),
        InitAction::Finished(Err(Error::Bus(BusError::Spi("nack"))))
    ));
    driver.clear_touch();
    assert_eq!(next_transfer(&mut driver), [0x80, 0, 0, 0, 0]);
}

#[test]
fn repeated_init_resets_in_front_of_the_frame() {
    let mut driver = initialised_driver();
    match init(&mut driver, InitEvent::Start) {
        InitAction::Transfer { tx, .. } => assert_eq!(tx, [0x80, 0x00, 0x1a, 0x00, 0x00]),
        other => panic!("unexpected {:?}", other),
    }
    init(&mut driver, InitEvent::Delayed);
    driver.clear_touch();
    assert_eq!(next_transfer(&mut driver), [0x12, 0x00, 0x1a, 0x00, 0x00]);
}

#[test]
fn every_read_sends_the_same_frame() {
    let mut driver = initialised_driver();
    assert!(wait(&mut driver, Ok(())).is_ok());
    for is_low in [true, true, false, false] {
        assert_eq!(next_transfer(&mut driver), [0x12, 0x00, 0x1a, 0x00, 0x00]);
        sample(&mut driver, Point::new(3, 4), is_low);
    }
    assert!(matches!(
        run(&mut driver, RunEvent::Start),
        RunAction::AwaitLow
    ));
}

#[test]
fn failed_wait_keeps_waiting() {
    let mut driver = Xpt2046::new(Orientation::Portrait);
    assert!(matches!(
        wait(&mut driver, Err(7)),
        Err(Error::Bus(BusError::Pin(7)))
    ));
    assert!(wait(&mut driver, Ok(())).is_ok());
}

#[test]
fn measurement_is_big_endian() {
    let mut driver = touched_driver(Point::new(0, 0));
    let received = RunEvent::Transferred {
        rx: [0xff, 0x01, 0x02, 0xab, 0xcd],
        outcome: Ok(()),
    };
    match run(&mut driver, received) {
        RunAction::Compensate { raw, data } => {
            assert_eq!(raw, Point::new(0x0102, 0xabcd));
            assert_eq!(data, Orientation::Portrait.calibration_data());
        }
        other => panic!("unexpected {:?}", other),
    }
}

#[test]
fn largest_measurement_is_positive() {
    let mut driver = touched_driver(Point::new(0, 0));
    let received = RunEvent::Transferred {
        rx: [0; 5].map(|_: u8| 0xff),
        outcome: Ok(()),
    };
    match run(&mut driver, received) {
        RunAction::Compensate { raw, .. } => assert_eq!(raw, Point::new(65535, 65535)),
        other => panic!("unexpected {:?}", other),
    }
}

#[test]
fn touch_is_reported_by_the_second_run() {
    let mut driver = Xpt2046::new(Orientation::Portrait);
    assert!(wait(&mut driver, Ok(())).is_ok());
    assert!(!driver.is_touched());
    sample(&mut driver, Point::new(100, 61), true);
    assert!(driver.is_touched());
    assert_eq!(driver.get_touch_point(), Point::new(50, 30));
}

#[test]
fn touch_gone_before_the_first_sample_is_still_reported() {
    let mut driver = Xpt2046::new(Orientation::Portrait);
    assert!(wait(&mut driver, Ok(())).is_ok());
    sample(&mut driver, Point::new(8, 6), false);
    assert!(driver.is_touched());
    assert_eq!(driver.get_touch_point(), Point::new(4, 3));
}

#[test]
fn touch_point_is_rounded_towards_zero() {
    let driver = touched_driver(Point::new(-7, 7));
    assert_eq!(driver.get_touch_point(), Point::new(-3, 3));
    let driver = touched_driver(Point::new(i32::MIN, i32::MAX));
    assert_eq!(
        driver.get_touch_point(),
        Point::new(-1_073_741_824, 1_073_741_823)
    );
}

#[test]
fn lasting_touch_follows_the_last_sample() {
    let mut driver = touched_driver(Point::new(2, 2));
    for x in [10, 20, 30] {
        sample(&mut driver, Point::new(x, 4), true);
        assert!(driver.is_touched());
        assert_eq!(driver.get_touch_point(), Point::new(x / 2, 2));
    }
}

#[test]
fn released_touch_goes_back_to_waiting() {
    let mut driver = touched_driver(Point::new(2, 2));
    sample(&mut driver, Point::new(40, 50), false);
    assert!(!driver.is_touched());
    assert_eq!(driver.get_touch_point(), Point::new(20, 25));
    sample(&mut driver, Point::new(90, 90), true);
    assert!(!driver.is_touched());
    assert_eq!(driver.get_touch_point(), Point::new(20, 25));
    assert!(wait(&mut driver, Ok(())).is_ok());
}

#[test]
fn failed_transfer_changes_nothing() {
    let mut driver = touched_driver(Point::new(12, 14));
    run(&mut driver, RunEvent::Start);
    let failed = RunEvent::Transferred {
        rx: [1, 2, 3, 4, 5],
        outcome: Err("lost"),
    };
    assert!(matches!(
        run(&mut driver, failed),
        RunAction::Finished(Err(Error::Bus(BusError::Spi("lost"))))
    ));
    assert!(driver.is_touched());
    assert_eq!(driver.get_touch_point(), Point::new(6, 7));
    match run(&mut driver, RunEvent::Start) {
        RunAction::Transfer { rx, .. } => assert_eq!(rx, [1, 2, 3, 4, 5]),
        other => panic!("unexpected {:?}", other),
    }
}

#[test]
fn failed_level_changes_nothing() {
    let mut driver = touched_driver(Point::new(12, 14));
    let failed = RunEvent::LevelRead {
        point: Point::new(99, 99),
        is_low: Err(3),
    };
    assert!(matches!(
        run(&mut driver, failed),
        RunAction::Finished(Err(Error::Bus(BusError::Pin(3))))
    ));
    assert!(driver.is_touched());
    assert_eq!(driver.get_touch_point(), Point::new(6, 7));
}

#[test]
fn cleared_touch_is_reported_again_by_the_next_run() {
    let mut driver = touched_driver(Point::new(12, 14));
    driver.clear_touch();
    assert!(!driver.is_touched());
    assert_eq!(driver.get_touch_point(), Point::new(6, 7));
    sample(&mut driver, Point::new(20, 22), true);
    assert!(driver.is_touched());
    assert_eq!(driver.get_touch_point(), Point::new(10, 11));
}
