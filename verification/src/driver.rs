//! The driver: its state and the steps of its operations.
//!
//! `init`, `run` and `calibrate` each take an event, update the driver and
//! return the next action. A caller begins with the `Start` event, performs
//! the returned action, reports it with the event of the same kind, and goes
//! on until the action is `Finished`.

pub mod calibrate;

use vstd::prelude::*;

use crate::calibration::CalibrationData;
use crate::calibration::CalibrationPoint;
use crate::error::BusError;
use crate::error::Error;
use crate::geometry::Point;
use crate::geometry::origin;
use crate::orientation::Orientation;
use crate::samples::TouchSamples;
use crate::samples::sum_x;
use crate::samples::sum_y;
use crate::samples::truncated_quotient;

verus! {

/// Control byte that selects the x channel.
pub const CHANNEL_SETTING_X: u8 = 0b1001_0000;

/// Control byte that selects the y channel.
pub const CHANNEL_SETTING_Y: u8 = 0b1101_0000;

/// Control byte that resets the controller.
pub const RESET_COMMAND: u8 = 0x80;

/// Length of the transmit and receive buffers.
pub const TX_BUFF_LEN: usize = 5;

/// How long the controller gets to settle after the reset, in milliseconds.
pub const RESET_DELAY_MS: u32 = 1;

/// Current state of the driver
#[derive(PartialEq, Eq, Debug, Structural)]
pub enum TouchScreenState {
    /// Driver waits for touch
    IDLE,
    /// Driver debounces the touch
    PRESAMPLING,
    /// Confirmed touch
    TOUCHED,
    /// Touch released
    RELEASED,
}

/// How measurements are treated
#[derive(Debug, PartialEq, Eq, Structural)]
pub enum TouchScreenOperationMode {
    /// Normal touch reading
    NORMAL,
    /// Manual calibration mode
    CALIBRATION,
}

/// What has happened in the course of an initialisation.
#[derive(Debug)]
pub enum InitEvent<SPIError> {
    /// Nothing yet.
    Start,
    /// The transfer has ended and left these bytes in the receive buffer.
    Transferred { rx: [u8; TX_BUFF_LEN], outcome: Result<(), SPIError> },
    /// The delay is over.
    Delayed,
}

/// What an initialisation needs next.
#[derive(Debug)]
pub enum InitAction<SPIError, CSError, C> {
    /// Send `tx` over SPI and receive as many bytes into `rx`.
    Transfer { tx: [u8; TX_BUFF_LEN], rx: [u8; TX_BUFF_LEN] },
    /// Wait at least this many milliseconds.
    DelayMs(u32),
    /// Nothing: this is the result.
    Finished(Result<(), Error<BusError<SPIError, CSError>, C>>),
}

/// What has happened in the course of a run.
#[derive(Debug)]
pub enum RunEvent<SPIError, CSError> {
    /// Nothing yet.
    Start,
    /// The interrupt pin went low, or waiting for that failed.
    LowAwaited(Result<(), CSError>),
    /// The transfer has ended and left these bytes in the receive buffer.
    Transferred { rx: [u8; TX_BUFF_LEN], outcome: Result<(), SPIError> },
    /// The raw measurement, turned into a point on the screen.
    Compensated { point: Point },
    /// Whether the interrupt pin is low. `point` is that of the action.
    LevelRead { point: Point, is_low: Result<bool, CSError> },
}

/// What a run needs next.
#[derive(Debug)]
pub enum RunAction<SPIError, CSError, C> {
    /// Wait until the interrupt pin is low.
    AwaitLow,
    /// Send `tx` over SPI and receive as many bytes into `rx`.
    Transfer { tx: [u8; TX_BUFF_LEN], rx: [u8; TX_BUFF_LEN] },
    /// Turn the raw measurement into a point on the screen.
    Compensate { raw: Point, data: CalibrationData },
    /// Read whether the interrupt pin is low.
    ReadLevel { point: Point },
    /// Nothing: this is the result.
    Finished(Result<(), Error<BusError<SPIError, CSError>, C>>),
}

/// What the driver holds, as a mathematical value.
pub struct DriverModel {
    /// The bytes that the next transfer sends
    pub tx: [u8; TX_BUFF_LEN],
    /// The bytes that the last transfer left behind
    pub rx: [u8; TX_BUFF_LEN],
    /// Where the driver is in the course of a touch
    pub state: TouchScreenState,
    /// The sample captured last, or the origin
    pub sample: Point,
    /// The coefficients in use
    pub data: CalibrationData,
    /// How measurements are treated
    pub mode: TouchScreenOperationMode,
    /// The targets of the next calibration
    pub point: CalibrationPoint,
}

/// The driver of one touch controller.
#[derive(Debug)]
pub struct Xpt2046 {
    /// Internal buffer for tx
    tx_buff: [u8; TX_BUFF_LEN],
    /// Internal buffer for rx
    rx_buff: [u8; TX_BUFF_LEN],
    /// Current driver state
    screen_state: TouchScreenState,
    /// Buffer for the touch data samples
    ts: TouchSamples,
    calibration_data: CalibrationData,
    operation_mode: TouchScreenOperationMode,
    /// Location of the touch points used for
    /// performing manual calibration
    calibration_point: CalibrationPoint,
}

impl View for Xpt2046 {
    type V = DriverModel;

    closed spec fn view(&self) -> DriverModel {
        DriverModel {
            tx: self.tx_buff,
            rx: self.rx_buff,
            state: self.screen_state,
            sample: self.ts@[0],
            data: self.calibration_data,
            mode: self.operation_mode,
            point: self.calibration_point,
        }
    }
}

/// The measurement in a receive buffer: two coordinates of two bytes each, the
/// high byte first, after one byte without meaning.
pub open spec fn raw_point(rx: [u8; TX_BUFF_LEN]) -> Point {
    Point { x: (rx[1] * 256 + rx[2]) as i32, y: (rx[3] * 256 + rx[4]) as i32 }
}

/// A transmit buffer that asks for both coordinates: each control byte leads
/// a word of two bytes, the high byte first, in which it stands three bits
/// below the top.
pub open spec fn is_channel_frame(tx: [u8; TX_BUFF_LEN]) -> bool {
    &&& tx[0] * 256 + tx[1] == CHANNEL_SETTING_X * 32
    &&& tx[2] * 256 + tx[3] == CHANNEL_SETTING_Y * 32
    &&& tx[4] == 0
}

/// The point half way between the origin and a sample, each coordinate
/// rounded towards zero.
pub open spec fn half_way(sample: Point) -> Point {
    Point {
        x: truncated_quotient(sample.x as int, 2) as i32,
        y: truncated_quotient(sample.y as int, 2) as i32,
    }
}

/// How a sample and the level of the interrupt pin move the driver along.
///
/// A touch is confirmed by the first sample. While it lasts every sample
/// replaces the one before. It ends with the sample at which the pin is no
/// longer low, and the run after that goes back to waiting.
pub open spec fn advanced(before: DriverModel, point: Point, is_low: bool) -> DriverModel {
    match before.state {
        TouchScreenState::IDLE => before,
        TouchScreenState::PRESAMPLING => DriverModel {
            state: TouchScreenState::TOUCHED,
            sample: point,
            ..before
        },
        TouchScreenState::TOUCHED => DriverModel {
            state: if is_low {
                TouchScreenState::TOUCHED
            } else {
                TouchScreenState::RELEASED
            },
            sample: point,
            ..before
        },
        TouchScreenState::RELEASED => DriverModel { state: TouchScreenState::IDLE, ..before },
    }
}

/// What a transfer means for the operation it is part of.
pub open spec fn transfer_result<SPIError, CSError, C>(
    outcome: Result<(), SPIError>,
) -> Result<(), Error<BusError<SPIError, CSError>, C>> {
    match outcome {
        Ok(()) => Ok(()),
        Err(e) => Err(Error::Bus(BusError::Spi(e))),
    }
}

/// A step of a run: the driver after it and the next action.
pub open spec fn run_step<SPIError, CSError, C>(
    before: DriverModel,
    event: RunEvent<SPIError, CSError>,
) -> (DriverModel, RunAction<SPIError, CSError, C>) {
    match event {
        RunEvent::Start => if before.state is IDLE {
            (before, RunAction::AwaitLow)
        } else {
            (before, RunAction::Transfer { tx: before.tx, rx: before.rx })
        },
        RunEvent::LowAwaited(Ok(())) => (
            DriverModel { state: TouchScreenState::PRESAMPLING, ..before },
            RunAction::Finished(Ok(())),
        ),
        RunEvent::LowAwaited(Err(e)) => (
            before,
            RunAction::Finished(Err(Error::Bus(BusError::Pin(e)))),
        ),
        RunEvent::Transferred { rx, outcome: Ok(()) } => (
            DriverModel { rx, ..before },
            match before.mode {
                TouchScreenOperationMode::NORMAL => RunAction::Compensate {
                    raw: raw_point(rx),
                    data: before.data,
                },
                TouchScreenOperationMode::CALIBRATION => RunAction::ReadLevel {
                    point: raw_point(rx),
                },
            },
        ),
        RunEvent::Transferred { rx, outcome: Err(e) } => (
            DriverModel { rx, ..before },
            RunAction::Finished(Err(Error::Bus(BusError::Spi(e)))),
        ),
        RunEvent::Compensated { point } => (before, RunAction::ReadLevel { point }),
        RunEvent::LevelRead { point, is_low: Ok(is_low) } => (
            advanced(before, point, is_low),
            RunAction::Finished(Ok(())),
        ),
        RunEvent::LevelRead { point, is_low: Err(e) } => (
            before,
            RunAction::Finished(Err(Error::Bus(BusError::Pin(e)))),
        ),
    }
}

impl Xpt2046 {
    /// The sample buffer is well formed.
    pub closed spec fn wf(&self) -> bool {
        self.ts.wf()
    }

    /// A driver that waits for a touch, with the calibration of the given
    /// orientation.
    pub fn new(orientation: Orientation) -> (driver: Self)
        ensures
            driver.wf(),
            driver@.tx@ == Seq::new(TX_BUFF_LEN as nat, |i: int| 0u8),
            driver@.rx@ == Seq::new(TX_BUFF_LEN as nat, |i: int| 0u8),
            driver@.state is IDLE,
            driver@.sample == origin(),
            driver@.data == orientation.default_data(),
            driver@.mode is NORMAL,
            driver@.point == orientation.default_point(),
    {
        Xpt2046 {
            tx_buff: [0; TX_BUFF_LEN],
            rx_buff: [0; TX_BUFF_LEN],
            screen_state: TouchScreenState::IDLE,
            ts: TouchSamples::default(),
            calibration_data: orientation.calibration_data(),
            operation_mode: TouchScreenOperationMode::NORMAL,
            calibration_point: orientation.calibration_point(),
        }
    }

    /// Takes over what a transfer has left in the receive buffer.
    fn spi_read<SPIError, CSError, C>(
        &mut self,
        rx: [u8; TX_BUFF_LEN],
        outcome: Result<(), SPIError>,
    ) -> (result: Result<(), Error<BusError<SPIError, CSError>, C>>)
        ensures
            final(self)@ == (DriverModel { rx, ..old(self)@ }),
            final(self).wf() == old(self).wf(),
            result == transfer_result::<SPIError, CSError, C>(outcome),
    {
        self.rx_buff = rx;
        match outcome {
            Ok(()) => Ok(()),
            Err(e) => Err(Error::Bus(BusError::Spi(e))),
        }
    }

    /// Read raw values from the receive buffer
    fn read_xy(&self) -> (point: Point)
        ensures
            point == raw_point(self@.rx),
    {
        let x_high: u8 = self.rx_buff[1];
        let x_low: u8 = self.rx_buff[2];
        let y_high: u8 = self.rx_buff[3];
        let y_low: u8 = self.rx_buff[4];
        assert(((x_high as i32) << 8) | (x_low as i32) == x_high * 256 + x_low) by (bit_vector);
        assert(((y_high as i32) << 8) | (y_low as i32) == y_high * 256 + y_low) by (bit_vector);
        let x: i32 = ((x_high as i32) << 8) | x_low as i32;
        let y: i32 = ((y_high as i32) << 8) | y_low as i32;
        Point::new(x, y)
    }

    /// Goes on from a transfer to the point of touch: the raw measurement
    /// itself while a calibration is running, and otherwise what the
    /// coefficients make of it.
    fn read_touch_point<SPIError, CSError, C>(
        &mut self,
        rx: [u8; TX_BUFF_LEN],
        outcome: Result<(), SPIError>,
    ) -> (action: RunAction<SPIError, CSError, C>)
        ensures
            (final(self)@, action) == run_step::<SPIError, CSError, C>(
                old(self)@,
                RunEvent::Transferred { rx, outcome },
            ),
            final(self).wf() == old(self).wf(),
    {
        match self.spi_read::<SPIError, CSError, C>(rx, outcome) {
            Err(e) => RunAction::Finished(Err(e)),
            Ok(()) => {
                let raw = self.read_xy();
                match self.operation_mode {
                    TouchScreenOperationMode::NORMAL => RunAction::Compensate {
                        raw,
                        data: self.calibration_data,
                    },
                    // A calibration works on the measurements themselves.
                    TouchScreenOperationMode::CALIBRATION => RunAction::ReadLevel { point: raw },
                }
            },
        }
    }

    /// Get the actual touch point: the mean of the sample buffer, whose last
    /// slot holds the origin.
    pub fn get_touch_point(&self) -> (point: Point)
        requires
            self.wf(),
        ensures
            point == half_way(self@.sample),
    {
        proof {
            let all = self.ts@;
            assert(all.drop_last().drop_last() =~= Seq::<Point>::empty());
            reveal_with_fuel(sum_x, 3);
            reveal_with_fuel(sum_y, 3);
        }
        self.ts.average()
    }

    /// Check if the display is currently touched
    pub fn is_touched(&self) -> (touched: bool)
        ensures
            touched == (self@.state is TOUCHED),
    {
        self.screen_state == TouchScreenState::TOUCHED
    }

    /// Sometimes the TOUCHED state needs to be cleared
    pub fn clear_touch(&mut self)
        requires
            old(self).wf(),
        ensures
            final(self).wf(),
            final(self)@ == (DriverModel { state: TouchScreenState::PRESAMPLING, ..old(self)@ }),
    {
        self.screen_state = TouchScreenState::PRESAMPLING;
    }

    /// Reset the driver and preload tx buffer with register data.
    pub fn init<SPIError, CSError, C>(&mut self, event: InitEvent<SPIError>) -> (action: InitAction<
        SPIError,
        CSError,
        C,
    >)
        requires
            old(self).wf(),
        ensures
            final(self).wf(),
            init_step(old(self)@, event, final(self)@, action),
    {
        match event {
            InitEvent::Start => {
                self.tx_buff[0] = RESET_COMMAND;
                InitAction::Transfer { tx: self.tx_buff, rx: self.rx_buff }
            },
            InitEvent::Transferred { rx, outcome } => {
                match self.spi_read::<SPIError, CSError, C>(rx, outcome) {
                    Err(e) => InitAction::Finished(Err(e)),
                    Ok(()) => InitAction::DelayMs(RESET_DELAY_MS),
                }
            },
            InitEvent::Delayed => {
                // Load the buffer with the channels config for all subsequent
                // reads. The byte shifting provides padding to align the read
                // bytes with the DCLK. XPT2046 datasheet figure 12
                assert(0b1001_0000u8 >> 3 == 0x12 && 0b1001_0000u8 << 5 == 0x00) by (bit_vector);
                assert(0b1101_0000u8 >> 3 == 0x1a && 0b1101_0000u8 << 5 == 0x00) by (bit_vector);
                self.tx_buff =
                [
                    CHANNEL_SETTING_X >> 3,
                    CHANNEL_SETTING_X << 5,
                    CHANNEL_SETTING_Y >> 3,
                    CHANNEL_SETTING_Y << 5,
                    0,
                ];
                InitAction::Finished(Ok(()))
            },
        }
    }

    /// Continually runs and collects the touch data from xpt2046.
    /// You should drive this either in some main loop or dedicated timer
    /// interrupt
    pub fn run<SPIError, CSError, C>(&mut self, event: RunEvent<SPIError, CSError>) -> (action:
        RunAction<SPIError, CSError, C>)
        requires
            old(self).wf(),
        ensures
            final(self).wf(),
            (final(self)@, action) == run_step::<SPIError, CSError, C>(old(self)@, event),
    {
        match event {
            RunEvent::Start => if self.screen_state == TouchScreenState::IDLE {
                RunAction::AwaitLow
            } else {
                RunAction::Transfer { tx: self.tx_buff, rx: self.rx_buff }
            },
            RunEvent::LowAwaited(Ok(())) => {
                self.screen_state = TouchScreenState::PRESAMPLING;
                RunAction::Finished(Ok(()))
            },
            RunEvent::LowAwaited(Err(e)) => RunAction::Finished(Err(Error::Bus(BusError::Pin(e)))),
            RunEvent::Transferred { rx, outcome } => self.read_touch_point(rx, outcome),
            RunEvent::Compensated { point } => RunAction::ReadLevel { point },
            RunEvent::LevelRead { point, is_low: Ok(is_low) } => {
                match self.screen_state {
                    // A waiting driver takes no samples.
                    TouchScreenState::IDLE => {},
                    TouchScreenState::PRESAMPLING => {
                        if !is_low {
                            self.screen_state = TouchScreenState::RELEASED;
                        }
                        if self.ts.capture(point) {
                            self.screen_state = TouchScreenState::TOUCHED;
                        }
                    },
                    TouchScreenState::TOUCHED => {
                        // The buffer wraps around if the screen is touched for
                        // longer time
                        self.ts.capture(point);
                        if !is_low {
                            self.screen_state = TouchScreenState::RELEASED;
                        }
                    },
                    TouchScreenState::RELEASED => {
                        self.screen_state = TouchScreenState::IDLE;
                        self.ts.rewind();
                    },
                }
                RunAction::Finished(Ok(()))
            },
            RunEvent::LevelRead { point: _, is_low: Err(e) } => RunAction::Finished(
                Err(Error::Bus(BusError::Pin(e))),
            ),
        }
    }
}

/// A step of an initialisation: how the driver after it and the next action
/// follow from the driver before it and the event.
pub open spec fn init_step<SPIError, CSError, C>(
    before: DriverModel,
    event: InitEvent<SPIError>,
    after: DriverModel,
    action: InitAction<SPIError, CSError, C>,
) -> bool {
    match event {
        InitEvent::Start => {
            &&& after.tx@ == before.tx@.update(0, RESET_COMMAND)
            &&& after == (DriverModel { tx: after.tx, ..before })
            &&& action == InitAction::<SPIError, CSError, C>::Transfer {
                tx: after.tx,
                rx: after.rx,
            }
        },
        InitEvent::Transferred { rx, outcome } => {
            &&& after == (DriverModel { rx, ..before })
            &&& action == (match outcome {
                Ok(()) => InitAction::<SPIError, CSError, C>::DelayMs(RESET_DELAY_MS),
                Err(e) => InitAction::Finished(Err(Error::Bus(BusError::Spi(e)))),
            })
        },
        InitEvent::Delayed => {
            &&& is_channel_frame(after.tx)
            &&& after == (DriverModel { tx: after.tx, ..before })
            &&& action == InitAction::<SPIError, CSError, C>::Finished(Ok(()))
        },
    }
}

} // verus!
