//! Manual calibration.
//!
//! A calibration shows three targets one after the other, measures where the
//! screen is touched for each, and has new coefficients computed from that.

use vstd::prelude::*;

use crate::calibration::CalibrationData;
use crate::calibration::CalibrationPoint;
use crate::driver::DriverModel;
use crate::driver::TouchScreenOperationMode;
use crate::driver::TouchScreenState;
use crate::driver::Xpt2046;
use crate::driver::half_way;
use crate::error::BusError;
use crate::error::Error;
use crate::geometry::Point;
use crate::geometry::origin;

verus! {

/// How often a failed computation is followed by a new attempt.
pub const CALIBRATION_RETRIES: u8 = 3;

/// Pause after a target has been touched, in milliseconds.
pub const TARGET_DELAY_MS: u32 = 200;

/// Number of targets, and so the count at which the computation is due.
pub const TARGET_COUNT: u8 = 3;

/// A colour to fill the screen with.
#[derive(Debug, Clone, Copy, PartialEq, Eq, Structural)]
pub enum ScreenColor {
    Black,
    White,
}

/// The occasions on which a calibration clears the screen.
#[derive(Debug, Clone, Copy, PartialEq, Eq, Structural)]
pub enum ClearOccasion {
    /// Before the first target is shown
    Beginning,
    /// After a failed computation, before a new attempt
    Retry,
    /// After the computation has succeeded
    End,
}

/// What a calibration in progress remembers.
#[derive(Debug, Clone, Copy, PartialEq, Eq, Structural)]
pub struct CalibrationSession {
    /// How many targets have been dealt with in this attempt; one more than
    /// there are targets once the computation has succeeded
    pub calibration_count: u8,
    /// How many more attempts there may be
    pub retry: u8,
    /// Where the screen was touched for each target
    pub measured: CalibrationPoint,
    /// The targets
    pub targets: CalibrationPoint,
    /// Whether a run has been made since the calibration started
    pub ran: bool,
    /// Whether a touch has been noted for the target that is up
    pub touched: bool,
}

/// What has happened in the course of a calibration.
#[derive(Debug)]
pub enum CalibrateEvent<SPIError, CSError, C> {
    /// Nothing yet.
    Start,
    /// The screen has been cleared. `occasion` is that of the action.
    ScreenCleared { occasion: ClearOccasion },
    /// The target has been drawn.
    TargetDrawn,
    /// The delay is over.
    Delayed,
    /// New coefficients, or why there are none.
    Calculated(Result<CalibrationData, C>),
    /// A whole run has been made, from its start to its result.
    Ran(Result<(), Error<BusError<SPIError, CSError>, C>>),
}

/// What a calibration needs next.
#[derive(Debug)]
pub enum CalibrateAction<SPIError, CSError, C> {
    /// Fill the screen with a colour. Failure is of no consequence.
    ClearScreen { color: ScreenColor, occasion: ClearOccasion },
    /// Draw a target.
    DrawTarget { target: Point },
    /// Wait at least this many milliseconds.
    DelayMs(u32),
    /// Compute coefficients that take the measured points to the targets.
    Calculate { targets: CalibrationPoint, measured: CalibrationPoint },
    /// Make a whole run of the driver.
    Run,
    /// Nothing: this is the result.
    Finished(Result<CalibrationData, Error<BusError<SPIError, CSError>, C>>),
}

/// What a calibration remembers at its start.
pub open spec fn fresh_session(driver: DriverModel) -> CalibrationSession {
    CalibrationSession {
        calibration_count: 0,
        retry: CALIBRATION_RETRIES,
        measured: CalibrationPoint { a: origin(), b: origin(), c: origin() },
        targets: driver.point,
        ran: false,
        touched: false,
    }
}

/// The target that is up after `count` others.
pub open spec fn target(points: CalibrationPoint, count: u8) -> Point {
    if count == 0 {
        points.a
    } else if count == 1 {
        points.b
    } else {
        points.c
    }
}

/// The points with the one that is up after `count` others replaced.
pub open spec fn with_target(points: CalibrationPoint, count: u8, point: Point) -> CalibrationPoint {
    if count == 0 {
        CalibrationPoint { a: point, ..points }
    } else if count == 1 {
        CalibrationPoint { b: point, ..points }
    } else {
        CalibrationPoint { c: point, ..points }
    }
}

/// How a round of a calibration begins: it draws the target that is up, or,
/// with all targets dealt with, adopts the measured points as the targets of
/// the next calibration and has the coefficients computed.
pub open spec fn round_begun<SPIError, CSError, C>(
    before: DriverModel,
    session: CalibrationSession,
) -> (DriverModel, CalibrateAction<SPIError, CSError, C>) {
    if session.calibration_count < TARGET_COUNT {
        (
            before,
            CalibrateAction::DrawTarget {
                target: target(session.targets, session.calibration_count),
            },
        )
    } else if session.calibration_count == TARGET_COUNT {
        (
            DriverModel { point: session.measured, ..before },
            CalibrateAction::Calculate { targets: session.targets, measured: session.measured },
        )
    } else {
        (
            before,
            CalibrateAction::ClearScreen { color: ScreenColor::White, occasion: ClearOccasion::End },
        )
    }
}

/// What a calibration remembers once it has looked at a target's touch: the
/// touch point while the touch lasts, and at its release that the target is
/// dealt with.
///
/// Only readings of the calibration itself count. Before its first run there
/// are none, and the release of a touch of which there is no reading is none
/// of the target.
pub open spec fn touch_noted(before: DriverModel, session: CalibrationSession) -> CalibrationSession {
    if session.calibration_count >= TARGET_COUNT || !session.ran {
        session
    } else if before.state is TOUCHED {
        CalibrationSession {
            measured: with_target(
                session.measured,
                session.calibration_count,
                half_way(before.sample),
            ),
            touched: true,
            ..session
        }
    } else if before.state is RELEASED && session.touched {
        CalibrationSession {
            calibration_count: (session.calibration_count + 1) as u8,
            touched: false,
            ..session
        }
    } else {
        session
    }
}

/// A step of a calibration: the driver and the session after it, and the next
/// action.
pub open spec fn calibrate_step<SPIError, CSError, C>(
    before: DriverModel,
    session: CalibrationSession,
    event: CalibrateEvent<SPIError, CSError, C>,
) -> (DriverModel, CalibrationSession, CalibrateAction<SPIError, CSError, C>) {
    match event {
        CalibrateEvent::Start => (
            before,
            session,
            CalibrateAction::ClearScreen {
                color: ScreenColor::Black,
                occasion: ClearOccasion::Beginning,
            },
        ),
        CalibrateEvent::ScreenCleared { occasion: ClearOccasion::Beginning } => {
            let (after, action) = round_begun::<SPIError, CSError, C>(
                DriverModel { mode: TouchScreenOperationMode::CALIBRATION, ..before },
                session,
            );
            (after, session, action)
        },
        CalibrateEvent::ScreenCleared { occasion: ClearOccasion::Retry } => (
            before,
            session,
            CalibrateAction::Run,
        ),
        CalibrateEvent::ScreenCleared { occasion: ClearOccasion::End } => (
            DriverModel { mode: TouchScreenOperationMode::NORMAL, ..before },
            session,
            CalibrateAction::Finished(Ok(before.data)),
        ),
        CalibrateEvent::TargetDrawn => {
            let noted = touch_noted(before, session);
            (
                before,
                noted,
                if noted.calibration_count != session.calibration_count {
                    CalibrateAction::DelayMs(TARGET_DELAY_MS)
                } else {
                    CalibrateAction::Run
                },
            )
        },
        CalibrateEvent::Delayed => (before, session, CalibrateAction::Run),
        CalibrateEvent::Calculated(Ok(data)) => (
            DriverModel { data, ..before },
            CalibrationSession { calibration_count: (TARGET_COUNT + 1) as u8, ..session },
            CalibrateAction::ClearScreen { color: ScreenColor::White, occasion: ClearOccasion::End },
        ),
        CalibrateEvent::Calculated(Err(e)) => if session.retry == 0 {
            (before, session, CalibrateAction::Finished(Err(Error::Calibration(e))))
        } else {
            (
                before,
                CalibrationSession {
                    calibration_count: 0,
                    retry: (session.retry - 1) as u8,
                    touched: false,
                    ..session
                },
                CalibrateAction::ClearScreen {
                    color: ScreenColor::Black,
                    occasion: ClearOccasion::Retry,
                },
            )
        },
        CalibrateEvent::Ran(Ok(())) => {
            let session = CalibrationSession { ran: true, ..session };
            let (after, action) = round_begun::<SPIError, CSError, C>(before, session);
            (after, session, action)
        },
        CalibrateEvent::Ran(Err(e)) => (before, session, CalibrateAction::Finished(Err(e))),
    }
}

impl Xpt2046 {
    /// What a calibration that starts now has to remember.
    pub fn start_calibration(&self) -> (session: CalibrationSession)
        ensures
            session == fresh_session(self@),
    {
        CalibrationSession {
            calibration_count: 0,
            retry: CALIBRATION_RETRIES,
            measured: CalibrationPoint { a: Point::zero(), b: Point::zero(), c: Point::zero() },
            targets: self.calibration_point,
            ran: false,
            touched: false,
        }
    }

    fn begin_round<SPIError, CSError, C>(&mut self, session: &CalibrationSession) -> (action:
        CalibrateAction<SPIError, CSError, C>)
        requires
            old(self).wf(),
        ensures
            final(self).wf(),
            (final(self)@, action) == round_begun::<SPIError, CSError, C>(old(self)@, *session),
    {
        match session.calibration_count {
            0 => CalibrateAction::DrawTarget { target: session.targets.a },
            1 => CalibrateAction::DrawTarget { target: session.targets.b },
            2 => CalibrateAction::DrawTarget { target: session.targets.c },
            3 => {
                // Create new calibration point from the captured samples
                // and then re-calculate calibration
                self.calibration_point = session.measured;
                CalibrateAction::Calculate { targets: session.targets, measured: session.measured }
            },
            _ => CalibrateAction::ClearScreen {
                color: ScreenColor::White,
                occasion: ClearOccasion::End,
            },
        }
    }

    /// Collects the reading for 3 sample points and
    /// calculates a set of calibration data. The default calibration data seem
    /// to work ok but if for some reason touch screen needs to be recalibrated
    /// then look no further.
    /// This should be run after the initialisation.
    pub fn calibrate<SPIError, CSError, C>(
        &mut self,
        session: &mut CalibrationSession,
        event: CalibrateEvent<SPIError, CSError, C>,
    ) -> (action: CalibrateAction<SPIError, CSError, C>)
        requires
            old(self).wf(),
        ensures
            final(self).wf(),
            (final(self)@, *final(session), action) == calibrate_step::<SPIError, CSError, C>(
                old(self)@,
                *old(session),
                event,
            ),
    {
        match event {
            // Prepare the screen for points
            CalibrateEvent::Start => CalibrateAction::ClearScreen {
                color: ScreenColor::Black,
                occasion: ClearOccasion::Beginning,
            },
            CalibrateEvent::ScreenCleared { occasion: ClearOccasion::Beginning } => {
                // Set correct state to fetch raw data from touch controller
                self.operation_mode = TouchScreenOperationMode::CALIBRATION;
                self.begin_round(session)
            },
            CalibrateEvent::ScreenCleared { occasion: ClearOccasion::Retry } => {
                CalibrateAction::Run
            },
            CalibrateEvent::ScreenCleared { occasion: ClearOccasion::End } => {
                self.operation_mode = TouchScreenOperationMode::NORMAL;
                CalibrateAction::Finished(Ok(self.calibration_data))
            },
            CalibrateEvent::TargetDrawn => {
                // Before the first run there is no reading of this calibration
                if session.calibration_count < TARGET_COUNT && session.ran {
                    if self.screen_state == TouchScreenState::TOUCHED {
                        let touched = self.get_touch_point();
                        match session.calibration_count {
                            0 => { session.measured.a = touched; },
                            1 => { session.measured.b = touched; },
                            _ => { session.measured.c = touched; },
                        }
                        session.touched = true;
                    }
                    if self.screen_state == TouchScreenState::RELEASED && session.touched {
                        session.calibration_count = session.calibration_count + 1;
                        session.touched = false;
                        return CalibrateAction::DelayMs(TARGET_DELAY_MS);
                    }
                }
                // The driver must run to capture user input, but only after drawing
                CalibrateAction::Run
            },
            CalibrateEvent::Delayed => CalibrateAction::Run,
            CalibrateEvent::Calculated(Ok(data)) => {
                self.calibration_data = data;
                session.calibration_count = TARGET_COUNT + 1;
                CalibrateAction::ClearScreen {
                    color: ScreenColor::White,
                    occasion: ClearOccasion::End,
                }
            },
            CalibrateEvent::Calculated(Err(e)) => {
                // We have problem calculating new values
                if session.retry == 0 {
                    return CalibrateAction::Finished(Err(Error::Calibration(e)));
                }
                // If our calculation failed let's retry
                session.retry = session.retry - 1;
                session.calibration_count = 0;
                session.touched = false;
                CalibrateAction::ClearScreen {
                    color: ScreenColor::Black,
                    occasion: ClearOccasion::Retry,
                }
            },
            CalibrateEvent::Ran(Ok(())) => {
                session.ran = true;
                self.begin_round(session)
            },
            CalibrateEvent::Ran(Err(e)) => CalibrateAction::Finished(Err(e)),
        }
    }
}

} // verus!
