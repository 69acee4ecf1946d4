//! What each single step does with what it is given.
//!
//! The laws here speak of the bytes, points, states and numbers themselves.

use vstd::prelude::*;

use crate::calibration::CalibrationData;
use crate::calibration::CalibrationPoint;
use crate::driver::DriverModel;
use crate::driver::InitAction;
use crate::driver::InitEvent;
use crate::driver::RunAction;
use crate::driver::RunEvent;
use crate::driver::TX_BUFF_LEN;
use crate::driver::TouchScreenOperationMode;
use crate::driver::TouchScreenState;
use crate::driver::calibrate::CalibrateAction;
use crate::driver::calibrate::CalibrateEvent;
use crate::driver::calibrate::CalibrationSession;
use crate::driver::calibrate::ClearOccasion;
use crate::driver::calibrate::ScreenColor;
use crate::driver::calibrate::calibrate_step;
use crate::driver::calibrate::fresh_session;
use crate::driver::init_step;
use crate::driver::is_channel_frame;
use crate::driver::run_step;
use crate::error::BusError;
use crate::error::Error;
use crate::geometry::Point;

verus! {

/// A transmit buffer asks for both coordinates exactly if it holds these bytes.
pub proof fn channel_frame_has_these_bytes(tx: [u8; TX_BUFF_LEN])
    ensures
        is_channel_frame(tx) <==> tx@ == seq![0x12u8, 0x00, 0x1a, 0x00, 0x00],
{
    if is_channel_frame(tx) {
        assert(tx@ =~= seq![0x12u8, 0x00, 0x1a, 0x00, 0x00]);
    }
}

/// An initialisation begins with a transfer of the transmit buffer, in which
/// the first byte alone has become 0x80, into the receive buffer as it is.
pub proof fn initialisation_sends_the_reset<SPIError, CSError, C>(
    before: DriverModel,
    after: DriverModel,
    action: InitAction<SPIError, CSError, C>,
)
    requires
        init_step(before, InitEvent::<SPIError>::Start, after, action),
    ensures
        action matches InitAction::Transfer { tx, rx } && {
            &&& tx[0] == 0x80
            &&& tx[1] == before.tx[1]
            &&& tx[2] == before.tx[2]
            &&& tx[3] == before.tx[3]
            &&& tx[4] == before.tx[4]
            &&& rx == before.rx
            &&& after == (DriverModel { tx, ..before })
        },
{
}

/// After the reset an initialisation waits for one millisecond if the transfer
/// succeeded, and otherwise ends with its failure. It keeps what was received.
pub proof fn initialisation_waits_after_the_reset<SPIError, CSError, C>(
    before: DriverModel,
    rx: [u8; TX_BUFF_LEN],
    outcome: Result<(), SPIError>,
    after: DriverModel,
    action: InitAction<SPIError, CSError, C>,
)
    requires
        init_step(before, InitEvent::<SPIError>::Transferred { rx, outcome }, after, action),
    ensures
        after == (DriverModel { rx, ..before }),
        outcome is Ok ==> action == InitAction::<SPIError, CSError, C>::DelayMs(1),
        outcome matches Err(e) ==> action == InitAction::<SPIError, CSError, C>::Finished(
            Err(Error::Bus(BusError::Spi(e))),
        ),
{
}

/// After the delay an initialisation has succeeded. Of the driver nothing but
/// the transmit buffer changes, which then holds these bytes.
pub proof fn initialisation_ends_with_these_bytes<SPIError, CSError, C>(
    before: DriverModel,
    after: DriverModel,
    action: InitAction<SPIError, CSError, C>,
)
    requires
        init_step(before, InitEvent::<SPIError>::Delayed, after, action),
    ensures
        action == InitAction::<SPIError, CSError, C>::Finished(Ok(())),
        after.tx@ == seq![0x12u8, 0x00, 0x1a, 0x00, 0x00],
        after == (DriverModel { tx: after.tx, ..before }),
{
    channel_frame_has_these_bytes(after.tx);
}

/// A run begins with waiting for the pin exactly if the driver is idle, and
/// otherwise with a transfer of its buffers. The driver stays as it is.
pub proof fn run_begins_with_waiting_or_a_transfer<SPIError, CSError, C>(before: DriverModel)
    ensures
        ({
            let (after, action) = run_step::<SPIError, CSError, C>(before, RunEvent::Start);
            &&& after == before
            &&& before.state is IDLE ==> action is AwaitLow
            &&& !(before.state is IDLE) ==> action == RunAction::<SPIError, CSError, C>::Transfer {
                tx: before.tx,
                rx: before.rx,
            }
        }),
{
}

/// Waiting for the pin ends the run. The driver is ready to sample if it
/// succeeded, and otherwise stays as it is.
pub proof fn waiting_ends_the_run<SPIError, CSError, C>(
    before: DriverModel,
    outcome: Result<(), CSError>,
)
    ensures
        ({
            let (after, action) = run_step::<SPIError, CSError, C>(
                before,
                RunEvent::LowAwaited(outcome),
            );
            &&& outcome is Ok ==> {
                &&& after == (DriverModel { state: TouchScreenState::PRESAMPLING, ..before })
                &&& action == RunAction::<SPIError, CSError, C>::Finished(Ok(()))
            }
            &&& outcome matches Err(e) ==> {
                &&& after == before
                &&& action == RunAction::<SPIError, CSError, C>::Finished(
                    Err(Error::Bus(BusError::Pin(e))),
                )
            }
        }),
{
}

/// What a transfer has received is kept, and nothing else changes. If it
/// succeeded the measurement is x from bytes 1 and 2 and y from bytes 3 and 4.
/// In normal mode it is to be compensated with the coefficients in use, and in
/// calibration mode it is the point itself. A failure ends the run.
pub proof fn transfer_gives_the_measurement<SPIError, CSError, C>(
    before: DriverModel,
    rx: [u8; TX_BUFF_LEN],
    outcome: Result<(), SPIError>,
)
    ensures
        ({
            let (after, action) = run_step::<SPIError, CSError, C>(
                before,
                RunEvent::Transferred { rx, outcome },
            );
            &&& after == (DriverModel { rx, ..before })
            &&& outcome is Ok && before.mode is NORMAL ==> {
                action matches RunAction::Compensate { raw, data } && {
                    &&& raw.x == 256 * rx[1] + rx[2]
                    &&& raw.y == 256 * rx[3] + rx[4]
                    &&& data == before.data
                }
            }
            &&& outcome is Ok && before.mode is CALIBRATION ==> {
                action matches RunAction::ReadLevel { point } && {
                    &&& point.x == 256 * rx[1] + rx[2]
                    &&& point.y == 256 * rx[3] + rx[4]
                }
            }
            &&& outcome matches Err(e) ==> action == RunAction::<SPIError, CSError, C>::Finished(
                Err(Error::Bus(BusError::Spi(e))),
            )
        }),
{
}

/// A compensated point goes on to the reading of the pin unaltered.
pub proof fn compensated_point_is_passed_on<SPIError, CSError, C>(
    before: DriverModel,
    point: Point,
)
    ensures
        run_step::<SPIError, CSError, C>(before, RunEvent::Compensated { point }) == (
            before,
            RunAction::<SPIError, CSError, C>::ReadLevel { point },
        ),
{
}

/// Reading the pin ends the run. If it failed the driver stays as it is. If
/// not, a driver that is about to sample or reports a touch captures the point
/// and no other driver does. It reports a touch after the first sample, and
/// after each further one exactly if the pin is low. After a touch it is idle.
pub proof fn level_moves_the_driver_along<SPIError, CSError, C>(
    before: DriverModel,
    point: Point,
    is_low: Result<bool, CSError>,
)
    ensures
        ({
            let (after, action) = run_step::<SPIError, CSError, C>(
                before,
                RunEvent::LevelRead { point, is_low },
            );
            let sampling = before.state is PRESAMPLING || before.state is TOUCHED;
            &&& is_low matches Ok(low) ==> {
                &&& action == RunAction::<SPIError, CSError, C>::Finished(Ok(()))
                &&& after == (DriverModel { state: after.state, sample: after.sample, ..before })
                &&& sampling ==> after.sample == point
                &&& !sampling ==> after.sample == before.sample
                &&& after.state is TOUCHED <==> before.state is PRESAMPLING || (
                before.state is TOUCHED && low)
                &&& after.state is RELEASED <==> before.state is TOUCHED && !low
                &&& after.state is IDLE <==> before.state is RELEASED || before.state is IDLE
            }
            &&& is_low matches Err(e) ==> {
                &&& after == before
                &&& action == RunAction::<SPIError, CSError, C>::Finished(
                    Err(Error::Bus(BusError::Pin(e))),
                )
            }
        }),
{
}

/// A calibration starts with the targets of the driver, with nothing dealt
/// with, measured or noted, and with three retries.
pub proof fn calibration_starts_afresh(driver: DriverModel)
    ensures
        ({
            let session = fresh_session(driver);
            let zero = Point { x: 0, y: 0 };
            &&& session.calibration_count == 0
            &&& session.retry == 3
            &&& session.targets == driver.point
            &&& session.measured == (CalibrationPoint { a: zero, b: zero, c: zero })
            &&& !session.ran
            &&& !session.touched
        }),
{
}

/// The first action of a calibration is to make the screen black, and nothing
/// changes before that.
pub proof fn calibration_first_clears_the_screen<SPIError, CSError, C>(
    before: DriverModel,
    session: CalibrationSession,
)
    ensures
        calibrate_step::<SPIError, CSError, C>(before, session, CalibrateEvent::Start) == (
            before,
            session,
            CalibrateAction::<SPIError, CSError, C>::ClearScreen {
                color: ScreenColor::Black,
                occasion: ClearOccasion::Beginning,
            },
        ),
{
}

/// With the screen cleared a calibration takes the driver to calibration mode
/// and draws its first target. Nothing else changes.
pub proof fn first_target_is_drawn_first<SPIError, CSError, C>(
    before: DriverModel,
    session: CalibrationSession,
)
    requires
        session.calibration_count == 0,
    ensures
        calibrate_step::<SPIError, CSError, C>(
            before,
            session,
            CalibrateEvent::ScreenCleared { occasion: ClearOccasion::Beginning },
        ) == (
            DriverModel { mode: TouchScreenOperationMode::CALIBRATION, ..before },
            session,
            CalibrateAction::<SPIError, CSError, C>::DrawTarget { target: session.targets.a },
        ),
{
}

/// After a target has been drawn the next action is a run, or a delay of 200
/// milliseconds that is followed by a run. There is a delay exactly at the
/// release of a touch that was noted for the target, and exactly then the
/// target is dealt with. The driver stays as it is.
pub proof fn drawn_target_is_followed_by_a_run<SPIError, CSError, C>(
    before: DriverModel,
    session: CalibrationSession,
)
    ensures
        ({
            let (after, noted, action) = calibrate_step::<SPIError, CSError, C>(
                before,
                session,
                CalibrateEvent::TargetDrawn,
            );
            let released = session.calibration_count < 3 && session.ran && session.touched
                && before.state is RELEASED;
            &&& after == before
            &&& released ==> action == CalibrateAction::<SPIError, CSError, C>::DelayMs(200)
            &&& !released ==> action is Run
            &&& calibrate_step::<SPIError, CSError, C>(after, noted, CalibrateEvent::Delayed) == (
                before,
                noted,
                CalibrateAction::<SPIError, CSError, C>::Run,
            )
            &&& noted.calibration_count == session.calibration_count + (if released {
                1int
            } else {
                0
            })
        }),
{
}

/// After a target has been drawn its touch is noted exactly if there has been
/// a run and the driver reports a touch. It is noted as the touch point, which
/// is half the sample, for this target and no other. That a touch was noted is
/// forgotten when the target is dealt with. Nothing else is changed.
pub proof fn touch_is_noted_for_the_drawn_target<SPIError, CSError, C>(
    before: DriverModel,
    session: CalibrationSession,
)
    ensures
        ({
            let noted = calibrate_step::<SPIError, CSError, C>(
                before,
                session,
                CalibrateEvent::TargetDrawn,
            ).1;
            let up = session.calibration_count;
            let reading = up < 3 && session.ran && before.state is TOUCHED;
            let is_half = |whole: i32, half: i32|
                {
                    &&& whole >= 0 ==> whole - 1 <= 2 * half <= whole
                    &&& whole < 0 ==> whole <= 2 * half <= whole + 1
                };
            let is_touch_point = |point: Point|
                is_half(before.sample.x, point.x) && is_half(before.sample.y, point.y);
            &&& noted.retry == session.retry
            &&& noted.targets == session.targets
            &&& noted.ran == session.ran
            &&& noted.touched == (reading || (session.touched && noted.calibration_count == up))
            &&& if reading && up == 0 {
                is_touch_point(noted.measured.a)
            } else {
                noted.measured.a == session.measured.a
            }
            &&& if reading && up == 1 {
                is_touch_point(noted.measured.b)
            } else {
                noted.measured.b == session.measured.b
            }
            &&& if reading && up == 2 {
                is_touch_point(noted.measured.c)
            } else {
                noted.measured.c == session.measured.c
            }
        }),
{
}

/// A delay is followed by a run, and nothing changes.
pub proof fn delay_is_followed_by_a_run<SPIError, CSError, C>(
    before: DriverModel,
    session: CalibrationSession,
)
    ensures
        calibrate_step::<SPIError, CSError, C>(before, session, CalibrateEvent::Delayed) == (
            before,
            session,
            CalibrateAction::<SPIError, CSError, C>::Run,
        ),
{
}

/// A run that fails ends the calibration with its failure. After one that
/// succeeds the target that is up is drawn, which is the first, second or third
/// after as many have been dealt with. With all three dealt with, the computation
/// from the targets and the measured points is due, and the measured points
/// become the targets of the driver. Once coefficients have been computed the
/// screen is made white.
pub proof fn run_is_followed_by_a_target_or_the_calculation<SPIError, CSError, C>(
    before: DriverModel,
    session: CalibrationSession,
    result: Result<(), Error<BusError<SPIError, CSError>, C>>,
)
    ensures
        ({
            let (after, noted, action) = calibrate_step::<SPIError, CSError, C>(
                before,
                session,
                CalibrateEvent::Ran(result),
            );
            let count = session.calibration_count;
            &&& result matches Err(e) ==> {
                &&& after == before
                &&& noted == session
                &&& action == CalibrateAction::<SPIError, CSError, C>::Finished(Err(e))
            }
            &&& result is Ok ==> {
                &&& noted == (CalibrationSession { ran: true, ..session })
                &&& count < 3 ==> after == before && action is DrawTarget
                &&& count == 0 ==> action->DrawTarget_target == session.targets.a
                &&& count == 1 ==> action->DrawTarget_target == session.targets.b
                &&& count == 2 ==> action->DrawTarget_target == session.targets.c
                &&& count == 3 ==> {
                    &&& after == (DriverModel { point: session.measured, ..before })
                    &&& action == CalibrateAction::<SPIError, CSError, C>::Calculate {
                        targets: session.targets,
                        measured: session.measured,
                    }
                }
                &&& count > 3 ==> {
                    &&& after == before
                    &&& action == CalibrateAction::<SPIError, CSError, C>::ClearScreen {
                        color: ScreenColor::White,
                        occasion: ClearOccasion::End,
                    }
                }
            }
        }),
{
}

/// Computed coefficients are adopted, and nothing else of the driver changes.
/// The screen is then made white, and with that done the driver is back in
/// normal mode and the calibration returns these coefficients.
pub proof fn computed_coefficients_are_adopted_and_returned<SPIError, CSError, C>(
    before: DriverModel,
    session: CalibrationSession,
    data: CalibrationData,
)
    ensures
        ({
            let (adopted, noted, clear) = calibrate_step::<SPIError, CSError, C>(
                before,
                session,
                CalibrateEvent::Calculated(Ok(data)),
            );
            let (after, unchanged, finish) = calibrate_step::<SPIError, CSError, C>(
                adopted,
                noted,
                CalibrateEvent::ScreenCleared { occasion: ClearOccasion::End },
            );
            &&& adopted == (DriverModel { data, ..before })
            &&& clear == CalibrateAction::<SPIError, CSError, C>::ClearScreen {
                color: ScreenColor::White,
                occasion: ClearOccasion::End,
            }
            &&& noted == (CalibrationSession { calibration_count: 4, ..session })
            &&& unchanged == noted
            &&& after == (DriverModel { mode: TouchScreenOperationMode::NORMAL, ..adopted })
            &&& finish == CalibrateAction::<SPIError, CSError, C>::Finished(Ok(data))
        }),
{
}

/// With the screen cleared at the end, whatever the coefficients in use, the
/// calibration returns these.
pub proof fn coefficients_in_use_are_returned<SPIError, CSError, C>(
    before: DriverModel,
    session: CalibrationSession,
)
    ensures
        calibrate_step::<SPIError, CSError, C>(
            before,
            session,
            CalibrateEvent::ScreenCleared { occasion: ClearOccasion::End },
        ) == (
            DriverModel { mode: TouchScreenOperationMode::NORMAL, ..before },
            session,
            CalibrateAction::<SPIError, CSError, C>::Finished(Ok(before.data)),
        ),
{
}

/// A computation that fails ends the calibration with its reason if no retry
/// is left. Otherwise it uses up one retry and starts over: the screen is made
/// black once, then there is a run, and if that succeeds the first target is
/// drawn. The driver stays as it is but for the run.
pub proof fn failed_calculation_starts_over<SPIError, CSError, C>(
    before: DriverModel,
    session: CalibrationSession,
    reason: C,
    ran: DriverModel,
)
    ensures
        ({
            let (after, noted, action) = calibrate_step::<SPIError, CSError, C>(
                before,
                session,
                CalibrateEvent::Calculated(Err(reason)),
            );
            &&& after == before
            &&& session.retry == 0 ==> {
                &&& noted == session
                &&& action == CalibrateAction::<SPIError, CSError, C>::Finished(
                    Err(Error::Calibration(reason)),
                )
            }
            &&& session.retry > 0 ==> {
                &&& action == CalibrateAction::<SPIError, CSError, C>::ClearScreen {
                    color: ScreenColor::Black,
                    occasion: ClearOccasion::Retry,
                }
                &&& noted.retry == session.retry - 1
                &&& noted.calibration_count == 0
                &&& !noted.touched
                &&& noted.ran == session.ran
                &&& noted.targets == session.targets
                &&& noted.measured == session.measured
                &&& calibrate_step::<SPIError, CSError, C>(
                    after,
                    noted,
                    CalibrateEvent::ScreenCleared { occasion: ClearOccasion::Retry },
                ) == (before, noted, CalibrateAction::<SPIError, CSError, C>::Run)
                &&& calibrate_step::<SPIError, CSError, C>(
                    ran,
                    noted,
                    CalibrateEvent::Ran(Ok(())),
                ) == (
                    ran,
                    CalibrationSession { ran: true, ..noted },
                    CalibrateAction::<SPIError, CSError, C>::DrawTarget {
                        target: session.targets.a,
                    },
                )
            }
        }),
{
}

/// With the screen cleared for a retry the next action is a run, whatever has
/// been measured before, and nothing changes.
pub proof fn cleared_screen_is_followed_by_a_run<SPIError, CSError, C>(
    before: DriverModel,
    session: CalibrationSession,
)
    ensures
        calibrate_step::<SPIError, CSError, C>(
            before,
            session,
            CalibrateEvent::ScreenCleared { occasion: ClearOccasion::Retry },
        ) == (before, session, CalibrateAction::<SPIError, CSError, C>::Run),
{
}

} // verus!
