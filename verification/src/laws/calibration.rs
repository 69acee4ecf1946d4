//! Whole calibrations.

use vstd::prelude::*;

use crate::calibration::CalibrationData;
use crate::calibration::CalibrationPoint;
use crate::driver::DriverModel;
use crate::driver::TouchScreenOperationMode;
use crate::driver::TouchScreenState;
use crate::driver::calibrate::CALIBRATION_RETRIES;
use crate::driver::calibrate::CalibrateAction;
use crate::driver::calibrate::CalibrateEvent;
use crate::driver::calibrate::CalibrationSession;
use crate::driver::calibrate::ClearOccasion;
use crate::driver::calibrate::ScreenColor;
use crate::driver::calibrate::TARGET_COUNT;
use crate::driver::calibrate::calibrate_step;
use crate::driver::calibrate::fresh_session;
use crate::driver::calibrate::round_begun;
use crate::driver::calibrate::target;
use crate::driver::calibrate::touch_noted;
use crate::driver::calibrate::with_target;
use crate::driver::half_way;
use crate::driver::raw_point;
use crate::error::BusError;
use crate::error::Error;
use crate::geometry::Point;
use crate::geometry::origin;
use crate::laws::touch::Surroundings;
use crate::laws::touch::nothing_fails;
use crate::laws::touch::run_has_this_outcome;
use crate::laws::touch::whole_run;

verus! {

/// What can happen next in a calibration.
pub enum Move<SPIError, CSError, C> {
    /// The last action, which is no run, has been performed.
    Reply(CalibrateEvent<SPIError, CSError, C>),
    /// The whole run that the last action asks for has been made.
    Run(Surroundings<SPIError, CSError>),
}

/// A calibration in progress.
pub struct Progress<SPIError, CSError, C> {
    pub driver: DriverModel,
    pub session: CalibrationSession,
    /// The action asked for last
    pub action: CalibrateAction<SPIError, CSError, C>,
    /// How often the coefficients have been asked for
    pub attempts: nat,
}

/// The event reports that the action, which is no run, has been performed.
pub open spec fn reports<SPIError, CSError, C>(
    action: CalibrateAction<SPIError, CSError, C>,
    event: CalibrateEvent<SPIError, CSError, C>,
) -> bool {
    match action {
        CalibrateAction::ClearScreen { occasion, .. } => event
            == CalibrateEvent::<SPIError, CSError, C>::ScreenCleared { occasion },
        CalibrateAction::DrawTarget { .. } => event is TargetDrawn,
        CalibrateAction::DelayMs(_) => event is Delayed,
        CalibrateAction::Calculate { .. } => event is Calculated,
        CalibrateAction::Run => false,
        CalibrateAction::Finished(_) => false,
    }
}

/// The progress after a step of the calibration itself.
pub open spec fn after_event<SPIError, CSError, C>(
    driver: DriverModel,
    session: CalibrationSession,
    event: CalibrateEvent<SPIError, CSError, C>,
    attempts: nat,
) -> Progress<SPIError, CSError, C> {
    let (driver, session, action) = calibrate_step(driver, session, event);
    Progress {
        driver,
        session,
        action,
        attempts: if action is Calculate {
            attempts + 1
        } else {
            attempts
        },
    }
}

/// The progress of a calibration that starts with the given driver, after
/// some moves.
pub open spec fn progress<SPIError, CSError, C>(
    start: DriverModel,
    moves: Seq<Move<SPIError, CSError, C>>,
) -> Progress<SPIError, CSError, C>
    decreases moves.len(),
{
    if moves.len() == 0 {
        after_event(start, fresh_session(start), CalibrateEvent::Start, 0)
    } else {
        let last = progress(start, moves.drop_last());
        match moves.last() {
            Move::Reply(event) => after_event(last.driver, last.session, event, last.attempts),
            Move::Run(world) => {
                let (ran, result) = whole_run::<SPIError, CSError, C>(last.driver, world);
                after_event(ran, last.session, CalibrateEvent::Ran(result), last.attempts)
            },
        }
    }
}

/// Each move is one that the progress until then allows: a report of the
/// action asked for, or, if that is a run, this run.
pub open spec fn allowed<SPIError, CSError, C>(
    start: DriverModel,
    moves: Seq<Move<SPIError, CSError, C>>,
) -> bool
    decreases moves.len(),
{
    moves.len() == 0 || {
        let action = progress(start, moves.drop_last()).action;
        &&& allowed(start, moves.drop_last())
        &&& match moves.last() {
            Move::Reply(event) => reports(action, event),
            Move::Run(_) => action is Run,
        }
    }
}

/// The move at `index` is a run whose raw measurement has this touch point. It
/// comes right after the drawing of the target that is up after `count` others,
/// with the coefficients asked for `attempts` times until then.
pub open spec fn taken_while_shown<SPIError, CSError, C>(
    start: DriverModel,
    moves: Seq<Move<SPIError, CSError, C>>,
    index: int,
    count: u8,
    attempts: nat,
    point: Point,
) -> bool {
    let shown = progress(start, moves.take(index - 1));
    &&& 0 < index < moves.len()
    &&& shown.action == CalibrateAction::<SPIError, CSError, C>::DrawTarget {
        target: target(start.point, count),
    }
    &&& shown.session.calibration_count == count
    &&& shown.attempts == attempts
    &&& moves[index - 1] == Move::Reply(CalibrateEvent::<SPIError, CSError, C>::TargetDrawn)
    &&& moves[index] matches Move::Run(world) && half_way(raw_point(world.rx)) == point
}

/// Some run of the calibration has measured this touch point while the target
/// that is up after `count` others was shown.
pub open spec fn measured_while_shown<SPIError, CSError, C>(
    start: DriverModel,
    moves: Seq<Move<SPIError, CSError, C>>,
    count: u8,
    attempts: nat,
    point: Point,
) -> bool {
    exists|index: int| #[trigger]
        taken_while_shown(start, moves, index, count, attempts, point)
}

/// Every target dealt with in this attempt has been measured while it was shown.
spec fn dealt_with_targets_are_measured<SPIError, CSError, C>(
    start: DriverModel,
    moves: Seq<Move<SPIError, CSError, C>>,
    session: CalibrationSession,
    attempts: nat,
) -> bool {
    forall|count: u8|
        count < session.calibration_count && count < TARGET_COUNT ==> #[trigger]
        measured_while_shown(start, moves, count, attempts, target(session.measured, count))
}

/// What holds at every point of a calibration.
spec fn consistent<SPIError, CSError, C>(
    start: DriverModel,
    moves: Seq<Move<SPIError, CSError, C>>,
) -> bool {
    let Progress { driver, session, action, attempts } = progress(start, moves);
    &&& driver.tx == start.tx
    &&& session.targets == start.point
    &&& session.retry <= CALIBRATION_RETRIES
    &&& session.touched ==> session.ran
    &&& match action {
        CalibrateAction::ClearScreen { color, occasion: ClearOccasion::Beginning } => {
            &&& color is Black
            &&& driver == start
            &&& session == fresh_session(start)
            &&& attempts == 0
        },
        CalibrateAction::ClearScreen { color, occasion: ClearOccasion::End } => {
            &&& color is White
            &&& driver.mode is CALIBRATION
            &&& driver.point == session.measured
            &&& attempts == CALIBRATION_RETRIES - session.retry + 1
            &&& moves.len() > 0
            &&& moves.last() == Move::Reply(
                CalibrateEvent::<SPIError, CSError, C>::Calculated(Ok(driver.data)),
            )
            &&& driver.state is IDLE
            &&& progress(start, moves.drop_last()).action == CalibrateAction::<
                SPIError,
                CSError,
                C,
            >::Calculate { targets: start.point, measured: driver.point }
        },
        CalibrateAction::Calculate { targets, measured } => {
            &&& targets == start.point
            &&& measured == session.measured
            &&& driver.point == session.measured
            &&& driver.mode is CALIBRATION
            &&& driver.data == start.data
            &&& driver.state is IDLE
            &&& attempts == CALIBRATION_RETRIES - session.retry + 1
            &&& session.calibration_count == TARGET_COUNT
            &&& dealt_with_targets_are_measured(start, moves, session, (attempts - 1) as nat)
        },
        CalibrateAction::Finished(Ok(data)) => {
            &&& driver.mode is NORMAL
            &&& driver.data == data
            &&& driver.point == session.measured
            &&& 1 <= attempts <= CALIBRATION_RETRIES + 1
            &&& moves.len() > 1
            &&& moves[moves.len() - 2] == Move::Reply(
                CalibrateEvent::<SPIError, CSError, C>::Calculated(Ok(data)),
            )
            &&& driver.state is IDLE
            &&& progress(start, moves.take(moves.len() - 2)).action == CalibrateAction::<
                SPIError,
                CSError,
                C,
            >::Calculate { targets: start.point, measured: driver.point }
        },
        CalibrateAction::Finished(Err(e)) => {
            &&& driver.mode is CALIBRATION
            &&& driver.data == start.data
            &&& moves.len() > 0
            &&& match e {
                Error::Calibration(reason) => {
                    &&& attempts == CALIBRATION_RETRIES + 1
                    &&& moves.last() == Move::Reply(
                        CalibrateEvent::<SPIError, CSError, C>::Calculated(Err(reason)),
                    )
                },
                Error::Bus(_) => {
                    &&& attempts <= CALIBRATION_RETRIES
                    &&& moves.last() matches Move::Run(world) && whole_run::<SPIError, CSError, C>(
                        progress(start, moves.drop_last()).driver,
                        world,
                    ).1 == Err::<(), _>(e)
                },
            }
        },
        _ => {
            &&& driver.mode is CALIBRATION
            &&& driver.data == start.data
            &&& attempts == CALIBRATION_RETRIES - session.retry
            &&& session.calibration_count <= TARGET_COUNT
            &&& dealt_with_targets_are_measured(start, moves, session, attempts)
            &&& match action {
                CalibrateAction::DrawTarget { target: shown } => {
                    &&& session.calibration_count < TARGET_COUNT
                    &&& shown == target(start.point, session.calibration_count)
                    &&& driver.state is TOUCHED && session.ran ==> measured_while_shown(
                        start,
                        moves,
                        session.calibration_count,
                        attempts,
                        half_way(driver.sample),
                    )
                    &&& session.touched ==> measured_while_shown(
                        start,
                        moves,
                        session.calibration_count,
                        attempts,
                        target(session.measured, session.calibration_count),
                    )
                },
                CalibrateAction::ClearScreen { color, .. } => {
                    &&& color is Black
                    &&& session.calibration_count == 0
                    &&& driver.state is IDLE
                    &&& !session.touched
                },
                CalibrateAction::DelayMs(_) => driver.state is RELEASED && !session.touched,
                CalibrateAction::Run => if driver.state is IDLE {
                    &&& session.calibration_count < TARGET_COUNT
                    &&& session.touched ==> measured_while_shown(
                        start,
                        moves,
                        session.calibration_count,
                        attempts,
                        target(session.measured, session.calibration_count),
                    )
                } else if driver.state is RELEASED {
                    !session.touched
                } else {
                    let drawn = progress(start, moves.drop_last());
                    &&& session.calibration_count < TARGET_COUNT
                    &&& moves.len() > 0
                    &&& moves.last() == Move::Reply(
                        CalibrateEvent::<SPIError, CSError, C>::TargetDrawn,
                    )
                    &&& drawn.action == CalibrateAction::<SPIError, CSError, C>::DrawTarget {
                        target: target(start.point, session.calibration_count),
                    }
                    &&& drawn.session.calibration_count == session.calibration_count
                    &&& drawn.attempts == attempts
                    &&& session.touched ==> measured_while_shown(
                        start,
                        moves,
                        session.calibration_count,
                        attempts,
                        target(session.measured, session.calibration_count),
                    )
                },
                _ => true,
            }
        },
    }
}

/// What has been measured while a target was shown stays so.
proof fn measured_stays_measured<SPIError, CSError, C>(
    start: DriverModel,
    moves: Seq<Move<SPIError, CSError, C>>,
    count: u8,
    attempts: nat,
    point: Point,
)
    requires
        moves.len() > 0,
        measured_while_shown(start, moves.drop_last(), count, attempts, point),
    ensures
        measured_while_shown(start, moves, count, attempts, point),
{
    let earlier = moves.drop_last();
    let index = choose|index: int| #[trigger]
        taken_while_shown(start, earlier, index, count, attempts, point);
    assert(earlier.take(index - 1) =~= moves.take(index - 1));
    assert(taken_while_shown(start, moves, index, count, attempts, point));
}

proof fn progress_is_consistent<SPIError, CSError, C>(
    start: DriverModel,
    moves: Seq<Move<SPIError, CSError, C>>,
)
    requires
        allowed(start, moves),
    ensures
        consistent(start, moves),
    decreases moves.len(),
{
    if moves.len() > 0 {
        let earlier = moves.drop_last();
        progress_is_consistent(start, earlier);
        if earlier.len() > 0 {
            assert(earlier.last() == moves[moves.len() - 2]);
            assert(moves.take(moves.len() - 2) =~= earlier.drop_last());
        }
        let last = progress(start, earlier);
        assert forall|count: u8, attempts: nat, point: Point|
            measured_while_shown(start, earlier, count, attempts, point) implies #[trigger]
        measured_while_shown(start, moves, count, attempts, point) by {
            measured_stays_measured(start, moves, count, attempts, point);
        }
        match moves.last() {
            Move::Run(world) => {
                run_has_this_outcome::<SPIError, CSError, C>(last.driver, world);
                if !(last.driver.state is IDLE) && !(last.driver.state is RELEASED) {
                    assert(moves.take(moves.len() - 2) =~= earlier.drop_last());
                    assert(taken_while_shown(
                        start,
                        moves,
                        moves.len() - 1,
                        last.session.calibration_count,
                        last.attempts,
                        half_way(raw_point(world.rx)),
                    ));
                }
            },
            Move::Reply(event) => if event is TargetDrawn {
                let noted = touch_noted(last.driver, last.session);
                assert forall|count: u8|
                    count < noted.calibration_count && count < TARGET_COUNT implies #[trigger]
                measured_while_shown(
                    start,
                    moves,
                    count,
                    last.attempts,
                    target(noted.measured, count),
                ) by {
                    if count < last.session.calibration_count {
                        assert(measured_while_shown(
                            start,
                            earlier,
                            count,
                            last.attempts,
                            target(last.session.measured, count),
                        ));
                    }
                }
            },
        }
    }
}

/// The coefficients are asked for at most four times.
pub proof fn attempts_are_bounded<SPIError, CSError, C>(
    start: DriverModel,
    moves: Seq<Move<SPIError, CSError, C>>,
)
    requires
        allowed(start, moves),
    ensures
        progress(start, moves).attempts <= CALIBRATION_RETRIES + 1,
{
    progress_is_consistent(start, moves);
}

/// A calibration has its coefficients computed from the targets that the
/// driver had at its start, in every attempt, and from the measured points,
/// which are from then on the targets of the driver.
pub proof fn calculation_goes_by_the_first_targets<SPIError, CSError, C>(
    start: DriverModel,
    moves: Seq<Move<SPIError, CSError, C>>,
)
    requires
        allowed(start, moves),
        progress(start, moves).action is Calculate,
    ensures
        progress(start, moves).action == (CalibrateAction::<SPIError, CSError, C>::Calculate {
            targets: start.point,
            measured: progress(start, moves).session.measured,
        }),
        progress(start, moves).driver.point == progress(start, moves).session.measured,
{
    progress_is_consistent(start, moves);
}

/// A target that is drawn is the one that comes after those dealt with, of
/// the targets that the driver had at the start.
pub proof fn targets_are_drawn_in_order<SPIError, CSError, C>(
    start: DriverModel,
    moves: Seq<Move<SPIError, CSError, C>>,
)
    requires
        allowed(start, moves),
        progress(start, moves).action is DrawTarget,
    ensures
        progress(start, moves).session.calibration_count < TARGET_COUNT,
        progress(start, moves).action == (CalibrateAction::<SPIError, CSError, C>::DrawTarget {
            target: target(start.point, progress(start, moves).session.calibration_count),
        }),
{
    progress_is_consistent(start, moves);
}

/// Runs are only made in the mode in which measurements are raw.
pub proof fn calibration_measures_raw_points<SPIError, CSError, C>(
    start: DriverModel,
    moves: Seq<Move<SPIError, CSError, C>>,
)
    requires
        allowed(start, moves),
        progress(start, moves).action is Run,
    ensures
        progress(start, moves).driver.mode is CALIBRATION,
{
    progress_is_consistent(start, moves);
}

/// The screen is made black before the first target and before each new
/// attempt, and white once the computation has succeeded.
pub proof fn screen_is_cleared_in_these_colors<SPIError, CSError, C>(
    start: DriverModel,
    moves: Seq<Move<SPIError, CSError, C>>,
)
    requires
        allowed(start, moves),
    ensures
        progress(start, moves).action matches CalibrateAction::ClearScreen { color, occasion }
            ==> color == (if occasion is End {
            ScreenColor::White
        } else {
            ScreenColor::Black
        }),
{
    progress_is_consistent(start, moves);
}

/// A calibration that succeeds returns the coefficients that were computed
/// last, from the targets that the driver had at the start and the measured
/// points. It leaves the driver with them, in normal mode, waiting for a touch,
/// and with the measured points as its targets.
pub proof fn successful_calibration_adopts_the_coefficients<SPIError, CSError, C>(
    start: DriverModel,
    moves: Seq<Move<SPIError, CSError, C>>,
    data: CalibrationData,
)
    requires
        allowed(start, moves),
        progress(start, moves).action == CalibrateAction::<SPIError, CSError, C>::Finished(
            Ok(data),
        ),
    ensures
        progress(start, moves).driver.data == data,
        progress(start, moves).driver.mode is NORMAL,
        progress(start, moves).driver.point == progress(start, moves).session.measured,
        progress(start, moves).driver.tx == start.tx,
        moves.len() > 1,
        moves[moves.len() - 2] == Move::Reply(
            CalibrateEvent::<SPIError, CSError, C>::Calculated(Ok(data)),
        ),
        progress(start, moves.take(moves.len() - 2)).action == (CalibrateAction::<
            SPIError,
            CSError,
            C,
        >::Calculate { targets: start.point, measured: progress(start, moves).driver.point }),
        progress(start, moves).driver.state is IDLE,
{
    progress_is_consistent(start, moves);
}

/// The coefficients and the mode that a driver starts with play no part in a
/// calibration: with others, the same moves lead to the same session, the same
/// action and the same driver but for these two, and to the same driver
/// altogether once the computation has succeeded.
pub proof fn calibration_ignores_earlier_coefficients<SPIError, CSError, C>(
    start: DriverModel,
    data: CalibrationData,
    mode: TouchScreenOperationMode,
    moves: Seq<Move<SPIError, CSError, C>>,
)
    requires
        allowed(start, moves),
    ensures
        ({
            let one = progress(start, moves);
            let other = progress(DriverModel { data, mode, ..start }, moves);
            &&& allowed(DriverModel { data, mode, ..start }, moves)
            &&& one.session == other.session
            &&& one.action == other.action
            &&& one.attempts == other.attempts
            &&& other.driver == (DriverModel {
                data: other.driver.data,
                mode: other.driver.mode,
                ..one.driver
            })
            &&& !(one.action matches CalibrateAction::ClearScreen {
                occasion: ClearOccasion::Beginning,
                ..
            }) ==> one.driver.mode == other.driver.mode
            &&& one.action matches CalibrateAction::ClearScreen {
                occasion: ClearOccasion::End,
                ..
            } ==> one.driver == other.driver
            &&& one.action matches CalibrateAction::Finished(Ok(_)) ==> one.driver == other.driver
        }),
    decreases moves.len(),
{
    if moves.len() > 0 {
        let earlier = moves.drop_last();
        let other_start = DriverModel { data, mode, ..start };
        calibration_ignores_earlier_coefficients(start, data, mode, earlier);
        progress_is_consistent(start, earlier);
        match moves.last() {
            Move::Run(world) => {
                run_has_this_outcome::<SPIError, CSError, C>(
                    progress(start, earlier).driver,
                    world,
                );
                run_has_this_outcome::<SPIError, CSError, C>(
                    progress(other_start, earlier).driver,
                    world,
                );
            },
            Move::Reply(_) => {},
        }
    }
}

/// A calibration that fails leaves the driver with the coefficients it had
/// before, and in calibration mode.
pub proof fn failed_calibration_keeps_the_coefficients<SPIError, CSError, C>(
    start: DriverModel,
    moves: Seq<Move<SPIError, CSError, C>>,
    error: Error<BusError<SPIError, CSError>, C>,
)
    requires
        allowed(start, moves),
        progress(start, moves).action == CalibrateAction::<SPIError, CSError, C>::Finished(
            Err(error),
        ),
    ensures
        progress(start, moves).driver.data == start.data,
        progress(start, moves).driver.mode is CALIBRATION,
        progress(start, moves).driver.tx == start.tx,
{
    progress_is_consistent(start, moves);
}

/// A calibration fails for want of coefficients only if their computation has
/// failed four times, and then with what the last one reported. It fails for
/// the hardware only if a run has failed, and then with what that run reported.
pub proof fn calibration_fails_for_these_reasons<SPIError, CSError, C>(
    start: DriverModel,
    moves: Seq<Move<SPIError, CSError, C>>,
    error: Error<BusError<SPIError, CSError>, C>,
)
    requires
        allowed(start, moves),
        progress(start, moves).action == CalibrateAction::<SPIError, CSError, C>::Finished(
            Err(error),
        ),
    ensures
        moves.len() > 0,
        match error {
            Error::Calibration(reason) => {
                &&& progress(start, moves).attempts == CALIBRATION_RETRIES + 1
                &&& moves.last() == Move::Reply(
                    CalibrateEvent::<SPIError, CSError, C>::Calculated(Err(reason)),
                )
            },
            Error::Bus(_) => moves.last() matches Move::Run(world) && whole_run::<
                SPIError,
                CSError,
                C,
            >(progress(start, moves.drop_last()).driver, world).1 == Err::<(), _>(error),
        },
{
    progress_is_consistent(start, moves);
}

/// Coefficients are only ever computed from readings for three sample points
/// of the calibration itself: each of the three comes from a run made in the
/// same attempt while its target was shown, whatever state the driver was in
/// at the start.
pub proof fn every_target_is_measured_while_shown<SPIError, CSError, C>(
    start: DriverModel,
    moves: Seq<Move<SPIError, CSError, C>>,
)
    requires
        allowed(start, moves),
        progress(start, moves).action is Calculate,
    ensures
        progress(start, moves).action matches CalibrateAction::Calculate { measured, .. }
            && progress(start, moves).attempts > 0 && {
            let attempts = (progress(start, moves).attempts - 1) as nat;
            &&& measured_while_shown(start, moves, 0, attempts, measured.a)
            &&& measured_while_shown(start, moves, 1, attempts, measured.b)
            &&& measured_while_shown(start, moves, 2, attempts, measured.c)
        },
{
    progress_is_consistent(start, moves);
    let session = progress(start, moves).session;
    let attempts = (progress(start, moves).attempts - 1) as nat;
    assert(measured_while_shown(start, moves, 0, attempts, target(session.measured, 0)));
    assert(measured_while_shown(start, moves, 1, attempts, target(session.measured, 1)));
    assert(measured_while_shown(start, moves, 2, attempts, target(session.measured, 2)));
}

/// One round of a calibration while targets are left: with the target drawn
/// the touch is looked at, and then there is a whole run.
pub open spec fn round<SPIError, CSError, C>(
    driver: DriverModel,
    session: CalibrationSession,
    world: Surroundings<SPIError, CSError>,
) -> (DriverModel, CalibrationSession, CalibrateAction<SPIError, CSError, C>) {
    let (drawn, noted, action) = calibrate_step::<SPIError, CSError, C>(
        driver,
        session,
        CalibrateEvent::TargetDrawn,
    );
    let (waited, noted) = if action is DelayMs {
        let (waited, noted, _) = calibrate_step::<SPIError, CSError, C>(
            drawn,
            noted,
            CalibrateEvent::Delayed,
        );
        (waited, noted)
    } else {
        (drawn, noted)
    };
    let (ran, result) = whole_run::<SPIError, CSError, C>(waited, world);
    calibrate_step(ran, noted, CalibrateEvent::Ran(result))
}

/// Some rounds one after the other.
pub open spec fn rounds<SPIError, CSError, C>(
    driver: DriverModel,
    session: CalibrationSession,
    worlds: Seq<Surroundings<SPIError, CSError>>,
) -> (DriverModel, CalibrationSession)
    decreases worlds.len(),
{
    if worlds.len() == 0 {
        (driver, session)
    } else {
        let (driver, session) = rounds::<SPIError, CSError, C>(driver, session, worlds.drop_last());
        let (driver, session, _) = round::<SPIError, CSError, C>(driver, session, worlds.last());
        (driver, session)
    }
}

/// What a touch of a target looks like from the driver.
pub struct TargetTouch<SPIError, CSError> {
    /// The pin goes low
    pub arrival: Surroundings<SPIError, CSError>,
    /// The touch is confirmed
    pub confirmation: Surroundings<SPIError, CSError>,
    /// The touch lasts
    pub duration: Seq<Surroundings<SPIError, CSError>>,
    /// The pin is no longer low
    pub release: Surroundings<SPIError, CSError>,
    /// The driver goes back to waiting
    pub rest: Surroundings<SPIError, CSError>,
}

impl<SPIError, CSError> TargetTouch<SPIError, CSError> {
    /// Nothing fails, and the pin is low while the touch lasts and no longer.
    pub open spec fn valid(self) -> bool {
        &&& nothing_fails(self.arrival)
        &&& nothing_fails(self.confirmation)
        &&& forall|i: int|
            0 <= i < self.duration.len() ==> nothing_fails(#[trigger] self.duration[i])
                && self.duration[i].level == Ok::<bool, CSError>(true)
        &&& nothing_fails(self.release)
        &&& self.release.level == Ok::<bool, CSError>(false)
        &&& nothing_fails(self.rest)
    }

    /// The raw measurement with which the touch was last seen to last.
    pub open spec fn raw(self) -> Point {
        if self.duration.len() == 0 {
            raw_point(self.confirmation.rx)
        } else {
            raw_point(self.duration.last().rx)
        }
    }
}

/// The rounds of a whole touch. If the driver already knows that the pin is
/// low, the touch has arrived before the first of them. If the driver already
/// reports a touch, it has also been confirmed.
#[verifier::opaque]
pub open spec fn touch_rounds<SPIError, CSError, C>(
    driver: DriverModel,
    session: CalibrationSession,
    touch: TargetTouch<SPIError, CSError>,
) -> (DriverModel, CalibrationSession, CalibrateAction<SPIError, CSError, C>) {
    let (driver, session) = if driver.state is IDLE {
        let (driver, session, _) = round::<SPIError, CSError, C>(driver, session, touch.arrival);
        (driver, session)
    } else {
        (driver, session)
    };
    let (driver, session) = if driver.state is PRESAMPLING {
        let (driver, session, _) = round::<SPIError, CSError, C>(
            driver,
            session,
            touch.confirmation,
        );
        (driver, session)
    } else {
        (driver, session)
    };
    let (driver, session) = rounds::<SPIError, CSError, C>(driver, session, touch.duration);
    let (driver, session, _) = round::<SPIError, CSError, C>(driver, session, touch.release);
    round(driver, session, touch.rest)
}

/// While a touch lasts the session may note points for the target that is up,
/// and nothing else changes that matters for the targets.
pub proof fn lasting_touch_is_followed<SPIError, CSError, C>(
    driver: DriverModel,
    session: CalibrationSession,
    worlds: Seq<Surroundings<SPIError, CSError>>,
)
    requires
        driver.state is TOUCHED,
        driver.mode is CALIBRATION,
        session.calibration_count < TARGET_COUNT,
        forall|i: int|
            0 <= i < worlds.len() ==> nothing_fails(#[trigger] worlds[i]) && worlds[i].level == Ok::<
                bool,
                CSError,
            >(true),
    ensures
        ({
            let (after, noted) = rounds::<SPIError, CSError, C>(driver, session, worlds);
            &&& after.state is TOUCHED
            &&& after == (DriverModel { rx: after.rx, sample: after.sample, ..driver })
            &&& after.sample == (if worlds.len() == 0 {
                driver.sample
            } else {
                raw_point(worlds.last().rx)
            })
            &&& with_target(noted.measured, session.calibration_count, origin()) == with_target(
                session.measured,
                session.calibration_count,
                origin(),
            )
            &&& noted == (CalibrationSession {
                measured: noted.measured,
                ran: session.ran || worlds.len() > 0,
                touched: noted.touched,
                ..session
            })
        }),
    decreases worlds.len(),
{
    if worlds.len() > 0 {
        let shorter = worlds.drop_last();
        assert forall|i: int| 0 <= i < shorter.len() implies nothing_fails(#[trigger] shorter[i])
            && shorter[i].level == Ok::<bool, CSError>(true) by {
            assert(shorter[i] == worlds[i]);
        }
        lasting_touch_is_followed::<SPIError, CSError, C>(driver, session, shorter);
        assert(nothing_fails(worlds[worlds.len() - 1]));
        let (middle, noted) = rounds::<SPIError, CSError, C>(driver, session, shorter);
        run_has_this_outcome::<SPIError, CSError, C>(middle, worlds.last());
    }
}

/// The driver can take up the touch: it waits for one, or knows that the pin
/// is low, or already reports a touch, which then lasts for at least one run.
pub open spec fn ready_for<SPIError, CSError>(
    driver: DriverModel,
    touch: TargetTouch<SPIError, CSError>,
) -> bool {
    match driver.state {
        TouchScreenState::IDLE => true,
        TouchScreenState::PRESAMPLING => true,
        TouchScreenState::TOUCHED => touch.duration.len() > 0,
        TouchScreenState::RELEASED => false,
    }
}

/// A touch of the target that is up is measured for that target, by its touch
/// point when it was last seen to last. It deals with the target, and leaves
/// the driver waiting for the touch of the next one.
pub proof fn touch_is_measured_for_the_target<SPIError, CSError, C>(
    driver: DriverModel,
    session: CalibrationSession,
    touch: TargetTouch<SPIError, CSError>,
)
    requires
        ready_for(driver, touch),
        driver.mode is CALIBRATION,
        session.calibration_count < TARGET_COUNT,
        touch.valid(),
    ensures
        ({
            let (after, noted, action) = touch_rounds::<SPIError, CSError, C>(
                driver,
                session,
                touch,
            );
            &&& after.state is IDLE
            &&& after.mode is CALIBRATION
            &&& after.data == driver.data
            &&& after.tx == driver.tx
            &&& noted == (CalibrationSession {
                calibration_count: (session.calibration_count + 1) as u8,
                measured: with_target(
                    session.measured,
                    session.calibration_count,
                    half_way(touch.raw()),
                ),
                ran: true,
                touched: false,
                ..session
            })
            &&& (after, action) == round_begun::<SPIError, CSError, C>(after, noted)
        }),
{
    reveal(touch_rounds);
    let (d1, s1) = if driver.state is IDLE {
        let (d1, s1, _) = round::<SPIError, CSError, C>(driver, session, touch.arrival);
        (d1, s1)
    } else {
        (driver, session)
    };
    run_has_this_outcome::<SPIError, CSError, C>(driver, touch.arrival);
    assert(d1.state is PRESAMPLING || d1 == driver);
    let (d2, s2) = if d1.state is PRESAMPLING {
        let (d2, s2, _) = round::<SPIError, CSError, C>(d1, s1, touch.confirmation);
        (d2, s2)
    } else {
        (d1, s1)
    };
    run_has_this_outcome::<SPIError, CSError, C>(d1, touch.confirmation);
    assert(d2.state is TOUCHED);
    assert(s2 == (CalibrationSession { ran: s2.ran, ..session }));
    assert(touch.duration.len() == 0 ==> s2.ran && d2.sample == raw_point(touch.confirmation.rx));
    let (d3, s3) = rounds::<SPIError, CSError, C>(d2, s2, touch.duration);
    lasting_touch_is_followed::<SPIError, CSError, C>(d2, s2, touch.duration);
    let (d4, s4, _) = round::<SPIError, CSError, C>(d3, s3, touch.release);
    run_has_this_outcome::<SPIError, CSError, C>(d3, touch.release);
    assert(d4.state is RELEASED);
    assert(s4.measured == with_target(
        session.measured,
        session.calibration_count,
        half_way(touch.raw()),
    ));
    run_has_this_outcome::<SPIError, CSError, C>(d4, touch.rest);
}

/// What an attempt looks like from the driver: a touch of each target in turn.
pub struct Attempt<SPIError, CSError> {
    pub first: TargetTouch<SPIError, CSError>,
    pub second: TargetTouch<SPIError, CSError>,
    pub third: TargetTouch<SPIError, CSError>,
}

impl<SPIError, CSError> Attempt<SPIError, CSError> {
    pub open spec fn valid(self) -> bool {
        self.first.valid() && self.second.valid() && self.third.valid()
    }

    /// The touch points of the three touches.
    pub open spec fn measured(self) -> CalibrationPoint {
        CalibrationPoint {
            a: half_way(self.first.raw()),
            b: half_way(self.second.raw()),
            c: half_way(self.third.raw()),
        }
    }
}

/// An attempt whose computation failed.
pub struct FailedAttempt<SPIError, CSError, C> {
    pub attempt: Attempt<SPIError, CSError>,
    /// Why there are no coefficients
    pub reason: C,
    /// The run before the next attempt
    pub run: Surroundings<SPIError, CSError>,
}

/// A calibration from its start through some rounds with its first target.
pub open spec fn begun<SPIError, CSError, C>(
    start: DriverModel,
    leading: Seq<Surroundings<SPIError, CSError>>,
) -> (DriverModel, CalibrationSession) {
    let (driver, session, _) = calibrate_step::<SPIError, CSError, C>(
        start,
        fresh_session(start),
        CalibrateEvent::Start,
    );
    let (driver, session, _) = calibrate_step::<SPIError, CSError, C>(
        driver,
        session,
        CalibrateEvent::ScreenCleared { occasion: ClearOccasion::Beginning },
    );
    rounds::<SPIError, CSError, C>(driver, session, leading)
}

/// The rounds that it takes before the first target can be touched. A touch
/// that ended before the calibration goes by in one round, and one that ends
/// with the first run in two. A touch that lasts longer is that of the first
/// target.
pub open spec fn leads_to<SPIError, CSError>(
    start: DriverModel,
    leading: Seq<Surroundings<SPIError, CSError>>,
    touch: TargetTouch<SPIError, CSError>,
) -> bool {
    &&& forall|i: int| 0 <= i < leading.len() ==> nothing_fails(#[trigger] leading[i])
    &&& match start.state {
        TouchScreenState::IDLE => leading.len() == 0,
        TouchScreenState::PRESAMPLING => leading.len() == 0,
        TouchScreenState::TOUCHED => {
            ||| leading.len() == 0 && touch.duration.len() > 0
            ||| leading.len() == 2 && leading[0].level == Ok::<bool, CSError>(false)
        },
        TouchScreenState::RELEASED => leading.len() == 1,
    }
}

/// The touch with which the attempts of a calibration begin.
pub open spec fn first_touch<SPIError, CSError, C>(
    failures: Seq<FailedAttempt<SPIError, CSError, C>>,
    attempt: Attempt<SPIError, CSError>,
) -> TargetTouch<SPIError, CSError> {
    if failures.len() == 0 {
        attempt.first
    } else {
        failures.first().attempt.first
    }
}

/// An attempt, from its first target to the computation.
#[verifier::opaque]
pub open spec fn attempted<SPIError, CSError, C>(
    driver: DriverModel,
    session: CalibrationSession,
    attempt: Attempt<SPIError, CSError>,
) -> (DriverModel, CalibrationSession, CalibrateAction<SPIError, CSError, C>) {
    let (driver, session, _) = touch_rounds::<SPIError, CSError, C>(
        driver,
        session,
        attempt.first,
    );
    let (driver, session, _) = touch_rounds::<SPIError, CSError, C>(
        driver,
        session,
        attempt.second,
    );
    touch_rounds(driver, session, attempt.third)
}

/// A calibration from a failed computation to the beginning of a new attempt.
pub open spec fn retried<SPIError, CSError, C>(
    driver: DriverModel,
    session: CalibrationSession,
    reason: C,
    world: Surroundings<SPIError, CSError>,
) -> (DriverModel, CalibrationSession, CalibrateAction<SPIError, CSError, C>) {
    let (driver, session, _) = calibrate_step::<SPIError, CSError, C>(
        driver,
        session,
        CalibrateEvent::Calculated(Err(reason)),
    );
    let (driver, session, _) = calibrate_step::<SPIError, CSError, C>(
        driver,
        session,
        CalibrateEvent::ScreenCleared { occasion: ClearOccasion::Retry },
    );
    let (driver, result) = whole_run::<SPIError, CSError, C>(driver, world);
    calibrate_step(driver, session, CalibrateEvent::Ran(result))
}

/// A calibration up to the attempt that follows some failed ones.
pub open spec fn after_failures<SPIError, CSError, C>(
    start: DriverModel,
    leading: Seq<Surroundings<SPIError, CSError>>,
    failures: Seq<FailedAttempt<SPIError, CSError, C>>,
) -> (DriverModel, CalibrationSession)
    decreases failures.len(),
{
    if failures.len() == 0 {
        begun::<SPIError, CSError, C>(start, leading)
    } else {
        let failure = failures.last();
        let (driver, session) = after_failures(start, leading, failures.drop_last());
        let (driver, session, _) = attempted::<SPIError, CSError, C>(
            driver,
            session,
            failure.attempt,
        );
        let (driver, session, _) = retried(driver, session, failure.reason, failure.run);
        (driver, session)
    }
}

/// A calibration from the result of the computation to the end, if the
/// computation has succeeded.
pub open spec fn ended<SPIError, CSError, C>(
    driver: DriverModel,
    session: CalibrationSession,
    data: CalibrationData,
) -> (DriverModel, CalibrationSession, CalibrateAction<SPIError, CSError, C>) {
    let (driver, session, _) = calibrate_step::<SPIError, CSError, C>(
        driver,
        session,
        CalibrateEvent::Calculated(Ok(data)),
    );
    calibrate_step(
        driver,
        session,
        CalibrateEvent::ScreenCleared { occasion: ClearOccasion::End },
    )
}

/// Nothing fails in these attempts but the computation.
pub open spec fn only_calculations_fail<SPIError, CSError, C>(
    failures: Seq<FailedAttempt<SPIError, CSError, C>>,
) -> bool {
    forall|i: int|
        0 <= i < failures.len() ==> (#[trigger] failures[i]).attempt.valid() && nothing_fails(
            failures[i].run,
        )
}

/// An attempt leads to a computation from the targets and the three touch
/// points.
pub proof fn attempt_leads_to_the_calculation<SPIError, CSError, C>(
    driver: DriverModel,
    session: CalibrationSession,
    attempt: Attempt<SPIError, CSError>,
)
    requires
        ready_for(driver, attempt.first),
        driver.mode is CALIBRATION,
        session.calibration_count == 0,
        attempt.valid(),
    ensures
        ({
            let (after, noted, action) = attempted::<SPIError, CSError, C>(
                driver,
                session,
                attempt,
            );
            &&& after.state is IDLE
            &&& after.mode is CALIBRATION
            &&& after.data == driver.data
            &&& after.tx == driver.tx
            &&& after.point == attempt.measured()
            &&& noted == (CalibrationSession {
                calibration_count: TARGET_COUNT,
                measured: attempt.measured(),
                ran: true,
                touched: false,
                ..session
            })
            &&& action == CalibrateAction::<SPIError, CSError, C>::Calculate {
                targets: session.targets,
                measured: attempt.measured(),
            }
        }),
{
    reveal(attempted);
    let (d1, s1, _) = touch_rounds::<SPIError, CSError, C>(driver, session, attempt.first);
    touch_is_measured_for_the_target::<SPIError, CSError, C>(driver, session, attempt.first);
    let (d2, s2, _) = touch_rounds::<SPIError, CSError, C>(d1, s1, attempt.second);
    touch_is_measured_for_the_target::<SPIError, CSError, C>(d1, s1, attempt.second);
    touch_is_measured_for_the_target::<SPIError, CSError, C>(d2, s2, attempt.third);
}

/// A calibration comes to be at its first target with a driver that can take
/// up the touch of it.
pub proof fn first_target_is_shown<SPIError, CSError, C>(
    start: DriverModel,
    leading: Seq<Surroundings<SPIError, CSError>>,
    touch: TargetTouch<SPIError, CSError>,
)
    requires
        leads_to(start, leading, touch),
    ensures
        ({
            let (driver, session) = begun::<SPIError, CSError, C>(start, leading);
            &&& ready_for(driver, touch)
            &&& driver.state == (if leading.len() > 0 {
                TouchScreenState::IDLE
            } else {
                start.state
            })
            &&& driver.mode is CALIBRATION
            &&& driver.data == start.data
            &&& driver.tx == start.tx
            &&& session == (CalibrationSession { ran: session.ran, ..fresh_session(start) })
        }),
{
    let driver = DriverModel { mode: TouchScreenOperationMode::CALIBRATION, ..start };
    let session = fresh_session(start);
    let empty = Seq::<Surroundings<SPIError, CSError>>::empty();
    if leading.len() > 0 {
        assert(nothing_fails(leading[0]));
        let (middle, noted, _) = round::<SPIError, CSError, C>(driver, session, leading[0]);
        run_has_this_outcome::<SPIError, CSError, C>(driver, leading[0]);
        assert(noted == (CalibrationSession { ran: true, ..session }));
        assert(seq![leading[0]].drop_last() =~= empty);
        reveal_with_fuel(rounds, 3);
        if leading.len() == 1 {
            assert(leading =~= seq![leading[0]]);
        } else {
            assert(nothing_fails(leading[1]));
            assert(leading.drop_last() =~= seq![leading[0]]);
            assert(middle.state is RELEASED);
            run_has_this_outcome::<SPIError, CSError, C>(middle, leading[1]);
        }
    }
}

/// After up to three failed attempts a calibration is back at its first
/// target, with as many retries fewer left and the coefficients as they were.
pub proof fn failed_attempt_is_followed_by_another<SPIError, CSError, C>(
    start: DriverModel,
    leading: Seq<Surroundings<SPIError, CSError>>,
    failures: Seq<FailedAttempt<SPIError, CSError, C>>,
    attempt: Attempt<SPIError, CSError>,
)
    requires
        failures.len() <= CALIBRATION_RETRIES,
        only_calculations_fail(failures),
        leads_to(start, leading, first_touch(failures, attempt)),
    ensures
        ({
            let (driver, session) = after_failures(start, leading, failures);
            &&& ready_for(driver, attempt.first)
            &&& driver.mode is CALIBRATION
            &&& driver.data == start.data
            &&& driver.tx == start.tx
            &&& session.calibration_count == 0
            &&& session.retry == CALIBRATION_RETRIES - failures.len()
            &&& session.targets == start.point
        }),
    decreases failures.len(),
{
    if failures.len() == 0 {
        first_target_is_shown::<SPIError, CSError, C>(start, leading, attempt.first);
    } else {
        let earlier = failures.drop_last();
        let failure = failures.last();
        assert forall|i: int| 0 <= i < earlier.len() implies (
        #[trigger] earlier[i]).attempt.valid() && nothing_fails(earlier[i].run) by {
            assert(earlier[i] == failures[i]);
        }
        assert(first_touch(earlier, failure.attempt) == first_touch(failures, attempt));
        failed_attempt_is_followed_by_another(start, leading, earlier, failure.attempt);
        assert(failures[failures.len() - 1].attempt.valid());
        let (d1, s1) = after_failures(start, leading, earlier);
        let (d2, s2, _) = attempted::<SPIError, CSError, C>(d1, s1, failure.attempt);
        attempt_leads_to_the_calculation::<SPIError, CSError, C>(d1, s1, failure.attempt);
        run_has_this_outcome::<SPIError, CSError, C>(d2, failure.run);
    }
}

/// A calibration in which, after up to three failed attempts, the three
/// targets are touched in turn has coefficients computed from its targets and
/// the three touch points of the last attempt. If there are any, it returns
/// them and leaves the driver with them, in normal mode and waiting for a
/// touch. This holds whatever the driver was doing when the calibration started.
pub proof fn calibration_succeeds<SPIError, CSError, C>(
    start: DriverModel,
    leading: Seq<Surroundings<SPIError, CSError>>,
    failures: Seq<FailedAttempt<SPIError, CSError, C>>,
    attempt: Attempt<SPIError, CSError>,
    data: CalibrationData,
)
    requires
        failures.len() <= CALIBRATION_RETRIES,
        only_calculations_fail(failures),
        attempt.valid(),
        leads_to(start, leading, first_touch(failures, attempt)),
    ensures
        ({
            let (d1, s1) = after_failures(start, leading, failures);
            let (d2, s2, calculate) = attempted::<SPIError, CSError, C>(d1, s1, attempt);
            let (after, _, finish) = ended::<SPIError, CSError, C>(d2, s2, data);
            &&& calculate == CalibrateAction::<SPIError, CSError, C>::Calculate {
                targets: start.point,
                measured: attempt.measured(),
            }
            &&& finish == CalibrateAction::<SPIError, CSError, C>::Finished(Ok(data))
            &&& after.data == data
            &&& after.mode is NORMAL
            &&& after.state is IDLE
            &&& after.point == attempt.measured()
            &&& after.tx == start.tx
        }),
{
    failed_attempt_is_followed_by_another(start, leading, failures, attempt);
    let (d1, s1) = after_failures(start, leading, failures);
    attempt_leads_to_the_calculation::<SPIError, CSError, C>(d1, s1, attempt);
}

/// A calibration whose computation fails a fourth time ends with the reason of
/// that failure, and with the coefficients as they were.
pub proof fn fourth_failure_ends_the_calibration<SPIError, CSError, C>(
    start: DriverModel,
    leading: Seq<Surroundings<SPIError, CSError>>,
    failures: Seq<FailedAttempt<SPIError, CSError, C>>,
    attempt: Attempt<SPIError, CSError>,
    reason: C,
)
    requires
        failures.len() == CALIBRATION_RETRIES,
        only_calculations_fail(failures),
        attempt.valid(),
        leads_to(start, leading, first_touch(failures, attempt)),
    ensures
        ({
            let (d1, s1) = after_failures(start, leading, failures);
            let (d2, s2, _) = attempted::<SPIError, CSError, C>(d1, s1, attempt);
            let (after, _, finish) = calibrate_step::<SPIError, CSError, C>(
                d2,
                s2,
                CalibrateEvent::Calculated(Err(reason)),
            );
            &&& finish == CalibrateAction::<SPIError, CSError, C>::Finished(
                Err(Error::Calibration(reason)),
            )
            &&& after.data == start.data
            &&& after.mode is CALIBRATION
        }),
{
    failed_attempt_is_followed_by_another(start, leading, failures, attempt);
    let (d1, s1) = after_failures(start, leading, failures);
    attempt_leads_to_the_calculation::<SPIError, CSError, C>(d1, s1, attempt);
}

} // verus!
