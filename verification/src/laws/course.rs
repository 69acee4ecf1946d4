//! The course of a calibration, as the actions lead to each other.

use vstd::prelude::*;

use crate::calibration::CalibrationData;
use crate::calibration::CalibrationPoint;
use crate::driver::DriverModel;
use crate::driver::TouchScreenOperationMode;
use crate::driver::TouchScreenState;
use crate::driver::calibrate::CALIBRATION_RETRIES;
use crate::driver::calibrate::CalibrateAction;
use crate::driver::calibrate::CalibrateEvent;
use crate::driver::calibrate::CalibrationSession;
use crate::driver::calibrate::ClearOccasion;
use crate::driver::calibrate::TARGET_COUNT;
use crate::driver::calibrate::calibrate_step;
use crate::driver::calibrate::fresh_session;
use crate::driver::half_way;
use crate::error::Error;
use crate::laws::calibration::Attempt;
use crate::laws::calibration::FailedAttempt;
use crate::laws::calibration::TargetTouch;
use crate::laws::calibration::after_failures;
use crate::laws::calibration::attempt_leads_to_the_calculation;
use crate::laws::calibration::attempted;
use crate::laws::calibration::begun;
use crate::laws::calibration::failed_attempt_is_followed_by_another;
use crate::laws::calibration::first_target_is_shown;
use crate::laws::calibration::first_touch;
use crate::laws::calibration::lasting_touch_is_followed;
use crate::laws::calibration::leads_to;
use crate::laws::calibration::only_calculations_fail;
use crate::laws::calibration::ready_for;
use crate::laws::calibration::retried;
use crate::laws::calibration::round;
use crate::laws::calibration::rounds;
use crate::laws::calibration::touch_is_measured_for_the_target;
use crate::laws::calibration::touch_rounds;
use crate::laws::touch::Surroundings;
use crate::laws::touch::nothing_fails;
use crate::laws::touch::run_has_this_outcome;
use crate::laws::touch::whole_run;

verus! {

/// How many reports there can be, after which a calibration asks for a run or
/// for the computation or is finished.
pub open spec fn reports_left<SPIError, CSError, C>(
    action: CalibrateAction<SPIError, CSError, C>,
) -> nat {
    match action {
        CalibrateAction::ClearScreen { occasion: ClearOccasion::Beginning, .. } => 4,
        CalibrateAction::DrawTarget { .. } => 3,
        CalibrateAction::DelayMs(_) => 2,
        CalibrateAction::ClearScreen { occasion: ClearOccasion::Retry, .. } => 2,
        CalibrateAction::ClearScreen { occasion: ClearOccasion::End, .. } => 1,
        CalibrateAction::Calculate { .. } => 0,
        CalibrateAction::Run => 0,
        CalibrateAction::Finished(_) => 0,
    }
}

/// The rest of a calibration from an action on. Every action is performed and
/// reported: each run finds the next of `worlds`, and each computation gives
/// the next of `answers`. It goes on until the calibration is finished, or asks
/// for a run or a computation of which there are none left.
pub open spec fn calibrate_on<SPIError, CSError, C>(
    driver: DriverModel,
    session: CalibrationSession,
    action: CalibrateAction<SPIError, CSError, C>,
    worlds: Seq<Surroundings<SPIError, CSError>>,
    answers: Seq<Result<CalibrationData, C>>,
) -> (DriverModel, CalibrateAction<SPIError, CSError, C>)
    decreases worlds.len() + answers.len(), reports_left(action),
{
    match action {
        CalibrateAction::ClearScreen { occasion, .. } => {
            let (driver, session, next) = calibrate_step::<SPIError, CSError, C>(
                driver,
                session,
                CalibrateEvent::ScreenCleared { occasion },
            );
            calibrate_on(driver, session, next, worlds, answers)
        },
        CalibrateAction::DrawTarget { .. } => {
            let (driver, session, next) = calibrate_step::<SPIError, CSError, C>(
                driver,
                session,
                CalibrateEvent::TargetDrawn,
            );
            calibrate_on(driver, session, next, worlds, answers)
        },
        CalibrateAction::DelayMs(_) => {
            let (driver, session, next) = calibrate_step::<SPIError, CSError, C>(
                driver,
                session,
                CalibrateEvent::Delayed,
            );
            calibrate_on(driver, session, next, worlds, answers)
        },
        CalibrateAction::Calculate { .. } => if answers.len() == 0 {
            (driver, action)
        } else {
            let (driver, session, next) = calibrate_step::<SPIError, CSError, C>(
                driver,
                session,
                CalibrateEvent::Calculated(answers.first()),
            );
            calibrate_on(driver, session, next, worlds, answers.drop_first())
        },
        CalibrateAction::Run => if worlds.len() == 0 {
            (driver, action)
        } else {
            let (driver, result) = whole_run::<SPIError, CSError, C>(driver, worlds.first());
            let (driver, session, next) = calibrate_step::<SPIError, CSError, C>(
                driver,
                session,
                CalibrateEvent::Ran(result),
            );
            calibrate_on(driver, session, next, worlds.drop_first(), answers)
        },
        CalibrateAction::Finished(_) => (driver, action),
    }
}

/// A whole calibration.
pub open spec fn whole_calibration<SPIError, CSError, C>(
    start: DriverModel,
    worlds: Seq<Surroundings<SPIError, CSError>>,
    answers: Seq<Result<CalibrationData, C>>,
) -> (DriverModel, CalibrateAction<SPIError, CSError, C>) {
    let (driver, session, action) = calibrate_step::<SPIError, CSError, C>(
        start,
        fresh_session(start),
        CalibrateEvent::Start,
    );
    calibrate_on(driver, session, action, worlds, answers)
}

/// What the runs of a touch find, for a driver in the given state: an idle one
/// still has to see the touch arrive, and only one that does not report a
/// touch has to see it confirmed.
pub open spec fn touch_worlds<SPIError, CSError>(
    state: TouchScreenState,
    touch: TargetTouch<SPIError, CSError>,
) -> Seq<Surroundings<SPIError, CSError>> {
    let arrival = if state is IDLE {
        seq![touch.arrival]
    } else {
        seq![]
    };
    let confirmation = if state is TOUCHED {
        seq![]
    } else {
        seq![touch.confirmation]
    };
    arrival + confirmation + touch.duration + seq![touch.release] + seq![touch.rest]
}

/// What the runs of an attempt find, for a driver in the given state.
pub open spec fn attempt_worlds<SPIError, CSError>(
    state: TouchScreenState,
    attempt: Attempt<SPIError, CSError>,
) -> Seq<Surroundings<SPIError, CSError>> {
    touch_worlds(state, attempt.first) + touch_worlds(TouchScreenState::IDLE, attempt.second)
        + touch_worlds(TouchScreenState::IDLE, attempt.third)
}

/// The state in which the first target of an attempt is drawn for the first
/// time: what the rounds before have left, and after a failed attempt that the
/// pin is low.
pub open spec fn state_at_attempt<SPIError, CSError>(
    start: DriverModel,
    leading: Seq<Surroundings<SPIError, CSError>>,
    failures: nat,
) -> TouchScreenState {
    if failures > 0 {
        TouchScreenState::PRESAMPLING
    } else if leading.len() > 0 {
        TouchScreenState::IDLE
    } else {
        start.state
    }
}

/// What the runs of some failed attempts find.
pub open spec fn failure_worlds<SPIError, CSError, C>(
    start: DriverModel,
    leading: Seq<Surroundings<SPIError, CSError>>,
    failures: Seq<FailedAttempt<SPIError, CSError, C>>,
) -> Seq<Surroundings<SPIError, CSError>>
    decreases failures.len(),
{
    if failures.len() == 0 {
        seq![]
    } else {
        let earlier = failures.drop_last();
        failure_worlds(start, leading, earlier) + attempt_worlds(
            state_at_attempt(start, leading, earlier.len()),
            failures.last().attempt,
        ) + seq![failures.last().run]
    }
}

/// What the computations of some failed attempts give.
pub open spec fn failure_answers<SPIError, CSError, C>(
    failures: Seq<FailedAttempt<SPIError, CSError, C>>,
) -> Seq<Result<CalibrationData, C>> {
    Seq::new(failures.len(), |i: int| Err(failures[i].reason))
}

/// A calibration always gets on: each report of an action that is neither a
/// run nor the computation brings it closer to one of these or to its end,
/// which it comes to after at most four such reports.
pub proof fn calibration_gets_on<SPIError, CSError, C>(
    driver: DriverModel,
    session: CalibrationSession,
)
    ensures
        ({
            let next = |event: CalibrateEvent<SPIError, CSError, C>|
                calibrate_step::<SPIError, CSError, C>(driver, session, event).2;
            &&& next(CalibrateEvent::Start) is ClearScreen
            &&& reports_left(next(CalibrateEvent::TargetDrawn)) <= 2
            &&& next(CalibrateEvent::TargetDrawn) is Run || next(CalibrateEvent::TargetDrawn) is DelayMs
            &&& next(CalibrateEvent::Delayed) is Run
            &&& next(CalibrateEvent::ScreenCleared { occasion: ClearOccasion::Retry }) is Run
            &&& next(CalibrateEvent::ScreenCleared { occasion: ClearOccasion::End }) is Finished
            &&& reports_left(
                next(CalibrateEvent::ScreenCleared { occasion: ClearOccasion::Beginning }),
            ) <= 3
        }),
{
}

/// A drawn target, its report, the delay if there is one, and the run make up
/// a round.
proof fn round_is_followed<SPIError, CSError, C>(
    driver: DriverModel,
    session: CalibrationSession,
    action: CalibrateAction<SPIError, CSError, C>,
    world: Surroundings<SPIError, CSError>,
    rest: Seq<Surroundings<SPIError, CSError>>,
    answers: Seq<Result<CalibrationData, C>>,
)
    requires
        action is DrawTarget,
    ensures
        ({
            let (after, noted, next) = round::<SPIError, CSError, C>(driver, session, world);
            calibrate_on(driver, session, action, seq![world] + rest, answers) == calibrate_on(
                after,
                noted,
                next,
                rest,
                answers,
            )
        }),
{
    let worlds = seq![world] + rest;
    assert(worlds.drop_first() =~= rest);
    assert(worlds.first() == world);
    reveal_with_fuel(calibrate_on, 4);
}

/// The action that draws the target that is up.
pub open spec fn drawing<SPIError, CSError, C>(
    session: CalibrationSession,
) -> CalibrateAction<SPIError, CSError, C> {
    CalibrateAction::DrawTarget {
        target: if session.calibration_count == 0 {
            session.targets.a
        } else if session.calibration_count == 1 {
            session.targets.b
        } else {
            session.targets.c
        },
    }
}

/// While a touch lasts the calibration goes through one round after the other.
proof fn lasting_touch_makes_rounds<SPIError, CSError, C>(
    driver: DriverModel,
    session: CalibrationSession,
    worlds: Seq<Surroundings<SPIError, CSError>>,
    rest: Seq<Surroundings<SPIError, CSError>>,
    answers: Seq<Result<CalibrationData, C>>,
)
    requires
        driver.state is TOUCHED,
        driver.mode is CALIBRATION,
        session.calibration_count < TARGET_COUNT,
        forall|i: int|
            0 <= i < worlds.len() ==> nothing_fails(#[trigger] worlds[i]) && worlds[i].level == Ok::<
                bool,
                CSError,
            >(true),
    ensures
        ({
            let (after, noted) = rounds::<SPIError, CSError, C>(driver, session, worlds);
            calibrate_on(
                driver,
                session,
                drawing::<SPIError, CSError, C>(session),
                worlds + rest,
                answers,
            ) == calibrate_on(
                after,
                noted,
                drawing::<SPIError, CSError, C>(noted),
                rest,
                answers,
            )
        }),
    decreases worlds.len(),
{
    if worlds.len() == 0 {
        assert(worlds + rest =~= rest);
    } else {
        let shorter = worlds.drop_last();
        let world = worlds.last();
        assert forall|i: int| 0 <= i < shorter.len() implies nothing_fails(#[trigger] shorter[i])
            && shorter[i].level == Ok::<bool, CSError>(true) by {
            assert(shorter[i] == worlds[i]);
        }
        assert(worlds + rest =~= shorter + (seq![world] + rest));
        lasting_touch_makes_rounds::<SPIError, CSError, C>(
            driver,
            session,
            shorter,
            seq![world] + rest,
            answers,
        );
        lasting_touch_is_followed::<SPIError, CSError, C>(driver, session, shorter);
        let (middle, noted) = rounds::<SPIError, CSError, C>(driver, session, shorter);
        assert(nothing_fails(worlds[worlds.len() - 1]));
        run_has_this_outcome::<SPIError, CSError, C>(middle, world);
        round_is_followed::<SPIError, CSError, C>(
            middle,
            noted,
            drawing(noted),
            world,
            rest,
            answers,
        );
    }
}

/// The runs of a touch take the calibration through the rounds of that touch.
proof fn touch_makes_rounds<SPIError, CSError, C>(
    driver: DriverModel,
    session: CalibrationSession,
    touch: TargetTouch<SPIError, CSError>,
    rest: Seq<Surroundings<SPIError, CSError>>,
    answers: Seq<Result<CalibrationData, C>>,
)
    requires
        ready_for(driver, touch),
        driver.mode is CALIBRATION,
        session.calibration_count < TARGET_COUNT,
        touch.valid(),
    ensures
        ({
            let (after, noted, action) = touch_rounds::<SPIError, CSError, C>(
                driver,
                session,
                touch,
            );
            calibrate_on(
                driver,
                session,
                drawing::<SPIError, CSError, C>(session),
                touch_worlds(driver.state, touch) + rest,
                answers,
            ) == calibrate_on(after, noted, action, rest, answers)
        }),
{
    reveal(touch_rounds);
    let resting = seq![touch.rest] + rest;
    let releasing = seq![touch.release] + resting;
    let lasting = touch.duration + releasing;
    let confirming = seq![touch.confirmation] + lasting;
    let arriving = seq![touch.arrival] + confirming;
    let worlds = touch_worlds(driver.state, touch) + rest;
    let (d1, s1) = if driver.state is IDLE {
        assert(worlds =~= arriving);
        let (d1, s1, _) = round::<SPIError, CSError, C>(driver, session, touch.arrival);
        round_is_followed::<SPIError, CSError, C>(
            driver,
            session,
            drawing(session),
            touch.arrival,
            confirming,
            answers,
        );
        (d1, s1)
    } else {
        (driver, session)
    };
    run_has_this_outcome::<SPIError, CSError, C>(driver, touch.arrival);
    assert(d1.state is PRESAMPLING || d1 == driver);
    let (d2, s2) = if d1.state is PRESAMPLING {
        if driver.state is PRESAMPLING {
            assert(worlds =~= confirming);
        }
        let (d2, s2, _) = round::<SPIError, CSError, C>(d1, s1, touch.confirmation);
        round_is_followed::<SPIError, CSError, C>(
            d1,
            s1,
            drawing(s1),
            touch.confirmation,
            lasting,
            answers,
        );
        (d2, s2)
    } else {
        assert(worlds =~= lasting);
        (d1, s1)
    };
    run_has_this_outcome::<SPIError, CSError, C>(d1, touch.confirmation);
    assert(d2.state is TOUCHED);
    assert(s2 == (CalibrationSession { ran: s2.ran, ..session }));
    let (d3, s3) = rounds::<SPIError, CSError, C>(d2, s2, touch.duration);
    lasting_touch_is_followed::<SPIError, CSError, C>(d2, s2, touch.duration);
    lasting_touch_makes_rounds::<SPIError, CSError, C>(d2, s2, touch.duration, releasing, answers);
    let (d4, s4, a4) = round::<SPIError, CSError, C>(d3, s3, touch.release);
    run_has_this_outcome::<SPIError, CSError, C>(d3, touch.release);
    round_is_followed::<SPIError, CSError, C>(
        d3,
        s3,
        drawing(s3),
        touch.release,
        resting,
        answers,
    );
    assert(a4 == drawing::<SPIError, CSError, C>(s4));
    round_is_followed::<SPIError, CSError, C>(d4, s4, drawing(s4), touch.rest, rest, answers);
}

/// The runs of an attempt take the calibration to the computation.
proof fn attempt_makes_rounds<SPIError, CSError, C>(
    driver: DriverModel,
    session: CalibrationSession,
    attempt: Attempt<SPIError, CSError>,
    rest: Seq<Surroundings<SPIError, CSError>>,
    answers: Seq<Result<CalibrationData, C>>,
)
    requires
        ready_for(driver, attempt.first),
        driver.mode is CALIBRATION,
        session.calibration_count == 0,
        attempt.valid(),
    ensures
        ({
            let (after, noted, action) = attempted::<SPIError, CSError, C>(
                driver,
                session,
                attempt,
            );
            calibrate_on(
                driver,
                session,
                drawing::<SPIError, CSError, C>(session),
                attempt_worlds(driver.state, attempt) + rest,
                answers,
            ) == calibrate_on(after, noted, action, rest, answers)
        }),
{
    reveal(attempted);
    let third = touch_worlds(TouchScreenState::IDLE, attempt.third) + rest;
    let second = touch_worlds(TouchScreenState::IDLE, attempt.second) + third;
    assert(attempt_worlds(driver.state, attempt) + rest =~= touch_worlds(
        driver.state,
        attempt.first,
    ) + second);
    let (d1, s1, _) = touch_rounds::<SPIError, CSError, C>(driver, session, attempt.first);
    touch_is_measured_for_the_target::<SPIError, CSError, C>(driver, session, attempt.first);
    touch_makes_rounds::<SPIError, CSError, C>(driver, session, attempt.first, second, answers);
    let (d2, s2, _) = touch_rounds::<SPIError, CSError, C>(d1, s1, attempt.second);
    touch_is_measured_for_the_target::<SPIError, CSError, C>(d1, s1, attempt.second);
    touch_makes_rounds::<SPIError, CSError, C>(d1, s1, attempt.second, third, answers);
    touch_makes_rounds::<SPIError, CSError, C>(d2, s2, attempt.third, rest, answers);
}

/// A calibration starts by clearing the screen and drawing its first target,
/// and then goes through the rounds before that target can be touched.
proof fn beginning_makes_rounds<SPIError, CSError, C>(
    start: DriverModel,
    leading: Seq<Surroundings<SPIError, CSError>>,
    touch: TargetTouch<SPIError, CSError>,
    rest: Seq<Surroundings<SPIError, CSError>>,
    answers: Seq<Result<CalibrationData, C>>,
)
    requires
        leads_to(start, leading, touch),
    ensures
        ({
            let (driver, session) = begun::<SPIError, CSError, C>(start, leading);
            whole_calibration(start, leading + rest, answers) == calibrate_on(
                driver,
                session,
                drawing::<SPIError, CSError, C>(session),
                rest,
                answers,
            )
        }),
{
    let driver = DriverModel { mode: TouchScreenOperationMode::CALIBRATION, ..start };
    let session = fresh_session(start);
    let worlds = leading + rest;
    assert(whole_calibration(start, worlds, answers) == calibrate_on(
        driver,
        session,
        drawing::<SPIError, CSError, C>(session),
        worlds,
        answers,
    )) by {
        reveal_with_fuel(calibrate_on, 2);
    }
    let empty = Seq::<Surroundings<SPIError, CSError>>::empty();
    if leading.len() == 0 {
        assert(worlds =~= rest);
    } else {
        assert(nothing_fails(leading[0]));
        let (d1, s1, a1) = round::<SPIError, CSError, C>(driver, session, leading[0]);
        run_has_this_outcome::<SPIError, CSError, C>(driver, leading[0]);
        assert(s1 == (CalibrationSession { ran: true, ..session }));
        assert(a1 == drawing::<SPIError, CSError, C>(s1));
        assert(seq![leading[0]].drop_last() =~= empty);
        let later = worlds.drop_first();
        assert(worlds =~= seq![leading[0]] + later);
        round_is_followed::<SPIError, CSError, C>(
            driver,
            session,
            drawing(session),
            leading[0],
            later,
            answers,
        );
        reveal_with_fuel(rounds, 3);
        if leading.len() == 1 {
            assert(leading =~= seq![leading[0]]);
            assert(later =~= rest);
        } else {
            assert(nothing_fails(leading[1]));
            assert(leading.drop_last() =~= seq![leading[0]]);
            assert(later =~= seq![leading[1]] + rest);
            let (d2, s2, a2) = round::<SPIError, CSError, C>(d1, s1, leading[1]);
            run_has_this_outcome::<SPIError, CSError, C>(d1, leading[1]);
            assert(a2 == drawing::<SPIError, CSError, C>(s2));
            round_is_followed::<SPIError, CSError, C>(
                d1,
                s1,
                drawing(s1),
                leading[1],
                rest,
                answers,
            );
        }
    }
}

/// Each failed attempt takes the calibration to the beginning of the next one.
proof fn failures_make_attempts<SPIError, CSError, C>(
    start: DriverModel,
    leading: Seq<Surroundings<SPIError, CSError>>,
    failures: Seq<FailedAttempt<SPIError, CSError, C>>,
    attempt: Attempt<SPIError, CSError>,
    rest: Seq<Surroundings<SPIError, CSError>>,
    answers: Seq<Result<CalibrationData, C>>,
)
    requires
        failures.len() <= CALIBRATION_RETRIES,
        only_calculations_fail(failures),
        leads_to(start, leading, first_touch(failures, attempt)),
    ensures
        ({
            let (driver, session) = after_failures(start, leading, failures);
            &&& driver.state == state_at_attempt(start, leading, failures.len())
            &&& whole_calibration(
                start,
                leading + (failure_worlds(start, leading, failures) + rest),
                failure_answers(failures) + answers,
            ) == calibrate_on(
                driver,
                session,
                drawing::<SPIError, CSError, C>(session),
                rest,
                answers,
            )
        }),
    decreases failures.len(),
{
    if failures.len() == 0 {
        first_target_is_shown::<SPIError, CSError, C>(start, leading, attempt.first);
        beginning_makes_rounds::<SPIError, CSError, C>(
            start,
            leading,
            attempt.first,
            rest,
            answers,
        );
        assert(failure_worlds(start, leading, failures) + rest =~= rest);
        assert(failure_answers(failures) + answers =~= answers);
    } else {
        let earlier = failures.drop_last();
        let failure = failures.last();
        assert forall|i: int| 0 <= i < earlier.len() implies (
        #[trigger] earlier[i]).attempt.valid() && nothing_fails(earlier[i].run) by {
            assert(earlier[i] == failures[i]);
        }
        assert(first_touch(earlier, failure.attempt) == first_touch(failures, attempt));
        assert(failures[failures.len() - 1].attempt.valid());
        let state = state_at_attempt(start, leading, earlier.len());
        let retrying = seq![failure.run] + rest;
        let attempting = attempt_worlds(state, failure.attempt) + retrying;
        let reasons = seq![Err::<CalibrationData, C>(failure.reason)] + answers;
        failures_make_attempts(start, leading, earlier, failure.attempt, attempting, reasons);
        failed_attempt_is_followed_by_another(start, leading, earlier, failure.attempt);
        assert(failure_worlds(start, leading, failures) + rest =~= failure_worlds(
            start,
            leading,
            earlier,
        ) + attempting);
        assert(failure_answers(failures) + answers =~= failure_answers(earlier) + reasons);
        let (d1, s1) = after_failures(start, leading, earlier);
        let (d2, s2, a2) = attempted::<SPIError, CSError, C>(d1, s1, failure.attempt);
        attempt_leads_to_the_calculation::<SPIError, CSError, C>(d1, s1, failure.attempt);
        attempt_makes_rounds::<SPIError, CSError, C>(d1, s1, failure.attempt, retrying, reasons);
        run_has_this_outcome::<SPIError, CSError, C>(d2, failure.run);
        let (d3, s3, a3) = retried(d2, s2, failure.reason, failure.run);
        assert(d3.state is PRESAMPLING);
        assert(a3 == drawing::<SPIError, CSError, C>(s3));
        assert(reasons.first() == Err::<CalibrationData, C>(failure.reason));
        assert(reasons.drop_first() =~= answers);
        assert(retrying.first() == failure.run);
        assert(retrying.drop_first() =~= rest);
        assert(calibrate_on(d2, s2, a2, retrying, reasons) == calibrate_on(
            d3,
            s3,
            a3,
            rest,
            answers,
        )) by {
            reveal_with_fuel(calibrate_on, 4);
        }
    }
}

/// A whole calibration in which, after up to three attempts whose computation
/// fails, the three targets are touched in turn and coefficients are computed
/// comes to its end and returns these coefficients. The driver then has them,
/// is in normal mode and waits for a touch, and its targets are the three touch
/// points of the last attempt.
pub proof fn whole_calibration_returns_the_coefficients<SPIError, CSError, C>(
    start: DriverModel,
    leading: Seq<Surroundings<SPIError, CSError>>,
    failures: Seq<FailedAttempt<SPIError, CSError, C>>,
    attempt: Attempt<SPIError, CSError>,
    data: CalibrationData,
)
    requires
        failures.len() <= CALIBRATION_RETRIES,
        only_calculations_fail(failures),
        attempt.valid(),
        leads_to(start, leading, first_touch(failures, attempt)),
    ensures
        ({
            let (after, action) = whole_calibration(
                start,
                leading + (failure_worlds(start, leading, failures) + attempt_worlds(
                    state_at_attempt(start, leading, failures.len()),
                    attempt,
                )),
                failure_answers(failures) + seq![Ok::<CalibrationData, C>(data)],
            );
            &&& action == CalibrateAction::<SPIError, CSError, C>::Finished(Ok(data))
            &&& after.data == data
            &&& after.mode is NORMAL
            &&& after.state is IDLE
            &&& after.tx == start.tx
            &&& after.point == (CalibrationPoint {
                a: half_way(attempt.first.raw()),
                b: half_way(attempt.second.raw()),
                c: half_way(attempt.third.raw()),
            })
        }),
{
    let empty = Seq::<Surroundings<SPIError, CSError>>::empty();
    let worlds = attempt_worlds(state_at_attempt(start, leading, failures.len()), attempt);
    let answers = seq![Ok::<CalibrationData, C>(data)];
    failures_make_attempts(start, leading, failures, attempt, worlds, answers);
    failed_attempt_is_followed_by_another(start, leading, failures, attempt);
    let (d1, s1) = after_failures(start, leading, failures);
    assert(worlds + empty =~= worlds);
    attempt_leads_to_the_calculation::<SPIError, CSError, C>(d1, s1, attempt);
    attempt_makes_rounds::<SPIError, CSError, C>(d1, s1, attempt, empty, answers);
    assert(answers.first() == Ok::<CalibrationData, C>(data));
    reveal_with_fuel(calibrate_on, 3);
}

/// A whole calibration whose computation fails four times comes to its end with
/// the reason of the fourth failure. The driver keeps its coefficients and
/// stays in calibration mode.
pub proof fn whole_calibration_gives_up_after_four_failures<SPIError, CSError, C>(
    start: DriverModel,
    leading: Seq<Surroundings<SPIError, CSError>>,
    failures: Seq<FailedAttempt<SPIError, CSError, C>>,
    attempt: Attempt<SPIError, CSError>,
    reason: C,
)
    requires
        failures.len() == 3,
        only_calculations_fail(failures),
        attempt.valid(),
        leads_to(start, leading, first_touch(failures, attempt)),
    ensures
        ({
            let (after, action) = whole_calibration(
                start,
                leading + (failure_worlds(start, leading, failures) + attempt_worlds(
                    state_at_attempt(start, leading, failures.len()),
                    attempt,
                )),
                failure_answers(failures) + seq![Err::<CalibrationData, C>(reason)],
            );
            &&& action == CalibrateAction::<SPIError, CSError, C>::Finished(
                Err(Error::Calibration(reason)),
            )
            &&& after.data == start.data
            &&& after.mode is CALIBRATION
            &&& after.tx == start.tx
        }),
{
    let empty = Seq::<Surroundings<SPIError, CSError>>::empty();
    let worlds = attempt_worlds(state_at_attempt(start, leading, failures.len()), attempt);
    let answers = seq![Err::<CalibrationData, C>(reason)];
    failures_make_attempts(start, leading, failures, attempt, worlds, answers);
    failed_attempt_is_followed_by_another(start, leading, failures, attempt);
    let (d1, s1) = after_failures(start, leading, failures);
    assert(worlds + empty =~= worlds);
    attempt_leads_to_the_calculation::<SPIError, CSError, C>(d1, s1, attempt);
    attempt_makes_rounds::<SPIError, CSError, C>(d1, s1, attempt, empty, answers);
    assert(answers.first() == Err::<CalibrationData, C>(reason));
    reveal_with_fuel(calibrate_on, 2);
}

} // verus!
