//! Whole runs of the driver, and the course of a touch.

use vstd::prelude::*;

use crate::calibration::CalibrationData;
use crate::driver::DriverModel;
use crate::driver::RunAction;
use crate::driver::RunEvent;
use crate::driver::TX_BUFF_LEN;
use crate::driver::TouchScreenState;
use crate::driver::advanced;
use crate::driver::raw_point;
use crate::driver::run_step;
use crate::error::BusError;
use crate::error::Error;
use crate::geometry::Point;

verus! {

/// All that a run can come to know from outside.
pub struct Surroundings<SPIError, CSError> {
    /// How waiting for the interrupt pin ends
    pub waited: Result<(), CSError>,
    /// What a transfer leaves in the receive buffer
    pub rx: [u8; TX_BUFF_LEN],
    /// How a transfer ends
    pub transferred: Result<(), SPIError>,
    /// What the coefficients make of a raw measurement
    pub compensate: spec_fn(Point, CalibrationData) -> Point,
    /// Whether the interrupt pin is low
    pub level: Result<bool, CSError>,
}

/// How many events a run can still come to, this one included.
pub open spec fn events_left<SPIError, CSError>(event: RunEvent<SPIError, CSError>) -> nat {
    match event {
        RunEvent::Start => 4,
        RunEvent::Transferred { .. } => 3,
        RunEvent::Compensated { .. } => 2,
        RunEvent::LowAwaited(_) => 1,
        RunEvent::LevelRead { .. } => 1,
    }
}

/// The rest of a run, from an event to its result.
pub open spec fn run_on<SPIError, CSError, C>(
    before: DriverModel,
    event: RunEvent<SPIError, CSError>,
    world: Surroundings<SPIError, CSError>,
) -> (DriverModel, Result<(), Error<BusError<SPIError, CSError>, C>>)
    decreases events_left(event),
{
    let (after, action) = run_step::<SPIError, CSError, C>(before, event);
    match action {
        RunAction::AwaitLow => run_on(after, RunEvent::LowAwaited(world.waited), world),
        RunAction::Transfer { .. } => run_on(
            after,
            RunEvent::Transferred { rx: world.rx, outcome: world.transferred },
            world,
        ),
        RunAction::Compensate { raw, data } => run_on(
            after,
            RunEvent::Compensated { point: (world.compensate)(raw, data) },
            world,
        ),
        RunAction::ReadLevel { point } => run_on(
            after,
            RunEvent::LevelRead { point, is_low: world.level },
            world,
        ),
        RunAction::Finished(result) => (after, result),
    }
}

/// A whole run: every action is performed and reported, until there is a
/// result.
pub open spec fn whole_run<SPIError, CSError, C>(
    before: DriverModel,
    world: Surroundings<SPIError, CSError>,
) -> (DriverModel, Result<(), Error<BusError<SPIError, CSError>, C>>) {
    run_on::<SPIError, CSError, C>(before, RunEvent::Start, world)
}

/// Some runs one after the other.
pub open spec fn runs<SPIError, CSError, C>(
    before: DriverModel,
    worlds: Seq<Surroundings<SPIError, CSError>>,
) -> DriverModel
    decreases worlds.len(),
{
    if worlds.len() == 0 {
        before
    } else {
        whole_run::<SPIError, CSError, C>(
            runs::<SPIError, CSError, C>(before, worlds.drop_last()),
            worlds.last(),
        ).0
    }
}

/// The point that a run measures: raw while a calibration is running, and
/// otherwise what the coefficients make of it.
pub open spec fn measured_point<SPIError, CSError>(
    driver: DriverModel,
    world: Surroundings<SPIError, CSError>,
) -> Point {
    if driver.mode is CALIBRATION {
        raw_point(world.rx)
    } else {
        (world.compensate)(raw_point(world.rx), driver.data)
    }
}

/// Nothing fails that a run may ask for.
pub open spec fn nothing_fails<SPIError, CSError>(world: Surroundings<SPIError, CSError>) -> bool {
    world.waited is Ok && world.transferred is Ok && world.level is Ok
}

/// What a run comes to. A waiting driver does nothing but wait for the pin.
/// Any other driver makes a transfer, then reads the pin, and then moves along.
pub open spec fn run_outcome<SPIError, CSError, C>(
    before: DriverModel,
    world: Surroundings<SPIError, CSError>,
) -> (DriverModel, Result<(), Error<BusError<SPIError, CSError>, C>>) {
    if before.state is IDLE {
        match world.waited {
            Ok(()) => (DriverModel { state: TouchScreenState::PRESAMPLING, ..before }, Ok(())),
            Err(e) => (before, Err(Error::Bus(BusError::Pin(e)))),
        }
    } else {
        let received = DriverModel { rx: world.rx, ..before };
        match (world.transferred, world.level) {
            (Err(e), _) => (received, Err(Error::Bus(BusError::Spi(e)))),
            (Ok(()), Err(e)) => (received, Err(Error::Bus(BusError::Pin(e)))),
            (Ok(()), Ok(is_low)) => (
                advanced(received, measured_point(before, world), is_low),
                Ok(()),
            ),
        }
    }
}

/// A run always comes to a result, and this is what it comes to.
pub proof fn run_has_this_outcome<SPIError, CSError, C>(
    before: DriverModel,
    world: Surroundings<SPIError, CSError>,
)
    ensures
        whole_run::<SPIError, CSError, C>(before, world) == run_outcome::<SPIError, CSError, C>(
            before,
            world,
        ),
{
    reveal_with_fuel(run_on, 4);
}

/// A run fails exactly if what it asks for fails: waiting for the pin if the
/// driver is waiting for a touch, and otherwise the transfer or reading the pin.
/// The failure is then one of the hardware.
pub proof fn run_fails_only_with_the_hardware<SPIError, CSError, C>(
    before: DriverModel,
    world: Surroundings<SPIError, CSError>,
)
    ensures
        whole_run::<SPIError, CSError, C>(before, world).1 is Err <==> (if before.state is IDLE {
            world.waited is Err
        } else {
            world.transferred is Err || world.level is Err
        }),
        whole_run::<SPIError, CSError, C>(before, world).1 matches Err(e) ==> e is Bus,
{
    run_has_this_outcome::<SPIError, CSError, C>(before, world);
}

/// A failed run leaves the driver as it was, but for the receive buffer.
pub proof fn failed_run_changes_nothing<SPIError, CSError, C>(
    before: DriverModel,
    world: Surroundings<SPIError, CSError>,
)
    requires
        whole_run::<SPIError, CSError, C>(before, world).1 is Err,
    ensures
        ({
            let after = whole_run::<SPIError, CSError, C>(before, world).0;
            after == (DriverModel { rx: after.rx, ..before })
        }),
{
    run_has_this_outcome::<SPIError, CSError, C>(before, world);
}

/// No run touches the transmit buffer, the coefficients, the mode or the
/// calibration targets.
pub proof fn run_keeps_the_settings<SPIError, CSError, C>(
    before: DriverModel,
    world: Surroundings<SPIError, CSError>,
)
    ensures
        ({
            let after = whole_run::<SPIError, CSError, C>(before, world).0;
            &&& after.tx == before.tx
            &&& after.data == before.data
            &&& after.mode == before.mode
            &&& after.point == before.point
        }),
{
    run_has_this_outcome::<SPIError, CSError, C>(before, world);
}

/// While a calibration is running the coefficients play no part in a run.
pub proof fn calibrating_run_is_raw<SPIError, CSError, C>(
    before: DriverModel,
    data: CalibrationData,
    world: Surroundings<SPIError, CSError>,
    compensate: spec_fn(Point, CalibrationData) -> Point,
)
    requires
        before.mode is CALIBRATION,
    ensures
        ({
            let (after, result) = whole_run::<SPIError, CSError, C>(before, world);
            whole_run::<SPIError, CSError, C>(
                DriverModel { data, ..before },
                Surroundings { compensate, ..world },
            ) == (DriverModel { data, ..after }, result)
        }),
{
    run_has_this_outcome::<SPIError, CSError, C>(before, world);
    run_has_this_outcome::<SPIError, CSError, C>(
        DriverModel { data, ..before },
        Surroundings { compensate, ..world },
    );
}

/// A driver that waits for a touch reports it with the second run, with the
/// point measured in that run, whatever the level of the pin by then.
pub proof fn touch_is_reported<SPIError, CSError, C>(
    before: DriverModel,
    first: Surroundings<SPIError, CSError>,
    second: Surroundings<SPIError, CSError>,
)
    requires
        before.state is IDLE,
        nothing_fails(first),
        nothing_fails(second),
    ensures
        !(runs::<SPIError, CSError, C>(before, seq![first]).state is TOUCHED),
        runs::<SPIError, CSError, C>(before, seq![first, second]).state is TOUCHED,
        runs::<SPIError, CSError, C>(before, seq![first, second]).sample == measured_point(
            before,
            second,
        ),
{
    let middle = whole_run::<SPIError, CSError, C>(before, first).0;
    run_has_this_outcome::<SPIError, CSError, C>(before, first);
    run_has_this_outcome::<SPIError, CSError, C>(middle, second);
    assert(seq![first].drop_last() =~= Seq::empty());
    assert(seq![first, second].drop_last() =~= seq![first]);
    reveal_with_fuel(runs, 3);
}

/// A touch lasts as long as the pin stays low, and the sample is always that
/// of the last run.
pub proof fn touch_lasts<SPIError, CSError, C>(
    before: DriverModel,
    worlds: Seq<Surroundings<SPIError, CSError>>,
)
    requires
        before.state is TOUCHED,
        forall|i: int|
            0 <= i < worlds.len() ==> nothing_fails(#[trigger] worlds[i]) && worlds[i].level == Ok::<
                bool,
                CSError,
            >(true),
    ensures
        runs::<SPIError, CSError, C>(before, worlds).state is TOUCHED,
        runs::<SPIError, CSError, C>(before, worlds).sample == (if worlds.len() == 0 {
            before.sample
        } else {
            measured_point(before, worlds.last())
        }),
        runs::<SPIError, CSError, C>(before, worlds).mode == before.mode,
        runs::<SPIError, CSError, C>(before, worlds).data == before.data,
    decreases worlds.len(),
{
    if worlds.len() > 0 {
        let shorter = worlds.drop_last();
        assert forall|i: int| 0 <= i < shorter.len() implies nothing_fails(#[trigger] shorter[i])
            && shorter[i].level == Ok::<bool, CSError>(true) by {
            assert(shorter[i] == worlds[i]);
        }
        touch_lasts::<SPIError, CSError, C>(before, shorter);
        assert(nothing_fails(worlds[worlds.len() - 1]));
        run_has_this_outcome::<SPIError, CSError, C>(
            runs::<SPIError, CSError, C>(before, shorter),
            worlds.last(),
        );
    }
}

/// A touch ends with the run that finds the pin no longer low. The sample of
/// that run stays, and one run later the driver waits for a touch again.
pub proof fn touch_ends<SPIError, CSError, C>(
    before: DriverModel,
    first: Surroundings<SPIError, CSError>,
    second: Surroundings<SPIError, CSError>,
)
    requires
        before.state is TOUCHED,
        nothing_fails(first),
        first.level == Ok::<bool, CSError>(false),
        nothing_fails(second),
    ensures
        runs::<SPIError, CSError, C>(before, seq![first]).state is RELEASED,
        runs::<SPIError, CSError, C>(before, seq![first]).sample == measured_point(before, first),
        runs::<SPIError, CSError, C>(before, seq![first, second]).state is IDLE,
        runs::<SPIError, CSError, C>(before, seq![first, second]).sample == measured_point(
            before,
            first,
        ),
{
    let middle = whole_run::<SPIError, CSError, C>(before, first).0;
    run_has_this_outcome::<SPIError, CSError, C>(before, first);
    run_has_this_outcome::<SPIError, CSError, C>(middle, second);
    assert(seq![first].drop_last() =~= Seq::empty());
    assert(seq![first, second].drop_last() =~= seq![first]);
    reveal_with_fuel(runs, 3);
}

/// A touch that was cleared is reported again by the next run, with the point
/// measured in that run.
pub proof fn cleared_touch_is_reported_again<SPIError, CSError, C>(
    before: DriverModel,
    world: Surroundings<SPIError, CSError>,
)
    requires
        nothing_fails(world),
    ensures
        ({
            let cleared = DriverModel { state: TouchScreenState::PRESAMPLING, ..before };
            let after = whole_run::<SPIError, CSError, C>(cleared, world).0;
            &&& after.state is TOUCHED
            &&& after.sample == measured_point(before, world)
        }),
{
    run_has_this_outcome::<SPIError, CSError, C>(
        DriverModel { state: TouchScreenState::PRESAMPLING, ..before },
        world,
    );
}

} // verus!
