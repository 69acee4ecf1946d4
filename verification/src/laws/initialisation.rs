//! Initialisation, and what it means for all that follows.

use vstd::prelude::*;

use crate::driver::DriverModel;
use crate::driver::InitAction;
use crate::driver::InitEvent;
use crate::driver::RESET_COMMAND;
use crate::driver::RESET_DELAY_MS;
use crate::driver::RunAction;
use crate::driver::RunEvent;
use crate::driver::TX_BUFF_LEN;
use crate::driver::TouchScreenState;
use crate::driver::calibrate::CalibrateEvent;
use crate::driver::calibrate::CalibrationSession;
use crate::driver::calibrate::calibrate_step;
use crate::driver::init_step;
use crate::driver::is_channel_frame;
use crate::driver::run_step;
use crate::error::BusError;
use crate::error::Error;

verus! {

/// A step of any operation that can follow an initialisation.
pub enum Activity<SPIError, CSError, C> {
    Run(RunEvent<SPIError, CSError>),
    Calibrate(CalibrationSession, CalibrateEvent<SPIError, CSError, C>),
    ClearTouch,
}

/// The driver after some activity, in whatever order it comes.
pub open spec fn after_activity<SPIError, CSError, C>(
    before: DriverModel,
    activity: Seq<Activity<SPIError, CSError, C>>,
) -> DriverModel
    decreases activity.len(),
{
    if activity.len() == 0 {
        before
    } else {
        let driver = after_activity(before, activity.drop_last());
        match activity.last() {
            Activity::Run(event) => run_step::<SPIError, CSError, C>(driver, event).0,
            Activity::Calibrate(session, event) => calibrate_step(driver, session, event).0,
            Activity::ClearTouch => DriverModel { state: TouchScreenState::PRESAMPLING, ..driver },
        }
    }
}

/// There is one transmit buffer that asks for both coordinates.
pub proof fn channel_frame_is_unique(one: [u8; TX_BUFF_LEN], other: [u8; TX_BUFF_LEN])
    requires
        is_channel_frame(one),
        is_channel_frame(other),
    ensures
        one == other,
{
    assert(one =~= other);
}

/// An initialisation first sends the reset command in the place of the first
/// byte of the transmit buffer. If that succeeds it waits, and then loads the
/// transmit buffer with the channel frame. Nothing but the buffers changes.
pub proof fn initialisation_loads_the_channel_frame<SPIError, CSError, C>(
    before: DriverModel,
    started: DriverModel,
    reset: InitAction<SPIError, CSError, C>,
    rx: [u8; TX_BUFF_LEN],
    received: DriverModel,
    delay: InitAction<SPIError, CSError, C>,
    after: DriverModel,
    end: InitAction<SPIError, CSError, C>,
)
    requires
        init_step(before, InitEvent::<SPIError>::Start, started, reset),
        init_step(
            started,
            InitEvent::<SPIError>::Transferred { rx, outcome: Ok(()) },
            received,
            delay,
        ),
        init_step(received, InitEvent::<SPIError>::Delayed, after, end),
    ensures
        reset matches InitAction::Transfer { tx, .. } && tx@ == before.tx@.update(0, RESET_COMMAND),
        delay == InitAction::<SPIError, CSError, C>::DelayMs(RESET_DELAY_MS),
        end == InitAction::<SPIError, CSError, C>::Finished(Ok(())),
        is_channel_frame(after.tx),
        after == (DriverModel { tx: after.tx, rx, ..before }),
{
}

/// An initialisation whose transfer fails ends with that failure, and nothing
/// but the buffers changes: the transmit buffer is left with the reset command.
pub proof fn initialisation_fails_only_with_the_transfer<SPIError, CSError, C>(
    before: DriverModel,
    started: DriverModel,
    reset: InitAction<SPIError, CSError, C>,
    rx: [u8; TX_BUFF_LEN],
    outcome: Result<(), SPIError>,
    received: DriverModel,
    action: InitAction<SPIError, CSError, C>,
)
    requires
        init_step(before, InitEvent::<SPIError>::Start, started, reset),
        init_step(started, InitEvent::<SPIError>::Transferred { rx, outcome }, received, action),
    ensures
        action is Finished <==> outcome is Err,
        outcome matches Err(e) ==> action == InitAction::<SPIError, CSError, C>::Finished(
            Err(Error::Bus(BusError::Spi(e))),
        ),
        received.tx[0] == RESET_COMMAND,
        received == (DriverModel { tx: received.tx, rx, ..before }),
{
}

/// Every initialisation that succeeds leaves the same transmit buffer.
pub proof fn initialisations_agree<SPIError, CSError, C>(
    one_before: DriverModel,
    one: DriverModel,
    one_end: InitAction<SPIError, CSError, C>,
    other_before: DriverModel,
    other: DriverModel,
    other_end: InitAction<SPIError, CSError, C>,
)
    requires
        init_step(one_before, InitEvent::<SPIError>::Delayed, one, one_end),
        init_step(other_before, InitEvent::<SPIError>::Delayed, other, other_end),
    ensures
        one.tx == other.tx,
{
    channel_frame_is_unique(one.tx, other.tx);
}

/// Whatever the driver does, only an initialisation changes the transmit
/// buffer.
pub proof fn activity_keeps_the_transmit_buffer<SPIError, CSError, C>(
    before: DriverModel,
    activity: Seq<Activity<SPIError, CSError, C>>,
)
    ensures
        after_activity(before, activity).tx == before.tx,
    decreases activity.len(),
{
    if activity.len() > 0 {
        activity_keeps_the_transmit_buffer(before, activity.drop_last());
    }
}

/// The channel frame that an initialisation has loaded serves all subsequent
/// reads: whatever the driver has done since, a transfer that it asks for in
/// a run sends that frame.
pub proof fn every_read_sends_the_channel_frame<SPIError, CSError, C>(
    initialised: DriverModel,
    activity: Seq<Activity<SPIError, CSError, C>>,
    event: RunEvent<SPIError, CSError>,
)
    requires
        is_channel_frame(initialised.tx),
    ensures
        run_step::<SPIError, CSError, C>(after_activity(initialised, activity), event).1 matches
            RunAction::Transfer { tx, .. } ==> is_channel_frame(tx),
{
    activity_keeps_the_transmit_buffer(initialised, activity);
}

} // verus!
