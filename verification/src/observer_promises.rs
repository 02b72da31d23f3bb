//! What an observer does at each step, said of its fields and of the observations it hands out.

use crate::observer::{
    after_deliveries, a_pass_is_reported_in_order, ActionModel, EventModel, ObserverModel,
    ObserverPhase,
};
use crate::registration::RegistrationModel;
use crate::turn::TurnModel;
use vstd::prelude::*;

verus! {

/// A new observer is about to make its first pass and has nothing to hand out.
pub proof fn a_new_observer_is_about_to_read(registration: RegistrationModel)
    ensures
        ({
            let observer = ObserverModel::initial(registration);
            &&& observer.registration == registration
            &&& observer.phase == ObserverPhase::Reading
            &&& observer.replay
            &&& observer.outbox.len() == 0
        }),
{
}

/// An observer never turns to another registration.
pub proof fn an_observer_keeps_its_registration(observer: ObserverModel, event: EventModel)
    ensures
        observer.step(event).0.registration == observer.registration,
{
}

/// Each change that a pass found is handed out at its place in the order, for the observer's
/// registration, with its turn, the time of the pass, and as history exactly where it is.
pub proof fn each_change_is_handed_out_as_it_was_found(
    observer: ObserverModel,
    changes: Seq<(TurnModel, bool)>,
    at: int,
    count: nat,
)
    requires
        observer.phase == ObserverPhase::Reading,
        count < changes.len(),
    ensures
        ({
            let passed = observer.step((EventModel::Passed { changes, at }));
            let action = after_deliveries(passed, count).1;
            let observation = action->Send_0;
            &&& action is Send
            &&& observation.registration == observer.registration
            &&& observation.turn == Some(changes[count as int].0)
            &&& observation.replay == changes[count as int].1
            &&& observation.observed_at == at
            &&& !observation.unavailable
        }),
{
    a_pass_is_reported_in_order(observer, changes, at, count);
}

/// Deliveries come one at a time.
pub proof fn deliveries_come_one_at_a_time(step: (ObserverModel, ActionModel), count: nat)
    ensures
        after_deliveries(step, 0) == step,
        after_deliveries(step, count + 1) == after_deliveries(step, count).0.step(
            EventModel::Delivered,
        ),
{
}

/// When everything that a pass found was taken, or it found nothing, the observer rests for a
/// quarter of a second and then reads on, not again from the start.
pub proof fn an_observer_rests_and_reads_on(
    observer: ObserverModel,
    changes: Seq<(TurnModel, bool)>,
    at: int,
)
    requires
        observer.phase == ObserverPhase::Reading,
    ensures
        ({
            let passed = observer.step((EventModel::Passed { changes, at }));
            let resting = after_deliveries(passed, changes.len());
            let reading = resting.0.step(EventModel::Rested);
            &&& resting.1 == (ActionModel::Rest { millis: 250 })
            &&& reading.1 == (ActionModel::Read { replay: false })
            &&& reading.0.phase == ObserverPhase::Reading
        }),
{
    a_pass_is_reported_in_order(observer, changes, at, changes.len());
    lemma_no_more_replay(observer, changes, at, changes.len());
}

/// After a pass, and however many deliveries, the next pass is not the first one.
proof fn lemma_no_more_replay(
    observer: ObserverModel,
    changes: Seq<(TurnModel, bool)>,
    at: int,
    count: nat,
)
    requires
        observer.phase == ObserverPhase::Reading,
    ensures
        !after_deliveries(observer.step((EventModel::Passed { changes, at })), count).0.replay,
    decreases count,
{
    if count > 0 {
        lemma_no_more_replay(observer, changes, at, (count - 1) as nat);
    }
}

/// A pass that failed is told as such, once, for the observer's registration: without a turn, at
/// the time of the failure, and not as history.
pub proof fn a_failed_pass_is_told(observer: ObserverModel, at: int)
    requires
        observer.phase == ObserverPhase::Reading,
    ensures
        ({
            let failed = observer.step((EventModel::Failed { at }));
            let observation = failed.1->Send_0;
            &&& failed.1 is Send
            &&& observation.registration == observer.registration
            &&& observation.turn is None
            &&& observation.observed_at == at
            &&& !observation.replay
            &&& observation.unavailable
            &&& failed.0.step(EventModel::Delivered).1 == ActionModel::Stop
            &&& failed.0.step(EventModel::Closed).1 == ActionModel::Stop
        }),
{
}

/// An event that the observer does not wait for ends it, and once ended it does nothing more.
pub proof fn an_unexpected_event_ends_the_observer(observer: ObserverModel, event: EventModel)
    requires
        observer.phase == ObserverPhase::Reading ==> !(event is Passed) && !(event is Failed),
        observer.phase == ObserverPhase::Reporting ==> !(event is Delivered),
        observer.phase == ObserverPhase::Resting ==> !(event is Rested),
    ensures
        observer.step(event).1 == ActionModel::Stop,
        observer.step(event).0.phase == ObserverPhase::Stopped,
{
}

} // verus!
