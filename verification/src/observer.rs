//! The order in which an observer reads a transcript, reports what it finds and rests.

use crate::reader::changes_model;
use crate::registration::{Observation, ObservationModel, Registration, RegistrationModel};
use crate::time::Timestamp;
use crate::turn::{Turn, TurnModel};
use vstd::prelude::*;

verus! {

/// How long an observer rests between two passes, in milliseconds.
pub const POLL_INTERVAL_MILLIS: u64 = 250;

/// What an observer is waiting for.
#[derive(Debug, Clone, Copy, PartialEq, Eq, Structural)]
pub enum ObserverPhase {
    /// A pass over the transcript.
    Reading,
    /// The delivery of an observation of a turn.
    Reporting,
    /// The end of a rest.
    Resting,
    /// The delivery of the observation that the transcript is lost.
    Releasing,
    /// Nothing any more.
    Stopped,
}

/// What has happened to an observer.
#[derive(Debug)]
pub enum ObserverEvent {
    /// A pass over the transcript found these turn changes, each with whether it is history.
    Passed { changes: Vec<(Turn, bool)>, at: Timestamp },
    /// The transcript could not be opened or read any further.
    Failed { at: Timestamp },
    /// The observation handed out last was taken.
    Delivered,
    /// Nobody takes observations any more.
    Closed,
    /// The rest is over.
    Rested,
}

/// What an observer has to do next.
#[derive(Debug)]
pub enum ObserverAction {
    /// Read what the transcript holds by now.
    Read { replay: bool },
    /// Hand out an observation.
    Send(Observation),
    /// Rest for so many milliseconds.
    Rest { millis: u64 },
    /// End.
    Stop,
}

/// The mathematical value of an [`ObserverEvent`].
pub enum EventModel {
    Passed { changes: Seq<(TurnModel, bool)>, at: int },
    Failed { at: int },
    Delivered,
    Closed,
    Rested,
}

impl View for ObserverEvent {
    type V = EventModel;

    open spec fn view(&self) -> EventModel {
        match self {
            ObserverEvent::Passed { changes, at } => EventModel::Passed {
                changes: changes_model(changes@),
                at: at@,
            },
            ObserverEvent::Failed { at } => EventModel::Failed { at: at@ },
            ObserverEvent::Delivered => EventModel::Delivered,
            ObserverEvent::Closed => EventModel::Closed,
            ObserverEvent::Rested => EventModel::Rested,
        }
    }
}

/// The mathematical value of an [`ObserverAction`].
pub enum ActionModel {
    Read { replay: bool },
    Send(ObservationModel),
    Rest { millis: u64 },
    Stop,
}

impl View for ObserverAction {
    type V = ActionModel;

    open spec fn view(&self) -> ActionModel {
        match self {
            ObserverAction::Read { replay } => ActionModel::Read { replay: *replay },
            ObserverAction::Send(observation) => ActionModel::Send(observation@),
            ObserverAction::Rest { millis } => ActionModel::Rest { millis: *millis },
            ObserverAction::Stop => ActionModel::Stop,
        }
    }
}

/// An observer of the transcript of one registration.
#[derive(Debug)]
pub struct Observer {
    registration: Registration,
    phase: ObserverPhase,
    replay: bool,
    outbox: Vec<Observation>,
}

/// The mathematical value of an [`Observer`].
pub struct ObserverModel {
    pub registration: RegistrationModel,
    pub phase: ObserverPhase,
    /// Whether the next pass is the first one.
    pub replay: bool,
    /// The observations that still have to be handed out, in order.
    pub outbox: Seq<ObservationModel>,
}

/// Observations by value.
pub open spec fn observations_model(observations: Seq<Observation>) -> Seq<ObservationModel> {
    Seq::new(observations.len(), |i: int| observations[i]@)
}

impl View for Observer {
    type V = ObserverModel;

    closed spec fn view(&self) -> ObserverModel {
        ObserverModel {
            registration: self.registration@,
            phase: self.phase,
            replay: self.replay,
            outbox: observations_model(self.outbox@),
        }
    }
}

/// The observation of each of `changes`, in order.
pub open spec fn observed(
    registration: RegistrationModel,
    changes: Seq<(TurnModel, bool)>,
    at: int,
) -> Seq<ObservationModel> {
    Seq::new(
        changes.len(),
        |i: int|
            ObservationModel {
                registration,
                turn: Some(changes[i].0),
                observed_at: at,
                replay: changes[i].1,
                unavailable: false,
            },
    )
}

/// The observation that the transcript can no longer be followed.
pub open spec fn lost(registration: RegistrationModel, at: int) -> ObservationModel {
    ObservationModel { registration, turn: None, observed_at: at, replay: false, unavailable: true }
}

impl ObserverModel {
    /// A new observer of `registration`, about to make its first pass.
    pub open spec fn initial(registration: RegistrationModel) -> ObserverModel {
        ObserverModel {
            registration,
            phase: ObserverPhase::Reading,
            replay: true,
            outbox: Seq::empty(),
        }
    }

    /// Hands out the next observation, or rests where there is none.
    pub open spec fn report(self) -> (ObserverModel, ActionModel) {
        if self.outbox.len() > 0 {
            (
                ObserverModel {
                    phase: ObserverPhase::Reporting,
                    outbox: self.outbox.drop_first(),
                    ..self
                },
                ActionModel::Send(self.outbox[0]),
            )
        } else {
            (
                ObserverModel { phase: ObserverPhase::Resting, ..self },
                ActionModel::Rest { millis: POLL_INTERVAL_MILLIS },
            )
        }
    }

    /// Ends.
    pub open spec fn stop(self) -> (ObserverModel, ActionModel) {
        (ObserverModel { phase: ObserverPhase::Stopped, ..self }, ActionModel::Stop)
    }

    /// The observer after `event`, with what it has to do next. An event that it does not wait
    /// for ends it.
    pub open spec fn step(self, event: EventModel) -> (ObserverModel, ActionModel) {
        match (self.phase, event) {
            (ObserverPhase::Reading, EventModel::Passed { changes, at }) => ObserverModel {
                replay: false,
                outbox: observed(self.registration, changes, at),
                ..self
            }.report(),
            (ObserverPhase::Reading, EventModel::Failed { at }) => (
                ObserverModel { phase: ObserverPhase::Releasing, ..self },
                ActionModel::Send(lost(self.registration, at)),
            ),
            (ObserverPhase::Reporting, EventModel::Delivered) => self.report(),
            (ObserverPhase::Resting, EventModel::Rested) => (
                ObserverModel { phase: ObserverPhase::Reading, ..self },
                ActionModel::Read { replay: self.replay },
            ),
            _ => self.stop(),
        }
    }
}

impl Observer {
    /// An observer of `registration`. Its first action is to read with `replay` set.
    pub fn start(registration: Registration) -> (started: (Observer, ObserverAction))
        ensures
            started.0@ == ObserverModel::initial(registration@),
            started.1@ == (ActionModel::Read { replay: true }),
    {
        let observer = Observer {
            registration,
            phase: ObserverPhase::Reading,
            replay: true,
            outbox: Vec::new(),
        };
        assert(observer@.outbox =~= Seq::empty());
        (observer, ObserverAction::Read { replay: true })
    }

    /// The registration whose transcript is observed.
    pub fn registration(&self) -> (registration: &Registration)
        ensures
            registration@ == self@.registration,
    {
        &self.registration
    }

    /// Takes note of `event` and says what to do next.
    pub fn step(&mut self, event: ObserverEvent) -> (action: ObserverAction)
        ensures
            (final(self)@, action@) == old(self)@.step(event@),
    {
        match (self.phase, event) {
            (ObserverPhase::Reading, ObserverEvent::Passed { changes, at }) => {
                self.replay = false;
                self.outbox = self.observations(&changes, at);
                self.report()
            },
            (ObserverPhase::Reading, ObserverEvent::Failed { at }) => {
                self.phase = ObserverPhase::Releasing;
                ObserverAction::Send(
                    Observation {
                        registration: self.registration.clone(),
                        turn: None,
                        observed_at: at,
                        replay: false,
                        unavailable: true,
                    },
                )
            },
            (ObserverPhase::Reporting, ObserverEvent::Delivered) => self.report(),
            (ObserverPhase::Resting, ObserverEvent::Rested) => {
                self.phase = ObserverPhase::Reading;
                ObserverAction::Read { replay: self.replay }
            },
            _ => {
                self.phase = ObserverPhase::Stopped;
                ObserverAction::Stop
            },
        }
    }

    /// Hands out the next observation, or rests where there is none.
    fn report(&mut self) -> (action: ObserverAction)
        ensures
            (final(self)@, action@) == old(self)@.report(),
    {
        if self.outbox.len() > 0 {
            let ghost waiting = self.outbox@;
            let observation = self.outbox.remove(0);
            self.phase = ObserverPhase::Reporting;
            assert(observations_model(self.outbox@) =~= observations_model(waiting).drop_first());
            ObserverAction::Send(observation)
        } else {
            self.phase = ObserverPhase::Resting;
            ObserverAction::Rest { millis: POLL_INTERVAL_MILLIS }
        }
    }

    /// The observation of each of `changes`, in order.
    fn observations(&self, changes: &Vec<(Turn, bool)>, at: Timestamp) -> (observations: Vec<
        Observation,
    >)
        ensures
            observations_model(observations@) == observed(
                self@.registration,
                changes_model(changes@),
                at@,
            ),
    {
        let mut observations: Vec<Observation> = Vec::new();
        let mut i: usize = 0;
        while i < changes.len()
            invariant
                i <= changes@.len(),
                observations@.len() == i,
                forall|j: int|
                    0 <= j < i ==> #[trigger] observations@[j]@ == observed(
                        self@.registration,
                        changes_model(changes@),
                        at@,
                    )[j],
            decreases changes@.len() - i,
        {
            observations.push(
                Observation {
                    registration: self.registration.clone(),
                    turn: Some(changes[i].0.clone()),
                    observed_at: at,
                    replay: changes[i].1,
                    unavailable: false,
                },
            );
            i = i + 1;
        }
        assert(observations_model(observations@) =~= observed(
            self@.registration,
            changes_model(changes@),
            at@,
        ));
        observations
    }
}

/// Whether an observation reports a turn of `registration`.
pub open spec fn reports_turn(
    registration: RegistrationModel,
    observation: ObservationModel,
) -> bool {
    &&& observation.registration == registration
    &&& observation.turn is Some
    &&& !observation.unavailable
}

/// An observer that hands out turns or rests has its first pass behind it; only one that hands
/// out turns has any left, unless it has ended; and what is left are turns of its registration.
pub open spec fn observer_invariant(observer: ObserverModel) -> bool {
    &&& observer.phase == ObserverPhase::Reporting || observer.phase == ObserverPhase::Resting
        ==> !observer.replay
    &&& observer.phase == ObserverPhase::Reading || observer.phase == ObserverPhase::Resting
        || observer.phase == ObserverPhase::Releasing ==> observer.outbox.len() == 0
    &&& forall|i: int|
        0 <= i < observer.outbox.len() ==> reports_turn(
            observer.registration,
            #[trigger] observer.outbox[i],
        )
}

/// The invariant holds of a new observer and is kept by every event.
pub proof fn observer_keeps_its_invariant(
    registration: RegistrationModel,
    observer: ObserverModel,
    event: EventModel,
)
    requires
        observer_invariant(observer),
    ensures
        observer_invariant(ObserverModel::initial(registration)),
        observer_invariant(observer.step(event).0),
{
}

/// Only the first pass replays: whatever happens, no later action asks for a replay.
pub proof fn only_the_first_pass_replays(observer: ObserverModel, event: EventModel)
    requires
        observer_invariant(observer),
    ensures
        observer.step(event).1 != (ActionModel::Read { replay: true }),
{
}

/// The observer after `count` deliveries, with what it then has to do.
pub open spec fn after_deliveries(step: (ObserverModel, ActionModel), count: nat) -> (
    ObserverModel,
    ActionModel,
)
    decreases count,
{
    if count == 0 {
        step
    } else {
        after_deliveries(step, (count - 1) as nat).0.step(EventModel::Delivered)
    }
}

/// What a pass found is handed out completely and in order, one observation per change, and then
/// the observer rests.
pub proof fn a_pass_is_reported_in_order(
    observer: ObserverModel,
    changes: Seq<(TurnModel, bool)>,
    at: int,
    count: nat,
)
    requires
        observer.phase == ObserverPhase::Reading,
        count <= changes.len(),
    ensures
        ({
            let reports = observed(observer.registration, changes, at);
            let passed = observer.step(EventModel::Passed { changes, at });
            let step = after_deliveries(passed, count);
            &&& count < changes.len() ==> step.1 == ActionModel::Send(reports[count as int])
            &&& count == changes.len() ==> step.1 == (ActionModel::Rest {
                millis: POLL_INTERVAL_MILLIS,
            }) && step.0.phase == ObserverPhase::Resting
        }),
{
    lemma_deliveries(observer, changes, at, count);
}

/// How far a pass has been handed out after `count` deliveries.
proof fn lemma_deliveries(
    observer: ObserverModel,
    changes: Seq<(TurnModel, bool)>,
    at: int,
    count: nat,
)
    requires
        observer.phase == ObserverPhase::Reading,
        count <= changes.len(),
    ensures
        ({
            let reports = observed(observer.registration, changes, at);
            let passed = observer.step(EventModel::Passed { changes, at });
            after_deliveries(passed, count) == (ObserverModel {
                replay: false,
                outbox: reports.skip(count as int),
                ..observer
            }).report()
        }),
    decreases count,
{
    let reports = observed(observer.registration, changes, at);
    if count == 0 {
        assert(reports.skip(0) =~= reports);
    } else {
        lemma_deliveries(observer, changes, at, (count - 1) as nat);
        assert(reports.skip(count - 1).drop_first() =~= reports.skip(count as int));
    }
}

/// An observer that loses its transcript says so exactly once and then ends, whether or not
/// anybody took the message; once ended it stays so.
pub proof fn a_lost_transcript_is_reported_once(
    observer: ObserverModel,
    at: int,
    event: EventModel,
    later: EventModel,
)
    requires
        observer.phase == ObserverPhase::Reading,
    ensures
        ({
            let failed = observer.step(EventModel::Failed { at });
            let ended = failed.0.step(event);
            &&& failed.1 == ActionModel::Send(lost(observer.registration, at))
            &&& ended.1 == ActionModel::Stop
            &&& ended.0.step(later) == ended
        }),
{
}

/// A transcript is only reported lost when a pass has failed: whatever else happens, what is
/// handed out is a turn of the registration.
pub proof fn only_a_failed_pass_is_reported_lost(observer: ObserverModel, event: EventModel)
    requires
        observer_invariant(observer),
    ensures
        observer.step(event).1 matches ActionModel::Send(observation) ==> {
            ||| reports_turn(observer.registration, observation)
            ||| observer.phase == ObserverPhase::Reading && event is Failed && observation == lost(
                observer.registration,
                event->Failed_at,
            )
        },
        (observer.step(event).1 matches ActionModel::Send(observation) && observation.unavailable)
            == (observer.phase == ObserverPhase::Reading && event is Failed),
{
}

/// An observer that nobody listens to any more ends without a word.
pub proof fn a_closed_observer_ends_silently(observer: ObserverModel)
    ensures
        observer.step(EventModel::Closed).1 == ActionModel::Stop,
{
}

} // verus!
