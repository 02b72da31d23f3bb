//! Which transcript a terminal follows, and what was last seen of it.

use crate::path::{PathModel, TranscriptPath};
use crate::time::Timestamp;
use crate::turn::{clone_turn, same_turn, turn_model, Turn, TurnModel};
use vstd::prelude::*;

verus! {

/// The identity of a terminal.
#[derive(Debug)]
pub struct TerminalId {
    pub name: String,
}

impl View for TerminalId {
    type V = Seq<char>;

    open spec fn view(&self) -> Seq<char> {
        self.name@
    }
}

impl Clone for TerminalId {
    fn clone(&self) -> (copy: Self)
        ensures
            copy@ == self@,
    {
        TerminalId { name: self.name.clone() }
    }
}

impl PartialEq for TerminalId {
    fn eq(&self, other: &Self) -> (same: bool) {
        self.name == other.name
    }
}

impl Eq for TerminalId {

}

impl vstd::std_specs::cmp::PartialEqSpecImpl for TerminalId {
    open spec fn obeys_eq_spec() -> bool {
        true
    }

    open spec fn eq_spec(&self, other: &Self) -> bool {
        self@ == other@
    }
}

/// A terminal's claim on one transcript.
#[derive(Debug)]
pub struct Registration {
    /// The terminal that follows the transcript.
    pub terminal_id: TerminalId,
    /// Counts the registrations of that terminal, so that stale ones can be told apart.
    pub generation: u64,
    /// The session that the transcript has to name.
    pub session_id: String,
    /// Where the transcript is.
    pub path: TranscriptPath,
    /// Whether the registration came from the hook of a turn that is under way.
    pub current_turn_hook: bool,
    /// The turn up to which the transcript was applied before a handoff.
    pub replay_after: Option<Turn>,
}

/// The mathematical value of a [`Registration`].
pub struct RegistrationModel {
    pub terminal_id: Seq<char>,
    pub generation: u64,
    pub session_id: Seq<char>,
    pub path: PathModel,
    pub current_turn_hook: bool,
    pub replay_after: Option<TurnModel>,
}

impl RegistrationModel {
    /// Whether two registrations are the same, however their paths are spelled.
    pub open spec fn same_registration(self, other: RegistrationModel) -> bool {
        &&& self.terminal_id == other.terminal_id
        &&& self.generation == other.generation
        &&& self.session_id == other.session_id
        &&& self.path.same_path(other.path)
        &&& self.current_turn_hook == other.current_turn_hook
        &&& self.replay_after == other.replay_after
    }
}

impl View for Registration {
    type V = RegistrationModel;

    open spec fn view(&self) -> RegistrationModel {
        RegistrationModel {
            terminal_id: self.terminal_id@,
            generation: self.generation,
            session_id: self.session_id@,
            path: self.path@,
            current_turn_hook: self.current_turn_hook,
            replay_after: turn_model(self.replay_after),
        }
    }
}

impl Clone for Registration {
    fn clone(&self) -> (copy: Self)
        ensures
            copy@ == self@,
    {
        Registration {
            terminal_id: self.terminal_id.clone(),
            generation: self.generation,
            session_id: self.session_id.clone(),
            path: self.path.clone(),
            current_turn_hook: self.current_turn_hook,
            replay_after: clone_turn(&self.replay_after),
        }
    }
}

impl PartialEq for Registration {
    fn eq(&self, other: &Self) -> (same: bool) {
        self.terminal_id == other.terminal_id && self.generation == other.generation
            && self.session_id == other.session_id && self.path == other.path
            && self.current_turn_hook == other.current_turn_hook && same_turn(
            &self.replay_after,
            &other.replay_after,
        )
    }
}

impl Eq for Registration {

}

impl vstd::std_specs::cmp::PartialEqSpecImpl for Registration {
    open spec fn obeys_eq_spec() -> bool {
        true
    }

    open spec fn eq_spec(&self, other: &Self) -> bool {
        self@.same_registration(other@)
    }
}

/// What a terminal knows of the session whose transcript it follows.
#[derive(Debug)]
pub struct Session {
    pub registration: Registration,
    /// The last turn that was observed.
    pub turn: Option<Turn>,
    pub registered_at: Timestamp,
    pub observed_at: Timestamp,
    /// Whether the last turn is an ended one that was only read back from history.
    pub replayed_idle: bool,
}

/// The mathematical value of a [`Session`].
pub struct SessionModel {
    pub registration: RegistrationModel,
    pub turn: Option<TurnModel>,
    pub registered_at: int,
    pub observed_at: int,
    pub replayed_idle: bool,
}

impl View for Session {
    type V = SessionModel;

    open spec fn view(&self) -> SessionModel {
        SessionModel {
            registration: self.registration@,
            turn: turn_model(self.turn),
            registered_at: self.registered_at@,
            observed_at: self.observed_at@,
            replayed_idle: self.replayed_idle,
        }
    }
}

impl Clone for Session {
    fn clone(&self) -> (copy: Self)
        ensures
            copy@ == self@,
    {
        Session {
            registration: self.registration.clone(),
            turn: clone_turn(&self.turn),
            registered_at: self.registered_at,
            observed_at: self.observed_at,
            replayed_idle: self.replayed_idle,
        }
    }
}

/// The mathematical value of an optional session.
pub open spec fn session_model(session: Option<Session>) -> Option<SessionModel> {
    match session {
        Some(session) => Some(session@),
        None => None,
    }
}

/// What is handed to the next process so that it can follow the same transcript.
#[derive(Debug)]
pub struct HandoffSession {
    pub session_id: String,
    pub path: TranscriptPath,
    pub turn: Option<Turn>,
}

/// The mathematical value of a [`HandoffSession`].
pub struct HandoffModel {
    pub session_id: Seq<char>,
    pub path: PathModel,
    pub turn: Option<TurnModel>,
}

impl View for HandoffSession {
    type V = HandoffModel;

    open spec fn view(&self) -> HandoffModel {
        HandoffModel {
            session_id: self.session_id@,
            path: self.path@,
            turn: turn_model(self.turn),
        }
    }
}

impl Clone for HandoffSession {
    fn clone(&self) -> (copy: Self)
        ensures
            copy@ == self@,
    {
        HandoffSession {
            session_id: self.session_id.clone(),
            path: self.path.clone(),
            turn: clone_turn(&self.turn),
        }
    }
}

/// What an observer found in the transcript of `registration`.
#[derive(Debug)]
pub struct Observation {
    pub registration: Registration,
    pub turn: Option<Turn>,
    pub observed_at: Timestamp,
    /// Whether the turn was read back from history.
    pub replay: bool,
    /// Whether the transcript can no longer be followed.
    pub unavailable: bool,
}

/// The mathematical value of an [`Observation`].
pub struct ObservationModel {
    pub registration: RegistrationModel,
    pub turn: Option<TurnModel>,
    pub observed_at: int,
    pub replay: bool,
    pub unavailable: bool,
}

impl View for Observation {
    type V = ObservationModel;

    open spec fn view(&self) -> ObservationModel {
        ObservationModel {
            registration: self.registration@,
            turn: turn_model(self.turn),
            observed_at: self.observed_at@,
            replay: self.replay,
            unavailable: self.unavailable,
        }
    }
}

} // verus!
