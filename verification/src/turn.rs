//! Turns of a Codex session and the transcript records that mark them.

use vstd::prelude::*;

verus! {

/// How far a turn has come.
#[derive(Debug, Clone, Copy, PartialEq, Eq, Structural)]
pub enum TurnPhase {
    Active,
    Completed,
    Aborted,
}

/// A turn by its identifier, with the phase it has reached.
#[derive(Debug)]
pub struct Turn {
    pub id: String,
    pub phase: TurnPhase,
}

/// The mathematical value of a [`Turn`].
pub struct TurnModel {
    pub id: Seq<char>,
    pub phase: TurnPhase,
}

impl View for Turn {
    type V = TurnModel;

    open spec fn view(&self) -> TurnModel {
        TurnModel { id: self.id@, phase: self.phase }
    }
}

impl Clone for Turn {
    fn clone(&self) -> (copy: Self)
        ensures
            copy@ == self@,
    {
        Turn { id: self.id.clone(), phase: self.phase }
    }
}

impl PartialEq for Turn {
    fn eq(&self, other: &Self) -> (same: bool) {
        self.id == other.id && self.phase == other.phase
    }
}

impl Eq for Turn {

}

impl vstd::std_specs::cmp::PartialEqSpecImpl for Turn {
    open spec fn obeys_eq_spec() -> bool {
        true
    }

    open spec fn eq_spec(&self, other: &Self) -> bool {
        self@ == other@
    }
}

/// The mathematical value of an optional turn.
pub open spec fn turn_model(turn: Option<Turn>) -> Option<TurnModel> {
    match turn {
        Some(turn) => Some(turn@),
        None => None,
    }
}

/// A copy of an optional turn.
pub fn clone_turn(turn: &Option<Turn>) -> (copy: Option<Turn>)
    ensures
        turn_model(copy) == turn_model(*turn),
{
    match turn {
        Some(turn) => Some(turn.clone()),
        None => None,
    }
}

/// Whether an optional turn is there and is `other`.
pub fn is_turn(turn: &Option<Turn>, other: &Turn) -> (same: bool)
    ensures
        same == (turn_model(*turn) == Some(other@)),
{
    match turn {
        Some(turn) => *turn == *other,
        None => false,
    }
}

/// Whether two optional turns are the same.
pub fn same_turn(left: &Option<Turn>, right: &Option<Turn>) -> (same: bool)
    ensures
        same == (turn_model(*left) == turn_model(*right)),
{
    match (left, right) {
        (Some(left), Some(right)) => *left == *right,
        (None, None) => true,
        _ => false,
    }
}

/// What an event record says of a turn.
#[derive(Debug)]
pub enum Event {
    /// The turn began.
    Started { turn_id: String },
    /// The turn ran to its end.
    Complete { turn_id: String },
    /// The turn was broken off.
    Aborted { turn_id: String },
    /// Something that does not concern turns.
    Other,
}

/// One record of a transcript.
#[derive(Debug)]
pub enum Record {
    /// Names the session that the transcript belongs to.
    Session { id: String },
    /// Reports an event of the session.
    Event(Event),
    /// Something that does not concern turns.
    Other,
}

} // verus!
