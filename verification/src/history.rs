//! The turns that a run of transcript records goes through.

use crate::turn::{Event, Record, TurnModel, TurnPhase};
use vstd::prelude::*;

verus! {

/// A change of the current turn, and whether the transcript had named its session by then.
pub struct Mark {
    pub turn: TurnModel,
    pub verified: bool,
}

/// Whether a record names the session of the transcript.
pub open spec fn names_session(record: Option<Record>) -> bool {
    record matches Some(Record::Session { .. })
}

/// Whether a record names a session other than `session_id`.
pub open spec fn names_other_session(session_id: Seq<char>, record: Option<Record>) -> bool {
    record matches Some(Record::Session { id }) && id@ != session_id
}

/// Whether the end of turn `id` can concern the current turn: there is none known yet, or it is
/// that one.
pub open spec fn ends_current(current: Option<TurnModel>, id: Seq<char>) -> bool {
    current matches Some(turn) ==> turn.id == id
}

/// The turn that a record calls for, whatever the current one is worth.
pub open spec fn called_for(current: Option<TurnModel>, record: Option<Record>) -> Option<
    TurnModel,
> {
    match record {
        Some(Record::Event(Event::Started { turn_id })) => Some(
            TurnModel { id: turn_id@, phase: TurnPhase::Active },
        ),
        Some(Record::Event(Event::Complete { turn_id })) if ends_current(
            current,
            turn_id@,
        ) => Some(TurnModel { id: turn_id@, phase: TurnPhase::Completed }),
        Some(Record::Event(Event::Aborted { turn_id })) if ends_current(
            current,
            turn_id@,
        ) => Some(TurnModel { id: turn_id@, phase: TurnPhase::Aborted }),
        _ => None,
    }
}

/// The turn that a record changes to, if it changes the current turn at all.
pub open spec fn change(current: Option<TurnModel>, record: Option<Record>) -> Option<TurnModel> {
    match called_for(current, record) {
        Some(next) if current != Some(next) => Some(next),
        _ => None,
    }
}

/// The current turn after the changes `marks`.
pub open spec fn turn_after(turn: Option<TurnModel>, marks: Seq<Mark>) -> Option<TurnModel> {
    if marks.len() == 0 {
        turn
    } else {
        Some(marks.last().turn)
    }
}

/// Whether the session is verified after `records`.
pub open spec fn verified_after(verified: bool, records: Seq<Option<Record>>) -> bool {
    verified || exists|i: int| 0 <= i < records.len() && names_session(#[trigger] records[i])
}

/// The changes that `records` make, in order, starting from `turn`.
pub open spec fn history(
    turn: Option<TurnModel>,
    verified: bool,
    records: Seq<Option<Record>>,
) -> Seq<Mark>
    decreases records.len(),
{
    if records.len() == 0 {
        Seq::empty()
    } else {
        let earlier = history(turn, verified, records.drop_last());
        match change(turn_after(turn, earlier), records.last()) {
            Some(next) => earlier.push(
                Mark { turn: next, verified: verified_after(verified, records) },
            ),
            None => earlier,
        }
    }
}

/// The last turn that began within `marks`.
pub open spec fn last_start(marks: Seq<Mark>) -> Option<TurnModel>
    decreases marks.len(),
{
    if marks.len() == 0 {
        None
    } else if marks.last().turn.phase == TurnPhase::Active {
        Some(marks.last().turn)
    } else {
        last_start(marks.drop_last())
    }
}

/// Whether the change at position `at` is the first one to `turn`.
pub open spec fn first_at(marks: Seq<Mark>, turn: TurnModel, at: int) -> bool {
    &&& 0 <= at < marks.len()
    &&& marks[at].turn == turn
    &&& forall|i: int| 0 <= i < at ==> #[trigger] marks[i].turn != turn
}

/// Whether `marks` come by `turn`.
pub open spec fn reaches(marks: Seq<Mark>, turn: TurnModel) -> bool {
    exists|at: int| first_at(marks, turn, at)
}

/// The changes behind the first one to `turn`.
pub open spec fn behind(marks: Seq<Mark>, turn: TurnModel) -> Seq<Mark> {
    let at = choose|at: int| first_at(marks, turn, at);
    marks.skip(at + 1)
}

/// The changes that may be reported: those of a verified session, as news rather than history.
pub open spec fn reported(marks: Seq<Mark>) -> Seq<(TurnModel, bool)>
    decreases marks.len(),
{
    if marks.len() == 0 {
        Seq::empty()
    } else if marks.last().verified {
        reported(marks.drop_last()).push((marks.last().turn, false))
    } else {
        reported(marks.drop_last())
    }
}

/// The records before the first one that names a session other than `session_id`.
pub open spec fn own_records(session_id: Seq<char>, records: Seq<Option<Record>>) -> Seq<
    Option<Record>,
>
    decreases records.len(),
{
    if records.len() == 0 {
        records
    } else {
        let earlier = own_records(session_id, records.drop_last());
        if earlier.len() < records.len() - 1 || names_other_session(session_id, records.last()) {
            earlier
        } else {
            records
        }
    }
}

/// The records before the first foreign session record are a prefix that holds no such record,
/// and the record behind it, if any, is one.
pub proof fn own_records_end_at_the_first_foreign_session(
    session_id: Seq<char>,
    records: Seq<Option<Record>>,
)
    ensures
        ({
            let own = own_records(session_id, records);
            &&& own.len() <= records.len()
            &&& own == records.take(own.len() as int)
            &&& forall|i: int|
                0 <= i < own.len() ==> !names_other_session(session_id, #[trigger] records[i])
            &&& own.len() < records.len() ==> names_other_session(
                session_id,
                records[own.len() as int],
            )
        }),
    decreases records.len(),
{
    let own = own_records(session_id, records);
    if records.len() == 0 {
        assert(own =~= records.take(0));
    } else {
        let shorter = records.drop_last();
        own_records_end_at_the_first_foreign_session(session_id, shorter);
        let earlier = own_records(session_id, shorter);
        assert forall|i: int| 0 <= i < earlier.len() implies !names_other_session(
            session_id,
            #[trigger] records[i],
        ) by {
            assert(records[i] == shorter[i]);
        }
        if earlier.len() < shorter.len() {
            assert(records[earlier.len() as int] == shorter[earlier.len() as int]);
            assert(earlier =~= records.take(earlier.len() as int));
        } else if names_other_session(session_id, records.last()) {
            assert(earlier =~= records.take(earlier.len() as int));
        } else {
            assert(own =~= records.take(own.len() as int));
            assert forall|i: int| 0 <= i < own.len() implies !names_other_session(
                session_id,
                #[trigger] records[i],
            ) by {
                if i < shorter.len() {
                    assert(records[i] == shorter[i]);
                }
            }
        }
    }
}

/// A session is verified after one record more if it was before or the record names it.
pub proof fn lemma_verified_push(verified: bool, records: Seq<Option<Record>>)
    requires
        records.len() > 0,
    ensures
        verified_after(verified, records) == (verified_after(verified, records.drop_last())
            || names_session(records.last())),
{
    let shorter = records.drop_last();
    if verified_after(verified, shorter) && !verified {
        let i = choose|i: int| 0 <= i < shorter.len() && names_session(#[trigger] shorter[i]);
        assert(names_session(records[i]));
    }
    if names_session(records.last()) {
        assert(names_session(records[records.len() - 1]));
    }
    if verified_after(verified, records) && !verified {
        let i = choose|i: int| 0 <= i < records.len() && names_session(#[trigger] records[i]);
        if i < shorter.len() {
            assert(names_session(shorter[i]));
        }
    }
}

/// One change more keeps the place of the first change to a turn, and can be that place only
/// where there was none.
pub proof fn lemma_reaches_push(marks: Seq<Mark>, mark: Mark, turn: TurnModel)
    ensures
        reaches(marks, turn) ==> reaches(marks.push(mark), turn) && behind(marks.push(mark), turn)
            == behind(marks, turn).push(mark),
        !reaches(marks, turn) ==> (reaches(marks.push(mark), turn) <==> mark.turn == turn),
        !reaches(marks, turn) && mark.turn == turn ==> behind(marks.push(mark), turn) == Seq::<
            Mark,
        >::empty(),
{
    let more = marks.push(mark);
    if reaches(marks, turn) {
        let at = choose|at: int| first_at(marks, turn, at);
        assert(first_at(more, turn, at)) by {
            assert forall|i: int| 0 <= i < at implies #[trigger] more[i].turn != turn by {
                assert(more[i] == marks[i]);
            }
        }
        let other = choose|at: int| first_at(more, turn, at);
        lemma_first_is_unique(more, turn, at, other);
        assert(behind(more, turn) =~= behind(marks, turn).push(mark));
    } else {
        lemma_first_exists(marks, turn);
        if mark.turn == turn {
            let at = marks.len() as int;
            assert(first_at(more, turn, at)) by {
                assert forall|i: int| 0 <= i < at implies #[trigger] more[i].turn != turn by {
                    assert(more[i] == marks[i]);
                }
            }
            let other = choose|at: int| first_at(more, turn, at);
            lemma_first_is_unique(more, turn, at, other);
            assert(behind(more, turn) =~= Seq::<Mark>::empty());
        } else if reaches(more, turn) {
            let at = choose|at: int| first_at(more, turn, at);
            assert(at < marks.len());
            assert(marks[at].turn == turn);
        }
    }
}

/// There is only one first change to a turn.
pub proof fn lemma_first_is_unique(marks: Seq<Mark>, turn: TurnModel, one: int, other: int)
    requires
        first_at(marks, turn, one),
        first_at(marks, turn, other),
    ensures
        one == other,
{
    if one < other {
        assert(marks[one].turn != turn);
    } else if other < one {
        assert(marks[other].turn != turn);
    }
}

/// Where some change is to a turn, one of them is the first.
pub proof fn lemma_first_exists(marks: Seq<Mark>, turn: TurnModel)
    ensures
        reaches(marks, turn) <==> exists|i: int| 0 <= i < marks.len() && #[trigger] marks[i].turn
            == turn,
    decreases marks.len(),
{
    if exists|i: int| 0 <= i < marks.len() && #[trigger] marks[i].turn == turn {
        let i = choose|i: int| 0 <= i < marks.len() && #[trigger] marks[i].turn == turn;
        let shorter = marks.take(i);
        lemma_first_exists(shorter, turn);
        if reaches(shorter, turn) {
            let at = choose|at: int| first_at(shorter, turn, at);
            assert forall|j: int| 0 <= j < at implies #[trigger] marks[j].turn != turn by {
                assert(marks[j] == shorter[j]);
            }
            assert(first_at(marks, turn, at));
        } else {
            assert forall|j: int| 0 <= j < i implies #[trigger] marks[j].turn != turn by {
                assert(marks[j] == shorter[j]);
            }
            assert(first_at(marks, turn, i));
        }
    }
}

} // verus!
