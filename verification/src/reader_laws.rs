//! What holds of every reader, whatever its transcript says.

use crate::framing::{
    complete_lines, complete_lines_are_lines, framing_ignores_read_boundaries,
    framing_keeps_every_byte, framing_undoes_joining, is_line, joined, lemma_joined_append,
    lemma_no_newline, NEWLINE,
};
use crate::history::{
    behind, change, first_at, history, last_start, lemma_first_is_unique, lemma_verified_push,
    names_other_session, own_records, own_records_end_at_the_first_foreign_session, reaches,
    reported, turn_after, verified_after, Mark,
};
use crate::reader::{ReaderModel, TranscriptError};
use crate::turn::{Event, Record, TurnModel, TurnPhase};
use vstd::prelude::*;

verus! {

/// The records are all of the session exactly when none names another one.
pub proof fn lemma_all_own(session_id: Seq<char>, records: Seq<Option<Record>>)
    ensures
        own_records(session_id, records).len() == records.len() <==> forall|i: int|
            0 <= i < records.len() ==> !names_other_session(session_id, #[trigger] records[i]),
        own_records(session_id, records).len() <= records.len(),
        own_records(session_id, records).len() == records.len() ==> own_records(session_id, records)
            == records,
{
    own_records_end_at_the_first_foreign_session(session_id, records);
    let own = own_records(session_id, records);
    if own.len() == records.len() {
        assert(own =~= records);
    }
}

/// A session is verified after two runs of records if it is after either.
proof fn lemma_verified_append(
    verified: bool,
    first: Seq<Option<Record>>,
    second: Seq<Option<Record>>,
)
    ensures
        verified_after(verified, first + second) == verified_after(
            verified_after(verified, first),
            second,
        ),
    decreases second.len(),
{
    if second.len() == 0 {
        assert(first + second =~= first);
    } else {
        lemma_verified_append(verified, first, second.drop_last());
        assert((first + second).drop_last() =~= first + second.drop_last());
        lemma_verified_push(verified, first + second);
        lemma_verified_push(verified_after(verified, first), second);
    }
}

/// The changes of two runs of records are those of the first and then those that the second
/// makes from there.
pub proof fn lemma_history_append(
    turn: Option<TurnModel>,
    verified: bool,
    first: Seq<Option<Record>>,
    second: Seq<Option<Record>>,
)
    ensures
        ({
            let earlier = history(turn, verified, first);
            let later = history(
                turn_after(turn, earlier),
                verified_after(verified, first),
                second,
            );
            &&& history(turn, verified, first + second) == earlier + later
            &&& turn_after(turn, earlier + later) == turn_after(turn_after(turn, earlier), later)
        }),
    decreases second.len(),
{
    let earlier = history(turn, verified, first);
    let middle = turn_after(turn, earlier);
    let named = verified_after(verified, first);
    if second.len() == 0 {
        assert(first + second =~= first);
        assert(earlier + history(middle, named, second) =~= earlier);
    } else {
        let shorter = second.drop_last();
        lemma_history_append(turn, verified, first, shorter);
        lemma_verified_append(verified, first, second);
        assert((first + second).drop_last() =~= first + shorter);
        assert((first + second).last() == second.last());
        let later = history(middle, named, second);
        assert(history(turn, verified, first + second) =~= earlier + later);
        if later.len() > 0 {
            assert((earlier + later).last() == later.last());
        } else {
            assert(earlier + later =~= earlier);
        }
    }
}

/// Of two runs of changes, those of each are reported.
proof fn lemma_reported_append(first: Seq<Mark>, second: Seq<Mark>)
    ensures
        reported(first + second) == reported(first) + reported(second),
    decreases second.len(),
{
    if second.len() == 0 {
        assert(first + second =~= first);
        assert(reported(first) + reported(second) =~= reported(first));
    } else {
        lemma_reported_append(first, second.drop_last());
        assert((first + second).drop_last() =~= first + second.drop_last());
        assert((first + second).last() == second.last());
        assert(reported(first + second) =~= reported(first) + reported(second));
    }
}

/// It does not matter how often a transcript is looked at: two live passes report, one behind
/// the other, what a single one over all records does, and leave the reader where that does. If
/// one of them meets a foreign session, so does the single one.
pub proof fn live_passes_compose(
    reader: ReaderModel,
    first: Seq<Option<Record>>,
    second: Seq<Option<Record>>,
)
    ensures
        reader.after_records(first + second) == reader.after_records(first).after_records(second),
        match (
            reader.outcome(first, false),
            reader.after_records(first).outcome(second, false),
        ) {
            (Ok(earlier), Ok(later)) => reader.outcome(first + second, false) == Ok::<
                Seq<(TurnModel, bool)>,
                TranscriptError,
            >(earlier + later),
            _ => reader.outcome(first + second, false) == Err::<
                Seq<(TurnModel, bool)>,
                TranscriptError,
            >(TranscriptError::SessionMismatch),
        },
{
    let session_id = reader.registration.session_id;
    let all = first + second;
    lemma_history_append(reader.turn, reader.verified_session, first, second);
    lemma_verified_append(reader.verified_session, first, second);
    lemma_reported_append(reader.marks(first), reader.after_records(first).marks(second));
    lemma_all_own(session_id, first);
    lemma_all_own(session_id, second);
    lemma_all_own(session_id, all);
    if own_records(session_id, first).len() < first.len() {
        let i = choose|i: int|
            0 <= i < first.len() && names_other_session(session_id, #[trigger] first[i]);
        assert(names_other_session(session_id, all[i]));
    } else if own_records(session_id, second).len() < second.len() {
        let i = choose|i: int|
            0 <= i < second.len() && names_other_session(session_id, #[trigger] second[i]);
        assert(all[first.len() + i] == second[i]);
        assert(names_other_session(session_id, all[first.len() + i]));
    } else {
        assert forall|i: int| 0 <= i < all.len() implies !names_other_session(
            session_id,
            #[trigger] all[i],
        ) by {
            if i < first.len() {
                assert(all[i] == first[i]);
            } else {
                assert(all[i] == second[i - first.len()]);
            }
        }
    }
}

/// A pass over nothing new reports nothing and changes nothing.
pub proof fn a_quiet_pass_reports_nothing(reader: ReaderModel)
    ensures
        reader.outcome(Seq::empty(), false) == Ok::<Seq<(TurnModel, bool)>, TranscriptError>(
            Seq::empty(),
        ),
        reader.after_records(Seq::empty()) == reader,
{
}

/// Further changes do not move the first change to a turn.
proof fn lemma_behind_append(first: Seq<Mark>, second: Seq<Mark>, turn: TurnModel)
    requires
        reaches(first, turn),
    ensures
        reaches(first + second, turn),
        behind(first + second, turn) == behind(first, turn) + second,
{
    let at = choose|at: int| first_at(first, turn, at);
    assert(first_at(first + second, turn, at)) by {
        assert forall|i: int| 0 <= i < at implies #[trigger] (first + second)[i].turn != turn by {
            assert((first + second)[i] == first[i]);
        }
    }
    let other = choose|at: int| first_at(first + second, turn, at);
    lemma_first_is_unique(first + second, turn, at, other);
    assert(behind(first + second, turn) =~= behind(first, turn) + second);
}

/// A handoff goes on where the saved turn was first reached: the replay in the next process
/// reports what the last process had reported behind that point, and then exactly what it would
/// still have reported live.
pub proof fn handoff_replays_from_the_saved_turn(
    last: ReaderModel,
    next: ReaderModel,
    applied: Seq<Option<Record>>,
    further: Seq<Option<Record>>,
    saved: TurnModel,
)
    requires
        next.turn == last.turn,
        next.verified_session == last.verified_session,
        next.registration.session_id == last.registration.session_id,
        next.registration.replay_after == Some(saved),
        last.outcome(applied, false) is Ok,
        reaches(last.marks(applied), saved),
    ensures
        next.outcome(applied + further, true) == (match last.after_records(applied).outcome(
            further,
            false,
        ) {
            Ok(live) => Ok::<Seq<(TurnModel, bool)>, TranscriptError>(
                reported(behind(last.marks(applied), saved)) + live,
            ),
            Err(error) => Err(error),
        }),
{
    let session_id = last.registration.session_id;
    let all = applied + further;
    let earlier = last.marks(applied);
    let later = last.after_records(applied).marks(further);
    live_passes_compose(last, applied, further);
    lemma_history_append(last.turn, last.verified_session, applied, further);
    assert(next.marks(all) == earlier + later);
    lemma_behind_append(earlier, later, saved);
    lemma_reported_append(behind(earlier, saved), later);
    lemma_all_own(session_id, all);
    lemma_all_own(session_id, further);
}

/// A handoff repeats nothing and loses nothing: where the last process had reported nothing
/// behind the saved turn, the replay in the next one reports exactly what the last would still
/// have reported live.
pub proof fn handoff_replays_only_what_was_not_applied(
    last: ReaderModel,
    next: ReaderModel,
    applied: Seq<Option<Record>>,
    further: Seq<Option<Record>>,
    saved: TurnModel,
)
    requires
        next.turn == last.turn,
        next.verified_session == last.verified_session,
        next.registration.session_id == last.registration.session_id,
        next.registration.replay_after == Some(saved),
        last.outcome(applied, false) is Ok,
        reaches(last.marks(applied), saved),
        reported(behind(last.marks(applied), saved)).len() == 0,
    ensures
        next.outcome(applied + further, true) == last.after_records(applied).outcome(
            further,
            false,
        ),
{
    handoff_replays_from_the_saved_turn(last, next, applied, further, saved);
    let again = reported(behind(last.marks(applied), saved));
    if let Ok(live) = last.after_records(applied).outcome(further, false) {
        assert(again + live =~= live);
    }
}

/// Where the saved turn is the one that the applied records ended with, and they had not come by
/// that very turn before, nothing was reported behind it.
pub proof fn nothing_was_applied_behind_the_last_turn(marks: Seq<Mark>, saved: TurnModel)
    requires
        first_at(marks, saved, marks.len() - 1),
    ensures
        reaches(marks, saved),
        reported(behind(marks, saved)).len() == 0,
{
    let other = choose|at: int| first_at(marks, saved, at);
    lemma_first_is_unique(marks, saved, marks.len() - 1, other);
    assert(behind(marks, saved).len() == 0);
}

/// A record that changes the turn never leaves it as it was: no two changes in a row are to the
/// same turn, and the first is not to the turn already known.
pub proof fn no_change_is_reported_twice_in_a_row(
    turn: Option<TurnModel>,
    verified: bool,
    records: Seq<Option<Record>>,
)
    ensures
        ({
            let marks = history(turn, verified, records);
            &&& marks.len() > 0 ==> turn != Some(marks[0].turn)
            &&& forall|i: int, j: int|
                0 <= i && j == i + 1 && j < marks.len() ==> (#[trigger] marks[j]).turn != (
                #[trigger] marks[i]).turn
        }),
    decreases records.len(),
{
    if records.len() > 0 {
        no_change_is_reported_twice_in_a_row(turn, verified, records.drop_last());
        let earlier = history(turn, verified, records.drop_last());
        let marks = history(turn, verified, records);
        assert forall|i: int, j: int| 0 <= i && j == i + 1 && j < marks.len() implies (
        #[trigger] marks[j]).turn != (#[trigger] marks[i]).turn by {
            assert(marks[i] == earlier[i]);
            if j < earlier.len() {
                assert(marks[j] == earlier[j]);
            }
        }
        if earlier.len() > 0 {
            assert(marks[0] == earlier[0]);
        }
    }
}

/// The end of a turn other than the current one changes nothing.
pub proof fn stale_endings_are_ignored(current: TurnModel, turn_id: String)
    requires
        turn_id@ != current.id,
    ensures
        change(Some(current), Some(Record::Event(Event::Complete { turn_id }))) is None,
        change(Some(current), Some(Record::Event(Event::Aborted { turn_id }))) is None,
{
}

/// Whether a line says nothing about turns or the session: it holds no record, or none that is
/// known.
pub open spec fn unrecognized(record: Option<Record>) -> bool {
    match record {
        None => true,
        Some(Record::Other) => true,
        Some(Record::Event(Event::Other)) => true,
        _ => false,
    }
}

/// A line that is not recognised makes no difference, wherever it stands.
pub proof fn unrecognized_lines_make_no_difference(
    reader: ReaderModel,
    front: Seq<Option<Record>>,
    line: Option<Record>,
    back: Seq<Option<Record>>,
    replay: bool,
)
    requires
        unrecognized(line),
    ensures
        reader.outcome(front.push(line) + back, replay) == reader.outcome(front + back, replay),
        reader.after_records(front.push(line) + back) == reader.after_records(front + back),
{
    let session_id = reader.registration.session_id;
    let with = front.push(line) + back;
    let without = front + back;
    assert(front.push(line).drop_last() =~= front);
    lemma_verified_push(reader.verified_session, front.push(line));
    lemma_verified_append(reader.verified_session, front.push(line), back);
    lemma_verified_append(reader.verified_session, front, back);
    lemma_history_append(reader.turn, reader.verified_session, front.push(line), back);
    lemma_history_append(reader.turn, reader.verified_session, front, back);
    assert(reader.marks(front.push(line)) == reader.marks(front));
    lemma_all_own(session_id, with);
    lemma_all_own(session_id, without);
    if own_records(session_id, with).len() == with.len() {
        assert forall|i: int| 0 <= i < without.len() implies !names_other_session(
            session_id,
            #[trigger] without[i],
        ) by {
            if i < front.len() {
                assert(without[i] == with[i]);
            } else {
                assert(without[i] == with[i + 1]);
            }
        }
    }
    if own_records(session_id, without).len() == without.len() {
        assert forall|i: int| 0 <= i < with.len() implies !names_other_session(
            session_id,
            #[trigger] with[i],
        ) by {
            if i < front.len() {
                assert(with[i] == without[i]);
            } else if i > front.len() {
                assert(with[i] == without[i - 1]);
            }
        }
    }
}

/// A change is only marked verified once the session is.
proof fn lemma_verified_marks(
    turn: Option<TurnModel>,
    verified: bool,
    records: Seq<Option<Record>>,
)
    requires
        !verified_after(verified, records),
    ensures
        forall|i: int|
            0 <= i < history(turn, verified, records).len() ==> !(#[trigger] history(
                turn,
                verified,
                records,
            )[i]).verified,
    decreases records.len(),
{
    if records.len() > 0 {
        lemma_verified_push(verified, records);
        lemma_verified_marks(turn, verified, records.drop_last());
        let earlier = history(turn, verified, records.drop_last());
        let marks = history(turn, verified, records);
        assert forall|i: int| 0 <= i < marks.len() implies !(#[trigger] marks[i]).verified by {
            if i < earlier.len() {
                assert(marks[i] == earlier[i]);
            }
        }
    }
}

/// Changes none of which is verified are not reported.
proof fn lemma_nothing_reported(marks: Seq<Mark>)
    requires
        forall|i: int| 0 <= i < marks.len() ==> !(#[trigger] marks[i]).verified,
    ensures
        reported(marks).len() == 0,
    decreases marks.len(),
{
    if marks.len() > 0 {
        let shorter = marks.drop_last();
        assert(!marks[marks.len() - 1].verified);
        assert forall|i: int| 0 <= i < shorter.len() implies !(#[trigger] shorter[i]).verified by {
            assert(shorter[i] == marks[i]);
        }
        lemma_nothing_reported(shorter);
    }
}

/// Nothing is reported of a transcript that has not named its session.
pub proof fn unverified_transcripts_report_nothing(
    reader: ReaderModel,
    records: Seq<Option<Record>>,
    replay: bool,
)
    requires
        !reader.after_records(records).verified_session,
    ensures
        reader.outcome(records, replay) matches Ok(changes) ==> changes.len() == 0,
{
    let marks = reader.marks(records);
    lemma_verified_marks(reader.turn, reader.verified_session, records);
    lemma_nothing_reported(marks);
    if let Some(saved) = reader.registration.replay_after {
        if reaches(marks, saved) {
            let at = choose|at: int| first_at(marks, saved, at);
            let rest = behind(marks, saved);
            assert(rest == marks.skip(at + 1));
            assert forall|i: int| 0 <= i < rest.len() implies !(#[trigger] rest[i]).verified by {
                assert(rest[i] == marks[at + 1 + i]);
            }
            lemma_nothing_reported(rest);
        }
    }
}

/// What is reported as a change behind others is news.
proof fn lemma_reported_is_news(marks: Seq<Mark>)
    ensures
        forall|i: int| 0 <= i < reported(marks).len() ==> !(#[trigger] reported(marks)[i]).1,
    decreases marks.len(),
{
    if marks.len() > 0 {
        lemma_reported_is_news(marks.drop_last());
        let earlier = reported(marks.drop_last());
        assert forall|i: int| 0 <= i < reported(marks).len() implies !(#[trigger] reported(
            marks,
        )[i]).1 by {
            if i < earlier.len() {
                assert(reported(marks)[i] == earlier[i]);
            }
        }
    }
}

/// History is reported in one case only: by the first pass over a transcript that neither a
/// turn's hook nor a handoff registered, and then it is the one turn that the transcript ends
/// with.
pub proof fn only_a_plain_replay_reports_history(
    reader: ReaderModel,
    records: Seq<Option<Record>>,
    replay: bool,
    at: int,
)
    requires
        reader.outcome(records, replay) is Ok,
        0 <= at < reader.outcome(records, replay)->Ok_0.len(),
        reader.outcome(records, replay)->Ok_0[at].1,
    ensures
        replay,
        reader.registration.replay_after is None,
        !reader.registration.current_turn_hook,
        reader.outcome(records, replay)->Ok_0 == seq![
            (reader.after_records(records).turn->0, true),
        ],
{
    let marks = reader.marks(records);
    lemma_reported_is_news(marks);
    if let Some(saved) = reader.registration.replay_after {
        lemma_reported_is_news(behind(marks, saved));
    }
}

/// Whether every change that ends a turn ends the one before it.
pub open spec fn in_sequence(marks: Seq<Mark>) -> bool {
    forall|i: int, j: int|
        0 <= i && j == i + 1 && j < marks.len() && (#[trigger] marks[j]).turn.phase
            != TurnPhase::Active ==> marks[j].turn.id == (#[trigger] marks[i]).turn.id
}

/// Turns do not interleave: a change that ends a turn ends the one before it, or the one known
/// before.
pub proof fn turns_do_not_interleave(
    turn: Option<TurnModel>,
    verified: bool,
    records: Seq<Option<Record>>,
)
    ensures
        in_sequence(history(turn, verified, records)),
        ({
            let marks = history(turn, verified, records);
            turn is Some && marks.len() > 0 && marks[0].turn.phase != TurnPhase::Active
                ==> turn->0.id == marks[0].turn.id
        }),
    decreases records.len(),
{
    if records.len() > 0 {
        turns_do_not_interleave(turn, verified, records.drop_last());
        let earlier = history(turn, verified, records.drop_last());
        let marks = history(turn, verified, records);
        assert forall|i: int, j: int|
            0 <= i && j == i + 1 && j < marks.len() && (#[trigger] marks[j]).turn.phase
                != TurnPhase::Active implies marks[j].turn.id == (#[trigger] marks[i]).turn.id by {
            assert(marks[i] == earlier[i]);
            if j < earlier.len() {
                assert(marks[j] == earlier[j]);
            }
        }
        if earlier.len() > 0 {
            assert(marks[0] == earlier[0]);
        }
    }
}

/// Whether the change at `at` is the last one that begins a turn.
pub open spec fn last_start_at(marks: Seq<Mark>, at: int) -> bool {
    &&& 0 <= at < marks.len()
    &&& marks[at].turn.phase == TurnPhase::Active
    &&& forall|i: int|
        at < i < marks.len() ==> (#[trigger] marks[i]).turn.phase != TurnPhase::Active
}

/// Where the last turn that began is found, and that the changes behind it are all of that turn.
proof fn lemma_last_start(marks: Seq<Mark>)
    requires
        in_sequence(marks),
    ensures
        last_start(marks) is None ==> forall|i: int|
            0 <= i < marks.len() ==> (#[trigger] marks[i]).turn.phase != TurnPhase::Active,
        last_start(marks) matches Some(start) ==> start.id == marks.last().turn.id && exists|at: int|
            #[trigger] last_start_at(marks, at) && marks[at].turn == start,
    decreases marks.len(),
{
    if marks.len() > 0 {
        let shorter = marks.drop_last();
        let end = marks.len() - 1;
        assert(in_sequence(shorter)) by {
            assert forall|i: int, j: int|
                0 <= i && j == i + 1 && j < shorter.len() && (#[trigger] shorter[j]).turn.phase
                    != TurnPhase::Active implies shorter[j].turn.id == (
            #[trigger] shorter[i]).turn.id by {
                assert(shorter[i] == marks[i]);
                assert(shorter[j] == marks[j]);
            }
        }
        lemma_last_start(shorter);
        if marks.last().turn.phase == TurnPhase::Active {
            assert(last_start_at(marks, end));
        } else {
            assert(marks[end].turn.phase != TurnPhase::Active);
            assert(forall|i: int| 0 <= i < end ==> #[trigger] marks[i] == shorter[i]);
            if let Some(start) = last_start(shorter) {
                let at = choose|at: int| #[trigger]
                    last_start_at(shorter, at) && shorter[at].turn == start;
                assert(last_start_at(marks, at));
            }
        }
    }
}

/// The first pass for a turn's hook reports exactly the turn that began last: its start, and
/// behind it the turn that the transcript ends with if that start is over, both as news. Where
/// no turn began it reports nothing.
pub proof fn a_hook_replay_reports_its_current_turn(
    reader: ReaderModel,
    records: Seq<Option<Record>>,
    at: int,
)
    requires
        reader.registration.current_turn_hook,
        reader.registration.replay_after is None,
        reader.outcome(records, true) is Ok,
        reader.after_records(records).verified_session,
    ensures
        ({
            let marks = reader.marks(records);
            let changes = reader.outcome(records, true)->Ok_0;
            let end = reader.after_records(records).turn;
            &&& last_start_at(marks, at) && end->0.phase == TurnPhase::Active ==> changes == seq![
                (marks[at].turn, false),
            ]
            &&& last_start_at(marks, at) && end->0.phase != TurnPhase::Active ==> changes == seq![
                (marks[at].turn, false),
                (end->0, false),
            ] && end->0.id == marks[at].turn.id
            &&& (forall|i: int| !last_start_at(marks, i)) ==> changes.len() == 0
        }),
{
    let marks = reader.marks(records);
    turns_do_not_interleave(reader.turn, reader.verified_session, records);
    lemma_last_start(marks);
    if last_start_at(marks, at) {
        assert(last_start(marks) is Some);
        let found = choose|found: int| #[trigger]
            last_start_at(marks, found) && marks[found].turn == last_start(marks)->0;
        if found < at {
            assert(marks[at].turn.phase != TurnPhase::Active);
        } else if at < found {
            assert(marks[found].turn.phase != TurnPhase::Active);
        }
    }
}

/// It does not matter where a transcript was cut between two reads: the lines of both reads, one
/// behind the other, are those of a single read, and the reader is left where that leaves it.
pub proof fn reads_compose(reader: ReaderModel, first: Seq<u8>, second: Seq<u8>)
    requires
        reader.consumed + first.len() + second.len() <= u64::MAX,
    ensures
        reader.after_bytes(first + second) == reader.after_bytes(first).after_bytes(second),
        complete_lines(reader.partial + (first + second)) == complete_lines(reader.partial + first)
            + complete_lines(reader.after_bytes(first).partial + second),
{
    assert(reader.partial + (first + second) =~= (reader.partial + first) + second);
    framing_ignores_read_boundaries(reader.partial + first, second);
}

/// It does not matter how often a transcript is looked at, nor where it was cut in between: two
/// passes over records of the session leave the reader where a single one does.
pub proof fn passes_compose(
    reader: ReaderModel,
    first: Seq<u8>,
    second: Seq<u8>,
    first_records: Seq<Option<Record>>,
    second_records: Seq<Option<Record>>,
)
    requires
        reader.consumed + first.len() + second.len() <= u64::MAX,
        reader.outcome(first_records + second_records, false) is Ok,
    ensures
        reader.after_pass(first + second, first_records + second_records) == reader.after_pass(
            first,
            first_records,
        ).after_pass(second, second_records),
{
    let session_id = reader.registration.session_id;
    let all = first_records + second_records;
    live_passes_compose(reader, first_records, second_records);
    reads_compose(reader, first, second);
    lemma_all_own(session_id, all);
    lemma_all_own(session_id, first_records);
    lemma_all_own(session_id, second_records);
    assert forall|i: int| 0 <= i < first_records.len() implies !names_other_session(
        session_id,
        #[trigger] first_records[i],
    ) by {
        assert(all[i] == first_records[i]);
    }
    assert forall|i: int| 0 <= i < second_records.len() implies !names_other_session(
        session_id,
        #[trigger] second_records[i],
    ) by {
        assert(all[first_records.len() + i] == second_records[i]);
    }
}

/// A pass that meets a foreign session stops right behind the line that names it: it has taken
/// in the bytes up to there and no others, and a further pass goes on with the next line.
pub proof fn reading_goes_on_behind_a_foreign_session(
    reader: ReaderModel,
    data: Seq<u8>,
    records: Seq<Option<Record>>,
)
    requires
        reader.well_formed(),
        reader.consumed + data.len() <= u64::MAX,
        records.len() == reader.lines(data).len(),
        own_records(reader.registration.session_id, records).len() < records.len(),
    ensures
        ({
            let own = own_records(reader.registration.session_id, records);
            let taken = reader.taken(data, records);
            let after = reader.after_pass(data, records);
            &&& taken.len() <= data.len()
            &&& taken == data.take(taken.len() as int)
            &&& reader.partial + taken == joined(reader.lines(data).take(own.len() as int + 1))
            &&& after.consumed == reader.consumed + taken.len()
            &&& after.partial == Seq::<u8>::empty()
            &&& after.lines(data.skip(taken.len() as int)) == reader.lines(data).skip(
                own.len() as int + 1,
            )
        }),
{
    let own = own_records(reader.registration.session_id, records);
    let whole = reader.partial + data;
    let lines = reader.lines(data);
    let front = lines.take(own.len() as int + 1);
    let back = lines.skip(own.len() as int + 1);
    assert(front + back =~= lines);
    framing_keeps_every_byte(whole);
    lemma_joined_append(front, back);
    complete_lines_are_lines(whole);
    assert forall|i: int| 0 <= i < front.len() implies is_line(#[trigger] front[i]) by {
        assert(front[i] == lines[i]);
    }
    framing_undoes_joining(front);
    let size = joined(front).len() as int;
    assert(joined(front) =~= whole.take(size));
    assert(size > reader.partial.len()) by {
        if size <= reader.partial.len() {
            assert(joined(front) =~= reader.partial.take(size));
            assert forall|i: int| 0 <= i < size implies joined(front)[i] != NEWLINE by {
                assert(joined(front)[i] == reader.partial[i]);
                assert(reader.partial.contains(reader.partial[i]));
            }
            lemma_no_newline(joined(front));
        }
    }
    let count = size - reader.partial.len();
    assert(count == reader.bytes_through(data, own.len() + 1));
    assert(reader.partial + data.take(count) =~= joined(front));
    framing_ignores_read_boundaries(joined(front), data.skip(count));
    assert(joined(front) + data.skip(count) =~= whole);
    assert(reader.after_pass(data, records).lines(data.skip(count)) =~= back);
}

} // verus!
