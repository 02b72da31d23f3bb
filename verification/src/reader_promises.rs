//! What a reader makes of a transcript, said of the records and of what comes out.

use crate::framing::{joined, lemma_no_newline};
use crate::history::{
    behind, change, first_at, history, last_start, lemma_first_exists, lemma_first_is_unique,
    lemma_verified_push, names_other_session, names_session, own_records,
    own_records_end_at_the_first_foreign_session, reported, turn_after, verified_after, Mark,
};
use crate::reader::{ReaderModel, TranscriptError};
use crate::reader_laws::{
    lemma_all_own, lemma_history_append, live_passes_compose,
    reading_goes_on_behind_a_foreign_session,
};
use crate::registration::RegistrationModel;
use crate::turn::{Event, Record, TurnModel, TurnPhase};
use vstd::prelude::*;

verus! {

/// A new reader is at the beginning: it has read nothing, knows of no turn and has not verified
/// the session.
pub proof fn a_new_reader_knows_nothing(registration: RegistrationModel)
    ensures
        ({
            let reader = ReaderModel::initial(registration);
            &&& reader.registration == registration
            &&& reader.partial.len() == 0
            &&& reader.consumed == 0
            &&& !reader.verified_session
            &&& reader.turn is None
            &&& reader.well_formed()
        }),
{
}

/// A file that is shorter than what was read of it is refused as truncated, and nothing of it is
/// taken in, so that it is refused again.
pub proof fn a_truncated_file_is_refused(
    reader: ReaderModel,
    length: u64,
    data: Seq<u8>,
    records: Seq<Option<Record>>,
    replay: bool,
)
    requires
        length < reader.consumed,
    ensures
        reader.pass(length, data, records, replay).0 == Err::<
            Seq<(TurnModel, bool)>,
            TranscriptError,
        >(TranscriptError::Truncated),
        reader.pass(length, data, records, replay).1 == reader,
{
}

/// A file that is as long as what was read of it, or longer, is never refused as truncated. Where
/// it has not grown, a live pass finds nothing and leaves the reader as it is.
pub proof fn a_file_that_did_not_shrink_is_read(
    reader: ReaderModel,
    length: u64,
    data: Seq<u8>,
    records: Seq<Option<Record>>,
    replay: bool,
)
    requires
        length >= reader.consumed,
    ensures
        reader.pass(length, data, records, replay).0 != Err::<
            Seq<(TurnModel, bool)>,
            TranscriptError,
        >(TranscriptError::Truncated),
        reader.pass(length, data, records, replay).0 == reader.outcome(records, replay),
        reader.pass(length, data, records, replay).1 == reader.after_pass(data, records),
        reader.well_formed() ==> reader.pass(length, Seq::empty(), Seq::empty(), false) == (
            Ok::<Seq<(TurnModel, bool)>, TranscriptError>(Seq::empty()),
            reader,
        ),
{
    if reader.well_formed() {
        let none = Seq::<u8>::empty();
        assert(reader.partial + none =~= reader.partial);
        lemma_no_newline(reader.partial);
        assert(reader.taken(none, Seq::empty()) == none);
    }
}

/// A session record with any other text than the session's identifier, wherever it stands, makes
/// every pass fail with a mismatch, be it the first one or a later one.
pub proof fn a_foreign_session_is_refused(
    reader: ReaderModel,
    records: Seq<Option<Record>>,
    at: int,
    replay: bool,
)
    requires
        0 <= at < records.len(),
        records[at] is Some,
        records[at]->0 is Session,
        records[at]->0->id@ != reader.registration.session_id,
    ensures
        reader.outcome(records, replay) == Err::<Seq<(TurnModel, bool)>, TranscriptError>(
            TranscriptError::SessionMismatch,
        ),
{
    lemma_all_own(reader.registration.session_id, records);
    assert(names_other_session(reader.registration.session_id, records[at]));
}

/// A transcript all of whose session records hold other text verifies nothing.
pub proof fn foreign_sessions_verify_nothing(
    reader: ReaderModel,
    data: Seq<u8>,
    records: Seq<Option<Record>>,
)
    requires
        forall|i: int|
            0 <= i < records.len() && #[trigger] records[i] is Some && records[i]->0 is Session
                ==> records[i]->0->id@ != reader.registration.session_id,
    ensures
        reader.after_pass(data, records).verified_session == reader.verified_session,
{
    let session_id = reader.registration.session_id;
    let own = own_records(session_id, records);
    own_records_end_at_the_first_foreign_session(session_id, records);
    if verified_after(reader.verified_session, own) && !reader.verified_session {
        let i = choose|i: int| 0 <= i < own.len() && names_session(#[trigger] own[i]);
        assert(records[i] == own[i]);
        assert(names_other_session(session_id, records[i]));
    }
}

/// A pass goes as far as the first session record with other text: what stands before it counts
/// in full, what stands behind it does not count.
pub proof fn a_pass_ends_at_the_first_foreign_session(
    reader: ReaderModel,
    data: Seq<u8>,
    records: Seq<Option<Record>>,
    at: int,
)
    requires
        0 <= at < records.len(),
        records[at] is Some,
        records[at]->0 is Session,
        records[at]->0->id@ != reader.registration.session_id,
        forall|i: int|
            0 <= i < at && #[trigger] records[i] is Some && records[i]->0 is Session
                ==> records[i]->0->id@ == reader.registration.session_id,
    ensures
        reader.after_pass(data, records).verified_session == reader.after_records(
            records.take(at),
        ).verified_session,
        reader.after_pass(data, records).turn == reader.after_records(records.take(at)).turn,
        reader.after_pass(data, records).registration == reader.registration,
{
    let session_id = reader.registration.session_id;
    let own = own_records(session_id, records);
    own_records_end_at_the_first_foreign_session(session_id, records);
    assert(names_other_session(session_id, records[at]));
    if own.len() > at {
        assert(!names_other_session(session_id, records[at]));
    } else if own.len() < at {
        assert(names_other_session(session_id, records[own.len() as int]));
    }
    assert(own == records.take(at));
}

/// A pass that meets a session record with other text takes in the bytes of the lines up to that
/// record's, and none behind them.
pub proof fn a_refused_pass_takes_in_the_foreign_line(
    reader: ReaderModel,
    data: Seq<u8>,
    records: Seq<Option<Record>>,
    at: int,
)
    requires
        reader.well_formed(),
        reader.consumed + data.len() <= u64::MAX,
        records.len() == reader.lines(data).len(),
        0 <= at < records.len(),
        records[at] is Some,
        records[at]->0 is Session,
        records[at]->0->id@ != reader.registration.session_id,
        forall|i: int|
            0 <= i < at && #[trigger] records[i] is Some && records[i]->0 is Session
                ==> records[i]->0->id@ == reader.registration.session_id,
    ensures
        ({
            let after = reader.after_pass(data, records);
            let size = after.consumed - reader.consumed;
            &&& 0 <= size <= data.len()
            &&& reader.partial + data.take(size) == joined(reader.lines(data).take(at + 1))
            &&& after.partial == Seq::<u8>::empty()
        }),
{
    let session_id = reader.registration.session_id;
    let own = own_records(session_id, records);
    own_records_end_at_the_first_foreign_session(session_id, records);
    assert(names_other_session(session_id, records[at]));
    if own.len() > at {
        assert(!names_other_session(session_id, records[at]));
    } else if own.len() < at {
        assert(names_other_session(session_id, records[own.len() as int]));
    }
    reading_goes_on_behind_a_foreign_session(reader, data, records);
}

/// A transcript whose session records all hold the session's identifier is never refused as
/// foreign, and all of it is taken in.
pub proof fn the_own_session_is_accepted(
    reader: ReaderModel,
    data: Seq<u8>,
    records: Seq<Option<Record>>,
    replay: bool,
)
    requires
        forall|i: int|
            0 <= i < records.len() && #[trigger] records[i] is Some && records[i]->0 is Session
                ==> records[i]->0->id@ == reader.registration.session_id,
    ensures
        reader.outcome(records, replay) != Err::<Seq<(TurnModel, bool)>, TranscriptError>(
            TranscriptError::SessionMismatch,
        ),
        reader.outcome(records, false) is Ok,
        reader.registration.replay_after is None ==> reader.outcome(records, replay) is Ok,
        reader.after_pass(data, records).turn == reader.after_records(records).turn,
        reader.after_pass(data, records).verified_session == reader.after_records(
            records,
        ).verified_session,
        reader.after_pass(data, records).partial == reader.after_bytes(data).partial,
        reader.consumed + data.len() <= u64::MAX ==> reader.after_pass(data, records).consumed
            == reader.consumed + data.len(),
        reader.after_pass(data, records).registration == reader.registration,
{
    lemma_own_text(reader.registration.session_id, records);
}

/// Records whose session identifiers are all the session's are all its own.
proof fn lemma_own_text(session_id: Seq<char>, records: Seq<Option<Record>>)
    requires
        forall|i: int|
            0 <= i < records.len() && #[trigger] records[i] is Some && records[i]->0 is Session
                ==> records[i]->0->id@ == session_id,
    ensures
        own_records(session_id, records) == records,
{
    lemma_all_own(session_id, records);
    assert forall|i: int| 0 <= i < records.len() implies !names_other_session(
        session_id,
        #[trigger] records[i],
    ) by {}
}

/// A session is verified by records exactly where it was before or one of them is a session
/// record.
pub proof fn a_session_record_verifies(reader: ReaderModel, records: Seq<Option<Record>>, at: int)
    ensures
        reader.verified_session ==> reader.after_records(records).verified_session,
        0 <= at < records.len() && records[at] is Some && records[at]->0 is Session
            ==> reader.after_records(records).verified_session,
        !reader.verified_session && (forall|i: int|
            0 <= i < records.len() && #[trigger] records[i] is Some ==> !(records[i]->0
                is Session)) ==> !reader.after_records(records).verified_session,
{
    if 0 <= at < records.len() && records[at] is Some && records[at]->0 is Session {
        assert(names_session(records[at]));
    }
    if !reader.verified_session && reader.after_records(records).verified_session {
        let i = choose|i: int| 0 <= i < records.len() && names_session(#[trigger] records[i]);
        assert(records[i] is Some && records[i]->0 is Session);
    }
}

/// Records touch neither the registration nor the bytes read.
pub proof fn records_touch_no_bytes(reader: ReaderModel, records: Seq<Option<Record>>)
    ensures
        reader.after_records(records).registration == reader.registration,
        reader.after_records(records).partial == reader.partial,
        reader.after_records(records).consumed == reader.consumed,
{
}

/// What one record makes of a reader.
proof fn lemma_one_more(reader: ReaderModel, record: Option<Record>)
    ensures
        reader.marks(seq![record]) == (match change(reader.turn, record) {
            Some(next) => seq![
                Mark { turn: next, verified: reader.verified_session || names_session(record) },
            ],
            None => Seq::empty(),
        }),
        reader.after_records(seq![record]).turn == (match change(reader.turn, record) {
            Some(next) => Some(next),
            None => reader.turn,
        }),
        reader.after_records(seq![record]).verified_session == (reader.verified_session
            || names_session(record)),
{
    let one = seq![record];
    assert(one.drop_last() =~= Seq::empty());
    assert(one.last() == record);
    lemma_verified_push(reader.verified_session, one);
    assert(history(reader.turn, reader.verified_session, one.drop_last()).len() == 0);
    assert(reader.marks(one) =~= (match change(reader.turn, record) {
        Some(next) => seq![
            Mark { turn: next, verified: reader.verified_session || names_session(record) },
        ],
        None => Seq::empty(),
    }));
}

/// A live pass over the one record `record`.
proof fn lemma_one_live(reader: ReaderModel, record: Option<Record>)
    requires
        record is Some ==> !(record->0 is Session),
    ensures
        reader.outcome(seq![record], false) == Ok::<Seq<(TurnModel, bool)>, TranscriptError>(
            match change(reader.turn, record) {
                Some(next) if reader.verified_session => seq![(next, false)],
                _ => Seq::empty(),
            },
        ),
{
    let one = seq![record];
    lemma_one_more(reader, record);
    lemma_own_text(reader.registration.session_id, one);
    let marks = reader.marks(one);
    if marks.len() > 0 {
        assert(marks.drop_last() =~= Seq::empty());
        assert(reported(marks.drop_last()) =~= Seq::empty());
        if reader.verified_session {
            assert(reported(marks) =~= seq![(marks.last().turn, false)]);
        }
    }
}

/// The start of a turn makes it the current one, active, whatever was current before. It is
/// reported, as news, unless that very turn was active already or the session is not verified.
pub proof fn a_start_makes_a_turn_active(reader: ReaderModel, turn_id: String)
    ensures
        ({
            let records = seq![Some(Record::Event(Event::Started { turn_id }))];
            let turn = TurnModel { id: turn_id@, phase: TurnPhase::Active };
            &&& reader.after_records(records).turn == Some(turn)
            &&& reader.after_records(records).verified_session == reader.verified_session
            &&& reader.verified_session && reader.turn != Some(turn) ==> reader.outcome(
                records,
                false,
            ) == Ok::<Seq<(TurnModel, bool)>, TranscriptError>(seq![(turn, false)])
            &&& !reader.verified_session || reader.turn == Some(turn) ==> reader.outcome(
                records,
                false,
            ) == Ok::<Seq<(TurnModel, bool)>, TranscriptError>(Seq::empty())
        }),
{
    let record = Some(Record::Event(Event::Started { turn_id }));
    lemma_one_more(reader, record);
    lemma_one_live(reader, record);
}

/// The end of the current turn, or of any turn where none is known, ends it: completed where it
/// ran to its end, aborted where it was broken off. It is reported, as news, unless the turn had
/// ended so already or the session is not verified.
pub proof fn an_end_ends_the_current_turn(reader: ReaderModel, turn_id: String, aborted: bool)
    requires
        reader.turn is None || reader.turn->0.id == turn_id@,
    ensures
        ({
            let records = if aborted {
                seq![Some(Record::Event(Event::Aborted { turn_id }))]
            } else {
                seq![Some(Record::Event(Event::Complete { turn_id }))]
            };
            let phase = if aborted {
                TurnPhase::Aborted
            } else {
                TurnPhase::Completed
            };
            let turn = TurnModel { id: turn_id@, phase };
            &&& reader.after_records(records).turn == Some(turn)
            &&& reader.after_records(records).verified_session == reader.verified_session
            &&& reader.verified_session && reader.turn != Some(turn) ==> reader.outcome(
                records,
                false,
            ) == Ok::<Seq<(TurnModel, bool)>, TranscriptError>(seq![(turn, false)])
            &&& !reader.verified_session || reader.turn == Some(turn) ==> reader.outcome(
                records,
                false,
            ) == Ok::<Seq<(TurnModel, bool)>, TranscriptError>(Seq::empty())
        }),
{
    let record = if aborted {
        Some(Record::Event(Event::Aborted { turn_id }))
    } else {
        Some(Record::Event(Event::Complete { turn_id }))
    };
    lemma_one_more(reader, record);
    lemma_one_live(reader, record);
}

/// The end of a turn other than the current one, an event that does not concern turns, any other
/// record and a line that holds none leave everything as it is and are not reported.
pub proof fn other_records_change_nothing(reader: ReaderModel, record: Option<Record>)
    requires
        record is Some ==> !(record->0 is Session),
        record is Some && record->0 is Event ==> {
            let event = record->0->Event_0;
            ||| event is Other
            ||| event is Complete && reader.turn is Some && reader.turn->0.id
                != event->Complete_turn_id@
            ||| event is Aborted && reader.turn is Some && reader.turn->0.id
                != event->Aborted_turn_id@
        },
    ensures
        reader.after_records(seq![record]) == reader,
        reader.outcome(seq![record], false) == Ok::<Seq<(TurnModel, bool)>, TranscriptError>(
            Seq::empty(),
        ),
{
    lemma_one_more(reader, record);
    lemma_one_live(reader, record);
}

/// A session record with the session's identifier verifies the session. It touches no turn and
/// is not reported.
pub proof fn a_session_record_touches_no_turn(reader: ReaderModel, id: String)
    requires
        id@ == reader.registration.session_id,
    ensures
        ({
            let records = seq![Some(Record::Session { id })];
            &&& reader.after_records(records).verified_session
            &&& reader.after_records(records).turn == reader.turn
            &&& reader.outcome(records, false) == Ok::<Seq<(TurnModel, bool)>, TranscriptError>(
                Seq::empty(),
            )
        }),
{
    let record = Some(Record::Session { id });
    lemma_one_more(reader, record);
    lemma_own_text(reader.registration.session_id, seq![record]);
}

/// A record that leaves the turn as it is and is no session record makes no difference to any
/// pass, wherever it stands.
pub proof fn a_repetition_makes_no_difference(
    reader: ReaderModel,
    front: Seq<Option<Record>>,
    record: Option<Record>,
    back: Seq<Option<Record>>,
    replay: bool,
)
    requires
        record is Some ==> !(record->0 is Session),
        reader.after_records(front.push(record)).turn == reader.after_records(front).turn,
    ensures
        reader.outcome(front.push(record) + back, replay) == reader.outcome(front + back, replay),
        reader.after_records(front.push(record) + back) == reader.after_records(front + back),
{
    let session_id = reader.registration.session_id;
    let one = seq![record];
    let longer = front.push(record);
    assert(longer =~= front + one);
    live_passes_compose(reader, front, one);
    lemma_one_more(reader.after_records(front), record);
    lemma_history_append(reader.turn, reader.verified_session, front, one);
    assert(reader.marks(longer) =~= reader.marks(front));
    live_passes_compose(reader, longer, back);
    live_passes_compose(reader, front, back);
    lemma_history_append(reader.turn, reader.verified_session, longer, back);
    lemma_history_append(reader.turn, reader.verified_session, front, back);
    assert(reader.after_records(longer) == reader.after_records(front));
    assert(reader.marks(longer + back) == reader.marks(front + back));
    lemma_all_own(session_id, longer + back);
    lemma_all_own(session_id, front + back);
    let shorter = front + back;
    let all = longer + back;
    if exists|i: int| 0 <= i < all.len() && names_other_session(session_id, #[trigger] all[i]) {
        let i = choose|i: int|
            0 <= i < all.len() && names_other_session(session_id, #[trigger] all[i]);
        if i < front.len() {
            assert(shorter[i] == all[i]);
            assert(names_other_session(session_id, shorter[i]));
        } else {
            assert(i > front.len());
            assert(shorter[i - 1] == all[i]);
            assert(names_other_session(session_id, shorter[i - 1]));
        }
    }
    if exists|i: int|
        0 <= i < shorter.len() && names_other_session(session_id, #[trigger] shorter[i]) {
        let i = choose|i: int|
            0 <= i < shorter.len() && names_other_session(session_id, #[trigger] shorter[i]);
        if i < front.len() {
            assert(shorter[i] == all[i]);
            assert(names_other_session(session_id, all[i]));
        } else {
            assert(shorter[i] == all[i + 1]);
            assert(names_other_session(session_id, all[i + 1]));
        }
    }
}

/// A first pass without hook and without handoff over a verified transcript reports the turn
/// that the transcript ends with, as history, and nothing else.
pub proof fn a_plain_replay_reports_the_last_turn(reader: ReaderModel, records: Seq<Option<Record>>)
    requires
        reader.registration.replay_after is None,
        !reader.registration.current_turn_hook,
        reader.after_records(records).verified_session,
        forall|i: int|
            0 <= i < records.len() && #[trigger] records[i] is Some && records[i]->0 is Session
                ==> records[i]->0->id@ == reader.registration.session_id,
    ensures
        reader.after_records(records).turn is Some ==> reader.outcome(records, true) == Ok::<
            Seq<(TurnModel, bool)>,
            TranscriptError,
        >(seq![(reader.after_records(records).turn->0, true)]),
        reader.after_records(records).turn is None ==> reader.outcome(records, true) == Ok::<
            Seq<(TurnModel, bool)>,
            TranscriptError,
        >(Seq::empty()),
{
    lemma_own_text(reader.registration.session_id, records);
}

/// A first pass without handoff over a transcript that has not named its session reports
/// nothing.
pub proof fn an_unverified_replay_reports_nothing(reader: ReaderModel, records: Seq<Option<Record>>)
    requires
        reader.registration.replay_after is None,
        !reader.verified_session,
        forall|i: int|
            0 <= i < records.len() && #[trigger] records[i] is Some ==> !(records[i]->0
                is Session),
    ensures
        reader.outcome(records, true) == Ok::<Seq<(TurnModel, bool)>, TranscriptError>(
            Seq::empty(),
        ),
{
    lemma_own_text(reader.registration.session_id, records);
    a_session_record_verifies(reader, records, 0);
}

/// Records without a start only ever end the turn that was current.
proof fn lemma_without_start(
    turn: Option<TurnModel>,
    verified: bool,
    records: Seq<Option<Record>>,
)
    requires
        forall|i: int|
            0 <= i < records.len() && #[trigger] records[i] is Some && records[i]->0 is Event
                ==> !(records[i]->0->Event_0 is Started),
    ensures
        forall|i: int|
            0 <= i < history(turn, verified, records).len() ==> (#[trigger] history(
                turn,
                verified,
                records,
            )[i]).turn.phase != TurnPhase::Active,
        turn is Some ==> turn_after(turn, history(turn, verified, records)) is Some && turn_after(
            turn,
            history(turn, verified, records),
        )->0.id == turn->0.id,
    decreases records.len(),
{
    if records.len() > 0 {
        let shorter = records.drop_last();
        assert forall|i: int|
            0 <= i < shorter.len() && #[trigger] shorter[i] is Some && shorter[i]->0
                is Event implies !(shorter[i]->0->Event_0 is Started) by {
            assert(shorter[i] == records[i]);
        }
        lemma_without_start(turn, verified, shorter);
        assert(records.last() == records[records.len() - 1]);
        let earlier = history(turn, verified, shorter);
        let marks = history(turn, verified, records);
        assert forall|i: int| 0 <= i < marks.len() implies (
        #[trigger] marks[i]).turn.phase != TurnPhase::Active by {
            if i < earlier.len() {
                assert(marks[i] == earlier[i]);
            }
        }
    }
}

/// Changes to turns that are not active leave the last start where it was.
proof fn lemma_last_start_append(first: Seq<Mark>, second: Seq<Mark>)
    requires
        forall|i: int|
            0 <= i < second.len() ==> (#[trigger] second[i]).turn.phase != TurnPhase::Active,
    ensures
        last_start(first + second) == last_start(first),
    decreases second.len(),
{
    if second.len() == 0 {
        assert(first + second =~= first);
    } else {
        let shorter = second.drop_last();
        assert forall|i: int| 0 <= i < shorter.len() implies (
        #[trigger] shorter[i]).turn.phase != TurnPhase::Active by {
            assert(shorter[i] == second[i]);
        }
        lemma_last_start_append(first, shorter);
        assert((first + second).drop_last() =~= first + shorter);
        assert((first + second).last() == second[second.len() - 1]);
    }
}

/// A first pass for the hook of a turn over a verified transcript reports the last turn that
/// began in it: its start, and how the transcript left it, if it was left ended. Both are news.
pub proof fn a_hook_replay_reports_the_last_start(
    reader: ReaderModel,
    front: Seq<Option<Record>>,
    turn_id: String,
    back: Seq<Option<Record>>,
)
    requires
        reader.registration.replay_after is None,
        reader.registration.current_turn_hook,
        reader.after_records(front).turn != Some(
            TurnModel { id: turn_id@, phase: TurnPhase::Active },
        ),
        forall|i: int|
            0 <= i < front.len() && #[trigger] front[i] is Some && front[i]->0 is Session
                ==> front[i]->0->id@ == reader.registration.session_id,
        forall|i: int|
            0 <= i < back.len() && #[trigger] back[i] is Some && back[i]->0 is Session
                ==> back[i]->0->id@ == reader.registration.session_id,
        forall|i: int|
            0 <= i < back.len() && #[trigger] back[i] is Some && back[i]->0 is Event ==> !(
            back[i]->0->Event_0 is Started),
        reader.after_records(
            front.push(Some(Record::Event(Event::Started { turn_id }))) + back,
        ).verified_session,
    ensures
        ({
            let records = front.push(Some(Record::Event(Event::Started { turn_id }))) + back;
            let start = TurnModel { id: turn_id@, phase: TurnPhase::Active };
            let last = reader.after_records(records).turn;
            &&& last is Some && last->0.id == turn_id@
            &&& last->0.phase == TurnPhase::Active ==> reader.outcome(records, true) == Ok::<
                Seq<(TurnModel, bool)>,
                TranscriptError,
            >(seq![(start, false)])
            &&& last->0.phase != TurnPhase::Active ==> reader.outcome(records, true) == Ok::<
                Seq<(TurnModel, bool)>,
                TranscriptError,
            >(seq![(start, false), (last->0, false)])
        }),
{
    let session_id = reader.registration.session_id;
    let record = Some(Record::Event(Event::Started { turn_id }));
    let start = TurnModel { id: turn_id@, phase: TurnPhase::Active };
    let longer = front.push(record);
    let records = longer + back;
    assert(longer =~= front + seq![record]);
    lemma_own_text(session_id, front);
    lemma_own_text(session_id, back);
    assert forall|i: int|
        0 <= i < records.len() && #[trigger] records[i] is Some && records[i]->0
            is Session implies records[i]->0->id@ == session_id by {
        if i < front.len() {
            assert(records[i] == front[i]);
        } else if i > front.len() {
            assert(records[i] == back[i - front.len() - 1]);
        }
    }
    lemma_own_text(session_id, records);
    let before = reader.after_records(front);
    lemma_one_more(before, record);
    lemma_history_append(reader.turn, reader.verified_session, front, seq![record]);
    let middle = reader.marks(longer);
    assert(middle.last().turn == start);
    lemma_history_append(reader.turn, reader.verified_session, longer, back);
    let later = reader.after_records(longer).marks(back);
    assert(turn_after(reader.turn, middle) == Some(start));
    lemma_without_start(Some(start), verified_after(reader.verified_session, longer), back);
    lemma_last_start_append(middle, later);
    assert(last_start(middle) == Some(start));
    assert(reader.marks(records) == middle + later);
}

/// Without a start in the transcript, a first pass for the hook of a turn reports nothing.
pub proof fn a_hook_replay_without_a_start_reports_nothing(
    reader: ReaderModel,
    records: Seq<Option<Record>>,
)
    requires
        reader.registration.replay_after is None,
        reader.registration.current_turn_hook,
        forall|i: int|
            0 <= i < records.len() && #[trigger] records[i] is Some && records[i]->0 is Session
                ==> records[i]->0->id@ == reader.registration.session_id,
        forall|i: int|
            0 <= i < records.len() && #[trigger] records[i] is Some && records[i]->0 is Event
                ==> !(records[i]->0->Event_0 is Started),
    ensures
        reader.outcome(records, true) == Ok::<Seq<(TurnModel, bool)>, TranscriptError>(
            Seq::empty(),
        ),
{
    lemma_own_text(reader.registration.session_id, records);
    lemma_without_start(reader.turn, reader.verified_session, records);
    let marks = reader.marks(records);
    assert(Seq::<Mark>::empty() + marks =~= marks);
    lemma_last_start_append(Seq::empty(), marks);
}

/// Where no run of the first records leaves `turn` current, none of their changes is to it.
proof fn lemma_never_current(reader: ReaderModel, records: Seq<Option<Record>>, turn: TurnModel)
    requires
        forall|count: int|
            0 <= count <= records.len() ==> (#[trigger] reader.after_records(
                records.take(count),
            )).turn != Some(turn),
    ensures
        forall|i: int|
            0 <= i < reader.marks(records).len() ==> (#[trigger] reader.marks(records)[i]).turn
                != turn,
    decreases records.len(),
{
    if records.len() > 0 {
        let shorter = records.drop_last();
        assert forall|count: int| 0 <= count <= shorter.len() implies (
        #[trigger] reader.after_records(shorter.take(count))).turn != Some(turn) by {
            assert(shorter.take(count) =~= records.take(count));
        }
        lemma_never_current(reader, shorter, turn);
        assert(records.take(records.len() as int) =~= records);
        assert(reader.after_records(records).turn != Some(turn));
        let earlier = reader.marks(shorter);
        let marks = reader.marks(records);
        assert forall|i: int| 0 <= i < marks.len() implies (#[trigger] marks[i]).turn != turn by {
            if i < earlier.len() {
                assert(marks[i] == earlier[i]);
            } else {
                assert(marks[i] == marks.last());
            }
        }
    }
}

/// The first pass after a handoff reports from where the saved turn became current for the first
/// time: exactly what a reader that had got there would report live from then on.
pub proof fn a_handoff_goes_on_where_the_saved_turn_became_current(
    reader: ReaderModel,
    front: Seq<Option<Record>>,
    back: Seq<Option<Record>>,
    saved: TurnModel,
)
    requires
        reader.registration.replay_after == Some(saved),
        reader.after_records(front).turn == Some(saved),
        forall|count: int|
            0 <= count < front.len() ==> (#[trigger] reader.after_records(front.take(count))).turn
                != Some(saved),
        reader.turn != Some(saved),
        forall|i: int|
            0 <= i < front.len() && #[trigger] front[i] is Some && front[i]->0 is Session
                ==> front[i]->0->id@ == reader.registration.session_id,
    ensures
        reader.outcome(front + back, true) == reader.after_records(front).outcome(back, false),
{
    let session_id = reader.registration.session_id;
    let all = front + back;
    assert(front.len() > 0);
    let shorter = front.drop_last();
    assert forall|count: int| 0 <= count <= shorter.len() implies (#[trigger] reader.after_records(
        shorter.take(count),
    )).turn != Some(saved) by {
        assert(shorter.take(count) =~= front.take(count));
    }
    lemma_never_current(reader, shorter, saved);
    let earlier = reader.marks(shorter);
    let marks = reader.marks(front);
    assert(shorter.take(shorter.len() as int) =~= shorter);
    assert(reader.after_records(shorter).turn != Some(saved));
    assert(marks.len() == earlier.len() + 1);
    assert(marks.last().turn == saved);
    lemma_history_append(reader.turn, reader.verified_session, front, back);
    let later = reader.after_records(front).marks(back);
    let whole = marks + later;
    assert(reader.marks(all) == whole);
    let at = earlier.len() as int;
    assert(first_at(whole, saved, at)) by {
        assert forall|i: int| 0 <= i < at implies #[trigger] whole[i].turn != saved by {
            assert(whole[i] == earlier[i]);
        }
    }
    let other = choose|at: int| first_at(whole, saved, at);
    lemma_first_is_unique(whole, saved, at, other);
    assert(behind(whole, saved) =~= later);
    live_passes_compose(reader, front, back);
    lemma_own_text(session_id, front);
    lemma_all_own(session_id, all);
    lemma_all_own(session_id, back);
}

/// Where the saved turn never becomes current, the first pass after a handoff fails.
pub proof fn a_handoff_needs_its_saved_turn(
    reader: ReaderModel,
    records: Seq<Option<Record>>,
    saved: TurnModel,
)
    requires
        reader.registration.replay_after == Some(saved),
        forall|count: int|
            0 <= count <= records.len() ==> (#[trigger] reader.after_records(
                records.take(count),
            )).turn != Some(saved),
        forall|i: int|
            0 <= i < records.len() && #[trigger] records[i] is Some && records[i]->0 is Session
                ==> records[i]->0->id@ == reader.registration.session_id,
    ensures
        reader.outcome(records, true) == Err::<Seq<(TurnModel, bool)>, TranscriptError>(
            TranscriptError::SavedTurnMissing,
        ),
{
    lemma_own_text(reader.registration.session_id, records);
    lemma_never_current(reader, records, saved);
    lemma_first_exists(reader.marks(records), saved);
}

} // verus!
