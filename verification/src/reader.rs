//! Reading turn changes from a transcript as it grows.

use crate::framing::{
    complete_lines, framing_ignores_read_boundaries, framing_keeps_every_byte, joined,
    lemma_no_newline, unfinished_holds_no_newline, unfinished_line, NEWLINE,
};
use crate::history::{
    behind, change, ends_current, history, last_start, lemma_reaches_push, lemma_verified_push,
    names_other_session, own_records, own_records_end_at_the_first_foreign_session, reaches,
    reported, turn_after, verified_after, Mark,
};
use crate::registration::{Registration, RegistrationModel};
use crate::turn::{is_turn, turn_model, Event, Record, Turn, TurnModel, TurnPhase};
use vstd::prelude::*;

verus! {

/// Why a transcript cannot be followed any further.
#[derive(Debug, Clone, Copy, PartialEq, Eq, Structural)]
pub enum TranscriptError {
    /// The file is shorter than what was already read of it.
    Truncated,
    /// The transcript belongs to another session.
    SessionMismatch,
    /// The turn up to which the transcript had been applied does not occur in it.
    SavedTurnMissing,
}

impl TranscriptError {
    /// The error in words.
    pub open spec fn words(self) -> Seq<char> {
        match self {
            TranscriptError::Truncated => "Codex transcript was truncated"@,
            TranscriptError::SessionMismatch => "Codex transcript session does not match"@,
            TranscriptError::SavedTurnMissing => "Saved Codex turn was not found in transcript"@,
        }
    }

    /// The error in words.
    pub fn message(&self) -> (message: String)
        ensures
            message@ == self.words(),
    {
        match self {
            TranscriptError::Truncated => "Codex transcript was truncated".to_owned(),
            TranscriptError::SessionMismatch => {
                "Codex transcript session does not match".to_owned()
            },
            TranscriptError::SavedTurnMissing => {
                "Saved Codex turn was not found in transcript".to_owned()
            },
        }
    }
}

/// A reader of one transcript: what it has read so far and what that came to.
#[derive(Debug)]
pub struct Reader {
    registration: Registration,
    partial: Vec<u8>,
    consumed: u64,
    verified_session: bool,
    turn: Option<Turn>,
}

/// The mathematical value of a [`Reader`].
pub struct ReaderModel {
    pub registration: RegistrationModel,
    /// The bytes behind the last newline read.
    pub partial: Seq<u8>,
    /// How many bytes were read in all.
    pub consumed: u64,
    /// Whether the transcript has named the session that it should.
    pub verified_session: bool,
    /// The last turn found.
    pub turn: Option<TurnModel>,
}

impl View for Reader {
    type V = ReaderModel;

    closed spec fn view(&self) -> ReaderModel {
        ReaderModel {
            registration: self.registration@,
            partial: self.partial@,
            consumed: self.consumed,
            verified_session: self.verified_session,
            turn: turn_model(self.turn),
        }
    }
}

/// Turn changes with whether each is history, by value.
pub open spec fn changes_model(changes: Seq<(Turn, bool)>) -> Seq<(TurnModel, bool)> {
    Seq::new(changes.len(), |i: int| (changes[i].0@, changes[i].1))
}

/// The outcome of a pass, by value.
pub open spec fn outcome_model(outcome: Result<Vec<(Turn, bool)>, TranscriptError>) -> Result<
    Seq<(TurnModel, bool)>,
    TranscriptError,
> {
    match outcome {
        Ok(changes) => Ok(changes_model(changes@)),
        Err(error) => Err(error),
    }
}

/// Lines by value.
pub open spec fn lines_model(lines: Seq<Vec<u8>>) -> Seq<Seq<u8>> {
    Seq::new(lines.len(), |i: int| lines[i]@)
}

impl ReaderModel {
    /// A reader at the beginning of the transcript of `registration`.
    pub open spec fn initial(registration: RegistrationModel) -> ReaderModel {
        ReaderModel {
            registration,
            partial: Seq::empty(),
            consumed: 0,
            verified_session: false,
            turn: None,
        }
    }

    /// No finished line waits among the unfinished bytes.
    pub open spec fn well_formed(self) -> bool {
        !self.partial.contains(NEWLINE)
    }

    /// The changes that `records` make of the last turn found.
    pub open spec fn marks(self, records: Seq<Option<Record>>) -> Seq<Mark> {
        history(self.turn, self.verified_session, records)
    }

    /// The reader after `records`, all of them of its session.
    pub open spec fn after_records(self, records: Seq<Option<Record>>) -> ReaderModel {
        ReaderModel {
            verified_session: verified_after(self.verified_session, records),
            turn: turn_after(self.turn, self.marks(records)),
            ..self
        }
    }

    /// The reader after the further bytes `data`.
    pub open spec fn after_bytes(self, data: Seq<u8>) -> ReaderModel {
        ReaderModel {
            partial: unfinished_line(self.partial + data),
            consumed: (self.consumed + data.len()) as u64,
            ..self
        }
    }

    /// The lines that the further bytes `data` finish.
    pub open spec fn lines(self, data: Seq<u8>) -> Seq<Seq<u8>> {
        complete_lines(self.partial + data)
    }

    /// How many bytes of `data` stand up to the end of the first `count` lines that they finish.
    pub open spec fn bytes_through(self, data: Seq<u8>, count: nat) -> int {
        joined(self.lines(data).take(count as int)).len() - self.partial.len()
    }

    /// What a pass takes in of `data`, whose lines hold `records`: everything, or what stands up
    /// to the end of the line that names another session.
    pub open spec fn taken(self, data: Seq<u8>, records: Seq<Option<Record>>) -> Seq<u8> {
        let own = own_records(self.registration.session_id, records);
        if own.len() < records.len() {
            data.take(self.bytes_through(data, own.len() + 1))
        } else {
            data
        }
    }

    /// The reader after a pass over `data`, whose lines hold `records`.
    pub open spec fn after_pass(self, data: Seq<u8>, records: Seq<Option<Record>>) -> ReaderModel {
        self.after_bytes(self.taken(data, records)).after_records(
            own_records(self.registration.session_id, records),
        )
    }

    /// What a replay reports for the hook of a turn under way: the start of the last turn that
    /// began, and how that turn ended if it did.
    pub open spec fn hook_replay(self, records: Seq<Option<Record>>) -> Seq<(TurnModel, bool)> {
        match last_start(self.marks(records)) {
            Some(start) => {
                let current = turn_after(self.turn, self.marks(records));
                if current matches Some(turn) && turn.id == start.id && turn.phase
                    != TurnPhase::Active {
                    seq![(start, false), (current->0, false)]
                } else {
                    seq![(start, false)]
                }
            },
            None => Seq::empty(),
        }
    }

    /// What a replay without hook reports: the turn that the transcript ends with, as history.
    pub open spec fn idle_replay(self, records: Seq<Option<Record>>) -> Seq<(TurnModel, bool)> {
        match turn_after(self.turn, self.marks(records)) {
            Some(turn) => seq![(turn, true)],
            None => Seq::empty(),
        }
    }

    /// What one pass over `records` comes to.
    pub open spec fn outcome(self, records: Seq<Option<Record>>, replay: bool) -> Result<
        Seq<(TurnModel, bool)>,
        TranscriptError,
    > {
        let marks = self.marks(records);
        if own_records(self.registration.session_id, records).len() < records.len() {
            Err(TranscriptError::SessionMismatch)
        } else if !replay {
            Ok(reported(marks))
        } else {
            match self.registration.replay_after {
                Some(saved) => if reaches(marks, saved) {
                    Ok(reported(behind(marks, saved)))
                } else {
                    Err(TranscriptError::SavedTurnMissing)
                },
                None => if !verified_after(self.verified_session, records) {
                    Ok(Seq::empty())
                } else if self.registration.current_turn_hook {
                    Ok(self.hook_replay(records))
                } else {
                    Ok(self.idle_replay(records))
                },
            }
        }
    }

    /// What a pass over a file of `length` bytes comes to, and the reader after it.
    pub open spec fn pass(
        self,
        length: u64,
        data: Seq<u8>,
        records: Seq<Option<Record>>,
        replay: bool,
    ) -> (Result<Seq<(TurnModel, bool)>, TranscriptError>, ReaderModel) {
        if length < self.consumed {
            (Err(TranscriptError::Truncated), self)
        } else {
            (self.outcome(records, replay), self.after_pass(data, records))
        }
    }
}

impl Reader {
    /// A reader at the beginning of the transcript of `registration`.
    pub fn open(registration: Registration) -> (reader: Reader)
        ensures
            reader@ == (ReaderModel {
                registration: registration@,
                partial: Seq::empty(),
                consumed: 0,
                verified_session: false,
                turn: None,
            }),
            reader@ == ReaderModel::initial(registration@),
            reader@.well_formed(),
    {
        let reader = Reader {
            registration,
            partial: Vec::new(),
            consumed: 0,
            verified_session: false,
            turn: None,
        };
        assert(reader@.partial =~= Seq::empty());
        reader
    }

    /// How many bytes of the transcript were taken in so far.
    pub fn consumed(&self) -> (consumed: u64)
        ensures
            consumed == self@.consumed,
    {
        self.consumed
    }

    /// The lines that the bytes `data` finish, coming behind what was read before. The reader
    /// stays where it is: the lines have to be looked at before the bytes are taken in.
    pub fn finished_lines(&self, data: &[u8]) -> (lines: Vec<Vec<u8>>)
        requires
            self@.well_formed(),
        ensures
            lines_model(lines@) == self@.lines(data@),
    {
        let ghost partial = self@.partial;
        let mut lines: Vec<Vec<u8>> = Vec::new();
        let mut rest: Vec<u8> = self.partial.clone();
        let mut i: usize = 0;
        proof {
            assert(rest@ =~= partial);
            lemma_no_newline(partial);
            assert(partial + data@.take(0) =~= partial);
            assert(lines_model(lines@) =~= complete_lines(partial + data@.take(0)));
        }
        while i < data.len()
            invariant
                i <= data@.len(),
                rest@ == unfinished_line(partial + data@.take(i as int)),
                lines_model(lines@) == complete_lines(partial + data@.take(i as int)),
            decreases data@.len() - i,
        {
            let byte: u8 = data[i];
            let ghost earlier = lines@;
            proof {
                lemma_next_byte(partial, data@, i as int);
            }
            rest.push(byte);
            if byte == NEWLINE {
                let line = rest.clone();
                assert(line@ =~= rest@);
                rest.clear();
                lines.push(line);
                assert(lines_model(lines@) =~= lines_model(earlier).push(line@));
            }
            i = i + 1;
        }
        assert(data@.take(data@.len() as int) =~= data@);
        lines
    }

    /// The turn that `record` changes to, if it changes the last turn found.
    fn changed_turn(&self, record: &Option<Record>) -> (next: Option<Turn>)
        ensures
            turn_model(next) == change(self@.turn, *record),
    {
        let next = match record {
            Some(Record::Event(Event::Started { turn_id })) => Turn {
                id: turn_id.clone(),
                phase: TurnPhase::Active,
            },
            Some(Record::Event(Event::Complete { turn_id })) => {
                if !self.ends_current(turn_id) {
                    return None;
                }
                Turn { id: turn_id.clone(), phase: TurnPhase::Completed }
            },
            Some(Record::Event(Event::Aborted { turn_id })) => {
                if !self.ends_current(turn_id) {
                    return None;
                }
                Turn { id: turn_id.clone(), phase: TurnPhase::Aborted }
            },
            _ => {
                return None;
            },
        };
        match &self.turn {
            Some(turn) => if *turn == next {
                None
            } else {
                Some(next)
            },
            None => Some(next),
        }
    }

    /// Whether the end of turn `id` can concern the last turn found.
    fn ends_current(&self, id: &String) -> (ends: bool)
        ensures
            ends == ends_current(self@.turn, id@),
    {
        match &self.turn {
            Some(turn) => turn.id == *id,
            None => true,
        }
    }

    /// Makes a pass over the bytes `data` that the file, now `length` bytes long, holds behind
    /// what was read before, and returns the turn changes to report, each with whether it is
    /// history. `records` are the records of the lines that these bytes finish, one for each line;
    /// a line that holds none counts as `None`. `replay` is set for the first pass, which reads
    /// what was in the file before.
    ///
    /// A file that is shorter than what was read before has been truncated; nothing is taken in
    /// then. A line that names another session ends the pass: what stands behind that line is
    /// not taken in.
    pub fn read_available(
        &mut self,
        length: u64,
        data: &[u8],
        records: &Vec<Option<Record>>,
        replay: bool,
    ) -> (outcome: Result<Vec<(Turn, bool)>, TranscriptError>)
        requires
            old(self)@.well_formed(),
            old(self)@.consumed + data@.len() <= u64::MAX,
            records@.len() == old(self)@.lines(data@).len(),
        ensures
            (outcome_model(outcome), final(self)@) == old(self)@.pass(
                length,
                data@,
                records@,
                replay,
            ),
            length < old(self)@.consumed ==> {
                &&& outcome_model(outcome) == Err::<Seq<(TurnModel, bool)>, TranscriptError>(
                    TranscriptError::Truncated,
                )
                &&& final(self)@ == old(self)@
            },
            length >= old(self)@.consumed ==> {
                &&& outcome_model(outcome) == old(self)@.outcome(records@, replay)
                &&& final(self)@ == old(self)@.after_pass(data@, records@)
                &&& (outcome matches Err(TranscriptError::SessionMismatch)) <==> exists|i: int|
                    0 <= i < records@.len() && #[trigger] records@[i] is Some && records@[i]->0
                        is Session && records@[i]->0->id@ != old(self)@.registration.session_id
            },
            final(self)@.well_formed(),
    {
        if length < self.consumed {
            return Err(TranscriptError::Truncated);
        }
        let ghost start = self@;
        let ghost session = self@.registration.session_id;
        let mut pass = Pass {
            replay,
            changes: Vec::new(),
            last_started: None,
            reached_handoff_turn: self.registration.replay_after.is_none(),
        };
        let count: usize = records.len();
        let mut line: usize = 0;
        let mut i: usize = 0;
        proof {
            own_records_end_at_the_first_foreign_session(session, records@);
            lemma_no_newline(start.partial);
            assert(start.partial + data@.take(0) =~= start.partial);
            assert(records@.take(0) =~= Seq::empty());
            assert(changes_model(pass.changes@) =~= Seq::empty());
        }
        while i < data.len()
            invariant
                start == old(self)@,
                session == start.registration.session_id,
                start.well_formed(),
                start.consumed + data@.len() <= u64::MAX,
                length >= start.consumed,
                i <= data@.len(),
                records@.len() == start.lines(data@).len(),
                records@.len() == count,
                line == complete_lines(start.partial + data@.take(i as int)).len(),
                line <= own_records(session, records@).len() <= records@.len(),
                pass.replay == replay,
                gathered(start, records@.take(line as int), self@, pass),
                self@.partial == unfinished_line(start.partial + data@.take(i as int)),
                self@.consumed == start.consumed + i,
            decreases data@.len() - i,
        {
            let byte: u8 = data[i];
            proof {
                lemma_next_byte(start.partial, data@, i as int);
                own_records_end_at_the_first_foreign_session(session, records@);
            }
            self.consumed = self.consumed + 1;
            self.partial.push(byte);
            if byte == NEWLINE {
                self.partial.clear();
                proof {
                    lemma_line_ends(start, data@, i as int);
                    assert(records@.take(line as int).push(records@[line as int]) =~= records@.take(
                        line + 1,
                    ));
                }
                if let Err(error) = self.note(
                    &mut pass,
                    &records[line],
                    Ghost(start),
                    Ghost(records@.take(line as int)),
                ) {
                    proof {
                        assert(names_other_session(session, records@[line as int]));
                        assert(own_records(session, records@) == records@.take(line as int));
                        assert(start.taken(data@, records@) == data@.take(i + 1));
                        unfinished_holds_no_newline(start.partial + data@.take(i + 1));
                    }
                    return Err(error);
                }
                line = line + 1;
            }
            i = i + 1;
        }
        proof {
            assert(data@.take(data@.len() as int) =~= data@);
            assert(records@.take(records@.len() as int) =~= records@);
            assert(own_records(session, records@) =~= records@);
            unfinished_holds_no_newline(start.partial + data@);
        }
        self.conclude(pass, Ghost(start), Ghost(records@))
    }

    /// Takes note of the record of one line.
    fn note(
        &mut self,
        pass: &mut Pass,
        record: &Option<Record>,
        Ghost(start): Ghost<ReaderModel>,
        Ghost(seen): Ghost<Seq<Option<Record>>>,
    ) -> (noted: Result<(), TranscriptError>)
        requires
            gathered(start, seen, old(self)@, *old(pass)),
        ensures
            (record is Some && record->0 is Session && record->0->id@
                != start.registration.session_id) == noted is Err,
            names_other_session(start.registration.session_id, *record) ==> {
                &&& noted == Err::<(), TranscriptError>(TranscriptError::SessionMismatch)
                &&& final(self)@ == old(self)@
            },
            !names_other_session(start.registration.session_id, *record) ==> {
                &&& noted is Ok
                &&& gathered(start, seen.push(*record), final(self)@, *final(pass))
            },
            final(self)@.partial == old(self)@.partial,
            final(self)@.consumed == old(self)@.consumed,
            final(pass).replay == old(pass).replay,
    {
        let ghost more = seen.push(*record);
        let ghost saved = start.registration.replay_after;
        let ghost changes = pass.changes@;
        proof {
            assert(more.drop_last() =~= seen);
            lemma_verified_push(start.verified_session, more);
        }
        if let Some(Record::Session { id }) = record {
            if *id != self.registration.session_id {
                return Err(TranscriptError::SessionMismatch);
            }
            self.verified_session = true;
        }
        let next = self.changed_turn(record);
        if let Some(next) = next {
            let ghost mark = Mark {
                turn: next@,
                verified: verified_after(start.verified_session, more),
            };
            proof {
                assert(start.marks(more) == start.marks(seen).push(mark));
                assert(start.marks(more).drop_last() =~= start.marks(seen));
                if let Some(turn) = saved {
                    lemma_reaches_push(start.marks(seen), mark, turn);
                    if reaches(start.marks(seen), turn) {
                        assert(behind(start.marks(more), turn).drop_last() =~= behind(
                            start.marks(seen),
                            turn,
                        ));
                    }
                }
            }
            if next.phase == TurnPhase::Active {
                pass.last_started = Some(next.clone());
            }
            self.turn = Some(next.clone());
            if pass.replay && self.registration.replay_after.is_some() {
                if pass.reached_handoff_turn {
                    if self.verified_session {
                        pass.changes.push((next, false));
                    }
                } else if is_turn(&self.registration.replay_after, &next) {
                    pass.reached_handoff_turn = true;
                }
            } else if !pass.replay && self.verified_session {
                pass.changes.push((next, false));
            }
            proof {
                if pass.changes@.len() > changes.len() {
                    assert(changes_model(pass.changes@) =~= changes_model(changes).push(
                        (mark.turn, false),
                    ));
                }
            }
        }
        Ok(())
    }

    /// Weighs the end of a pass.
    fn conclude(
        &self,
        pass: Pass,
        Ghost(start): Ghost<ReaderModel>,
        Ghost(records): Ghost<Seq<Option<Record>>>,
    ) -> (outcome: Result<Vec<(Turn, bool)>, TranscriptError>)
        requires
            gathered(start, records, self@, pass),
            own_records(start.registration.session_id, records) == records,
        ensures
            outcome_model(outcome) == start.outcome(records, pass.replay),
    {
        let replay = pass.replay;
        let mut changes = pass.changes;
        if replay && self.registration.replay_after.is_some() && !pass.reached_handoff_turn {
            return Err(TranscriptError::SavedTurnMissing);
        }
        if replay && self.verified_session && self.registration.replay_after.is_none() {
            assert(changes_model(changes@).len() == 0);
            if self.registration.current_turn_hook {
                // A turn's start is recorded before the hook that registers its transcript runs,
                // on resumption too; its end may be recorded before this first pass.
                if let Some(began) = pass.last_started {
                    let ended = self.ended_turn(&began);
                    changes.push((began, false));
                    if let Some(turn) = ended {
                        changes.push((turn, false));
                    }
                }
            } else if let Some(turn) = &self.turn {
                changes.push((turn.clone(), true));
            }
        }
        proof {
            assert(changes_model(changes@) =~= start.outcome(records, replay)->Ok_0);
        }
        Ok(changes)
    }

    /// The last turn found, if it is `start` and has ended.
    fn ended_turn(&self, start: &Turn) -> (ended: Option<Turn>)
        ensures
            turn_model(ended) == (match self@.turn {
                Some(turn) if turn.id == start@.id && turn.phase != TurnPhase::Active => Some(turn),
                _ => None,
            }),
    {
        match &self.turn {
            Some(turn) => if turn.id == start.id && turn.phase != TurnPhase::Active {
                Some(turn.clone())
            } else {
                None
            },
            None => None,
        }
    }
}

/// What a pass has gathered so far.
struct Pass {
    replay: bool,
    changes: Vec<(Turn, bool)>,
    last_started: Option<Turn>,
    reached_handoff_turn: bool,
}

/// Whether `reader` and `pass` are what `start` and a new pass have become after `records`.
spec fn gathered(
    start: ReaderModel,
    records: Seq<Option<Record>>,
    reader: ReaderModel,
    pass: Pass,
) -> bool {
    let marks = start.marks(records);
    &&& reader.registration == start.registration
    &&& reader.verified_session == verified_after(start.verified_session, records)
    &&& reader.turn == turn_after(start.turn, marks)
    &&& turn_model(pass.last_started) == last_start(marks)
    &&& pass.replay ==> pass.reached_handoff_turn == (start.registration.replay_after matches Some(
        saved,
    ) ==> reaches(marks, saved))
    &&& changes_model(pass.changes@) == pending(start, records, pass.replay)
}

/// How one byte more is framed.
proof fn lemma_next_byte(partial: Seq<u8>, data: Seq<u8>, at: int)
    requires
        0 <= at < data.len(),
    ensures
        ({
            let before = partial + data.take(at);
            let after = partial + data.take(at + 1);
            &&& data[at] == NEWLINE ==> complete_lines(after) == complete_lines(before).push(
                unfinished_line(before).push(NEWLINE),
            ) && unfinished_line(after) == Seq::<u8>::empty()
            &&& data[at] != NEWLINE ==> complete_lines(after) == complete_lines(before)
                && unfinished_line(after) == unfinished_line(before).push(data[at])
        }),
{
    let after = partial + data.take(at + 1);
    assert(after.drop_last() =~= partial + data.take(at));
    assert(after.last() == data[at]);
}

/// Where a line ends at position `at` of `data`, the lines up to there are the first ones of the
/// whole, and they take up all the bytes up to there.
proof fn lemma_line_ends(reader: ReaderModel, data: Seq<u8>, at: int)
    requires
        0 <= at < data.len(),
        data[at] == NEWLINE,
    ensures
        ({
            let count = complete_lines(reader.partial + data.take(at)).len() + 1;
            &&& count <= reader.lines(data).len()
            &&& reader.bytes_through(data, count) == at + 1
        }),
{
    let first = reader.partial + data.take(at + 1);
    let second = data.skip(at + 1);
    lemma_next_byte(reader.partial, data, at);
    assert(first + second =~= reader.partial + data);
    framing_ignores_read_boundaries(first, second);
    framing_keeps_every_byte(first);
    let count = complete_lines(first).len();
    assert(reader.lines(data).take(count as int) =~= complete_lines(first));
    assert(joined(complete_lines(first)) =~= first);
}

/// What a pass has gathered after `records`, before its end is weighed.
spec fn pending(start: ReaderModel, records: Seq<Option<Record>>, replay: bool) -> Seq<
    (TurnModel, bool),
> {
    let marks = start.marks(records);
    if !replay {
        reported(marks)
    } else {
        match start.registration.replay_after {
            Some(saved) if reaches(marks, saved) => reported(behind(marks, saved)),
            _ => Seq::empty(),
        }
    }
}

} // verus!
