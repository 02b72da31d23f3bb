//! What the mathematical values keep of the values that they stand for, and when two of them are
//! the same.

use crate::framing::{
    complete_lines, framing_ignores_read_boundaries, framing_undoes_joining, is_line, joined,
    lemma_no_newline, NEWLINE,
};
use crate::observer::{observations_model, ObserverAction, ObserverEvent};
use crate::path::{bytes_model, prefix_model, PathModel, PathPrefix};
use crate::reader::{changes_model, lines_model, outcome_model, ReaderModel, TranscriptError};
use crate::registration::{
    session_model, HandoffSession, Observation, Registration, RegistrationModel, Session,
};
use crate::terminal::{PersistedAgentSession, TerminalState};
use crate::turn::{turn_model, Turn};
use vstd::prelude::*;

verus! {

/// Turns with the same value have the same identifier and phase, and the other way round.
pub proof fn turns_are_told_apart(one: Turn, other: Turn)
    ensures
        one@ == other@ <==> one.id@ == other.id@ && one.phase == other.phase,
        one@.id == one.id@,
        one@.phase == one.phase,
{
}

/// Optional turns have the same value where both are missing or both are there and the same.
pub proof fn optional_turns_are_told_apart(one: Option<Turn>, other: Option<Turn>)
    ensures
        turn_model(one) is None <==> one is None,
        one is Some ==> turn_model(one)->0.id == one->0.id@ && turn_model(one)->0.phase
            == one->0.phase,
        turn_model(one) == turn_model(other) <==> (one is None && other is None || one is Some
            && other is Some && one->0.id@ == other->0.id@ && one->0.phase == other->0.phase),
{
}

/// The value of a registration keeps each of its fields.
pub proof fn registrations_keep_their_fields(registration: Registration)
    ensures
        registration@.terminal_id == registration.terminal_id.name@,
        registration@.generation == registration.generation,
        registration@.session_id == registration.session_id@,
        registration@.path == registration.path@,
        registration@.current_turn_hook == registration.current_turn_hook,
        registration@.replay_after == turn_model(registration.replay_after),
{
}

/// Two registrations are the same exactly where every field is, their paths however spelled.
pub proof fn registrations_are_told_apart(one: RegistrationModel, other: RegistrationModel)
    ensures
        one.terminal_id != other.terminal_id ==> !one.same_registration(other),
        one.generation != other.generation ==> !one.same_registration(other),
        one.session_id != other.session_id ==> !one.same_registration(other),
        !one.path.same_path(other.path) ==> !one.same_registration(other),
        one.current_turn_hook != other.current_turn_hook ==> !one.same_registration(other),
        one.replay_after != other.replay_after ==> !one.same_registration(other),
        one.same_registration(RegistrationModel { path: other.path, ..one }) == one.path.same_path(
            other.path,
        ),
        one.same_registration(other) == other.same_registration(one),
{
}

/// The values of sessions, handoffs and observations keep each of their fields.
pub proof fn sessions_keep_their_fields(
    session: Session,
    handoff: HandoffSession,
    observation: Observation,
)
    ensures
        session@.registration == session.registration@,
        session@.turn == turn_model(session.turn),
        session@.registered_at == session.registered_at.nanos,
        session@.observed_at == session.observed_at.nanos,
        session@.replayed_idle == session.replayed_idle,
        session_model(Some(session)) == Some(session@),
        session_model(None) is None,
        handoff@.session_id == handoff.session_id@,
        handoff@.path == handoff.path@,
        handoff@.turn == turn_model(handoff.turn),
        observation@.registration == observation.registration@,
        observation@.turn == turn_model(observation.turn),
        observation@.observed_at == observation.observed_at.nanos,
        observation@.replay == observation.replay,
        observation@.unavailable == observation.unavailable,
{
}

/// The value of a terminal keeps each of its fields.
pub proof fn terminals_keep_their_fields(terminal: TerminalState)
    ensures
        terminal@.id == terminal.id.name@,
        terminal@.state == terminal.state,
        terminal@.detected_agent == terminal.detected_agent,
        terminal@.reported_state == terminal.reported_state,
        terminal@.fallback_visible_blocker == terminal.fallback_visible_blocker,
        terminal@.hook_authority == terminal.hook_authority,
        terminal@.recent_agent_process_exit == terminal.recent_agent_process_exit,
        terminal@.agent_process_acquisition_pending == terminal.agent_process_acquisition_pending,
        terminal@.persisted_agent_session is Some <==> terminal.persisted_agent_session is Some,
        terminal.persisted_agent_session is Some ==> terminal@.persisted_agent_session->0
            == terminal.persisted_agent_session->0@,
        terminal@.codex_session is Some <==> terminal.codex_session is Some,
        terminal.codex_session is Some ==> terminal@.codex_session->0 == terminal.codex_session->0@,
        terminal@.codex_generation == terminal.codex_generation,
        terminal@.codex_prompt_ready == terminal.codex_prompt_ready,
        terminal@.codex_prompt_started_at == terminal.codex_prompt_started_at,
{
}

/// The value of a session to resume keeps each of its fields. It is one of Codex exactly where
/// the Codex integration reported it and its agent is Codex.
pub proof fn persisted_sessions_keep_their_fields(session: PersistedAgentSession)
    ensures
        session@.source == session.source@,
        session@.agent == session.agent@,
        session@.session_id == session.session_ref.value@,
        session@.is_codex() <==> session.source@ == "herdr:codex"@ && session.agent@ == "codex"@,
{
}

/// Turn changes, lines, byte strings and observations keep their number, order and values.
pub proof fn runs_keep_their_order(
    changes: Seq<(Turn, bool)>,
    lines: Seq<Vec<u8>>,
    observations: Seq<Observation>,
    i: int,
)
    ensures
        changes_model(changes).len() == changes.len(),
        0 <= i < changes.len() ==> changes_model(changes)[i].0 == changes[i].0@ && changes_model(
            changes,
        )[i].1 == changes[i].1,
        lines_model(lines).len() == lines.len(),
        0 <= i < lines.len() ==> lines_model(lines)[i] == lines[i]@,
        bytes_model(lines).len() == lines.len(),
        0 <= i < lines.len() ==> bytes_model(lines)[i] == lines[i]@,
        observations_model(observations).len() == observations.len(),
        0 <= i < observations.len() ==> observations_model(observations)[i] == observations[i]@,
{
}

/// The value of an outcome keeps whether it is an error, which one, and the changes.
pub proof fn outcomes_are_told_apart(outcome: Result<Vec<(Turn, bool)>, TranscriptError>)
    ensures
        outcome is Err ==> outcome_model(outcome) is Err && outcome_model(outcome)->Err_0
            == outcome->Err_0,
        outcome is Ok ==> outcome_model(outcome) is Ok && outcome_model(outcome)->Ok_0.len()
            == outcome->Ok_0@.len(),
        outcome is Ok ==> forall|i: int|
            0 <= i < outcome->Ok_0@.len() ==> (#[trigger] outcome_model(outcome)->Ok_0[i]).0
                == outcome->Ok_0@[i].0@ && outcome_model(outcome)->Ok_0[i].1
                == outcome->Ok_0@[i].1,
{
}

/// The values of events and actions keep which one it is and everything in it.
pub proof fn events_and_actions_are_told_apart(event: ObserverEvent, action: ObserverAction)
    ensures
        event is Passed <==> event@ is Passed,
        event is Passed ==> event@->Passed_changes == changes_model(event->Passed_changes@)
            && event@->Passed_at == event->Passed_at.nanos,
        event is Failed <==> event@ is Failed,
        event is Failed ==> event@->Failed_at == event->Failed_at.nanos,
        event is Delivered <==> event@ is Delivered,
        event is Closed <==> event@ is Closed,
        event is Rested <==> event@ is Rested,
        action is Read <==> action@ is Read,
        action is Read ==> action@->replay == action->replay,
        action is Send <==> action@ is Send,
        action is Send ==> action@->Send_0 == action->Send_0@,
        action is Rest <==> action@ is Rest,
        action is Rest ==> action@->millis == action->millis,
        action is Stop <==> action@ is Stop,
{
}

/// Each error has its own words.
pub proof fn errors_have_their_words()
    ensures
        TranscriptError::Truncated.words() == "Codex transcript was truncated"@,
        TranscriptError::SessionMismatch.words() == "Codex transcript session does not match"@,
        TranscriptError::SavedTurnMissing.words()
            == "Saved Codex turn was not found in transcript"@,
{
}

/// Without prefixes, paths are the same exactly where their components are, whatever else is
/// known of them.
pub proof fn plain_paths_are_the_same_by_their_components(one: PathModel, other: PathModel)
    requires
        one.prefix is None,
        other.prefix is None,
    ensures
        one.same_path(other) <==> one.components == other.components,
{
}

/// With prefixes, the first component spells the prefix and does not count: paths are the same
/// exactly where the prefixes name the same and the further components are equal.
pub proof fn prefixed_paths_are_the_same_behind_their_prefix(one: PathModel, other: PathModel)
    requires
        one.prefix is Some,
        other.prefix is Some,
        one.components.len() > 0,
        other.components.len() > 0,
    ensures
        one.same_path(other) <==> one.prefix->0 == other.prefix->0 && one.components.len()
            == other.components.len() && forall|i: int|
            1 <= i < one.components.len() ==> #[trigger] one.components[i] == other.components[i],
{
    let left = one.components.drop_first();
    let right = other.components.drop_first();
    if one.same_path(other) {
        assert(left.len() == right.len());
        assert forall|i: int| 1 <= i < one.components.len() implies #[trigger] one.components[i]
            == other.components[i] by {
            assert(left[i - 1] == one.components[i]);
            assert(right[i - 1] == other.components[i]);
        }
    } else if one.prefix->0 == other.prefix->0 && one.components.len() == other.components.len()
        && forall|i: int|
        1 <= i < one.components.len() ==> #[trigger] one.components[i] == other.components[i] {
        assert forall|i: int| 0 <= i < left.len() implies left[i] == right[i] by {
            assert(left[i] == one.components[i + 1]);
        }
        assert(left =~= right);
    }
}

/// A path with a prefix is never the same as one without.
pub proof fn a_prefix_makes_a_difference(one: PathModel, other: PathModel)
    requires
        one.prefix != other.prefix,
    ensures
        !one.same_path(other),
{
}

/// Being the same path is an equivalence.
pub proof fn being_the_same_path_is_an_equivalence(
    one: PathModel,
    other: PathModel,
    third: PathModel,
)
    ensures
        one.same_path(one),
        one.same_path(other) == other.same_path(one),
        one.same_path(other) && other.same_path(third) ==> one.same_path(third),
{
}

/// The value of a prefix keeps its kind and the names in it.
pub proof fn prefixes_are_told_apart(one: PathPrefix, other: PathPrefix)
    ensures
        prefix_model(Some(one)) == Some(one@),
        prefix_model(None) is None,
        one@ == other@ <==> {
            ||| one is Verbatim && other is Verbatim && one->Verbatim_0@ == other->Verbatim_0@
            ||| one is VerbatimUnc && other is VerbatimUnc && one->VerbatimUnc_0@
                == other->VerbatimUnc_0@ && one->VerbatimUnc_1@ == other->VerbatimUnc_1@
            ||| one is VerbatimDisk && other is VerbatimDisk && one->VerbatimDisk_0
                == other->VerbatimDisk_0
            ||| one is DeviceNs && other is DeviceNs && one->DeviceNs_0@ == other->DeviceNs_0@
            ||| one is Unc && other is Unc && one->Unc_0@ == other->Unc_0@ && one->Unc_1@
                == other->Unc_1@
            ||| one is Disk && other is Disk && one->Disk_0 == other->Disk_0
        },
{
}

/// Joining puts byte strings behind one another.
pub proof fn joining_puts_lines_behind_one_another(lines: Seq<Seq<u8>>, line: Seq<u8>)
    ensures
        joined(Seq::empty()) == Seq::<u8>::empty(),
        joined(lines.push(line)) == joined(lines) + line,
{
    assert(lines.push(line).drop_last() =~= lines);
}

/// A reader finds lines wherever byte 10 ends them: where what it had left over and the further
/// bytes come to some lines, each with byte 10 at its end and nowhere else, and a rest without
/// it, the reader finds exactly those lines and has exactly that rest left over.
pub proof fn a_reader_finds_the_lines_there_are(
    reader: ReaderModel,
    data: Seq<u8>,
    lines: Seq<Seq<u8>>,
    rest: Seq<u8>,
)
    requires
        reader.partial + data == joined(lines) + rest,
        forall|i: int| 0 <= i < lines.len() ==> (#[trigger] lines[i]).len() > 0,
        forall|i: int, j: int|
            0 <= i < lines.len() && 0 <= j < lines[i].len() ==> (#[trigger] lines[i][j] == 10u8
                <==> j == lines[i].len() - 1),
        forall|i: int| 0 <= i < rest.len() ==> #[trigger] rest[i] != 10u8,
    ensures
        reader.lines(data) == lines,
        reader.after_bytes(data).partial == rest,
{
    assert forall|i: int| 0 <= i < lines.len() implies is_line(#[trigger] lines[i]) by {
        let line = lines[i];
        assert(lines[i][line.len() - 1] == 10u8);
        assert forall|j: int| 0 <= j < line.drop_last().len() implies line.drop_last()[j]
            != NEWLINE by {
            assert(line.drop_last()[j] == lines[i][j]);
        }
    }
    framing_undoes_joining(lines);
    framing_ignores_read_boundaries(joined(lines), rest);
    assert(Seq::<u8>::empty() + rest =~= rest);
    assert(!rest.contains(NEWLINE));
    lemma_no_newline(rest);
    assert(complete_lines(joined(lines) + rest) =~= lines);
}

/// Further bytes are counted, and touch neither the session nor its turn.
pub proof fn bytes_touch_no_turn(reader: ReaderModel, data: Seq<u8>)
    requires
        reader.consumed + data.len() <= u64::MAX,
    ensures
        reader.after_bytes(data).consumed == reader.consumed + data.len(),
        reader.after_bytes(data).registration == reader.registration,
        reader.after_bytes(data).verified_session == reader.verified_session,
        reader.after_bytes(data).turn == reader.turn,
{
}

/// A reader is well formed exactly where byte 10 does not stand among what it has left over.
pub proof fn nothing_finished_is_left_over(reader: ReaderModel)
    ensures
        reader.well_formed() <==> forall|i: int|
            0 <= i < reader.partial.len() ==> #[trigger] reader.partial[i] != 10u8,
{
    if reader.well_formed() {
        assert forall|i: int| 0 <= i < reader.partial.len() implies #[trigger] reader.partial[i]
            != 10u8 by {
            assert(reader.partial.contains(reader.partial[i]));
        }
    }
}

} // verus!
