//! What a terminal does with registrations, observations, handoffs and prompts, said of its
//! fields alone.

use crate::path::PathModel;
use crate::registration::{HandoffModel, ObservationModel, SessionModel};
use crate::terminal::{state_change, Agent, AgentState, PersistedModel, TerminalModel};
use crate::time::Timestamp;
use crate::turn::{TurnModel, TurnPhase};
use vstd::prelude::*;

verus! {

/// An observation is heard whenever its registration is the one in force, no exit is recorded, no
/// agent other than Codex was found, and the session to resume is the Codex session of that
/// registration. Nothing else is asked.
pub proof fn an_observation_in_force_is_heard(
    terminal: TerminalModel,
    session: SessionModel,
    persisted: PersistedModel,
    observation: ObservationModel,
)
    requires
        terminal.codex_session == Some(session),
        terminal.persisted_agent_session == Some(persisted),
        observation.registration.terminal_id == session.registration.terminal_id,
        observation.registration.generation == session.registration.generation,
        observation.registration.session_id == session.registration.session_id,
        observation.registration.path.same_path(session.registration.path),
        observation.registration.current_turn_hook == session.registration.current_turn_hook,
        observation.registration.replay_after == session.registration.replay_after,
        terminal.recent_agent_process_exit is None,
        terminal.detected_agent is None || terminal.detected_agent == Some(Agent::Codex),
        persisted.source == "herdr:codex"@,
        persisted.agent == "codex"@,
        persisted.session_id == session.registration.session_id,
    ensures
        terminal.heeds(observation),
{
}

/// An observation that is heard meets every ground for hearing it.
pub proof fn an_observation_heard_is_in_force(
    terminal: TerminalModel,
    observation: ObservationModel,
)
    requires
        terminal.heeds(observation),
    ensures
        terminal.codex_session is Some,
        ({
            let registration = terminal.codex_session->0.registration;
            &&& observation.registration.terminal_id == registration.terminal_id
            &&& observation.registration.generation == registration.generation
            &&& observation.registration.session_id == registration.session_id
            &&& observation.registration.path.same_path(registration.path)
            &&& observation.registration.current_turn_hook == registration.current_turn_hook
            &&& observation.registration.replay_after == registration.replay_after
            &&& terminal.persisted_agent_session is Some
            &&& terminal.persisted_agent_session->0.source == "herdr:codex"@
            &&& terminal.persisted_agent_session->0.agent == "codex"@
            &&& terminal.persisted_agent_session->0.session_id == registration.session_id
        }),
        terminal.recent_agent_process_exit is None,
        terminal.detected_agent is None || terminal.detected_agent == Some(Agent::Codex),
{
}

/// Prompt, screen, hook, shown state and what was seen of the session so far have no influence on
/// whether an observation is heard.
pub proof fn hearing_depends_on_nothing_else(
    one: TerminalModel,
    other: TerminalModel,
    observation: ObservationModel,
)
    requires
        one.codex_session is Some && other.codex_session is Some,
        one.codex_session->0.registration == other.codex_session->0.registration,
        one.persisted_agent_session == other.persisted_agent_session,
        one.recent_agent_process_exit is None == other.recent_agent_process_exit is None,
        one.detected_agent == other.detected_agent,
    ensures
        one.heeds(observation) == other.heeds(observation),
{
}

/// What an observation says of turns, and when, has no influence on whether it is heard.
pub proof fn hearing_does_not_depend_on_what_is_said(
    terminal: TerminalModel,
    one: ObservationModel,
    other: ObservationModel,
)
    requires
        one.registration == other.registration,
    ensures
        terminal.heeds(one) == terminal.heeds(other),
{
}

/// Right after a transcript was taken up, observations made for the new registration are heard.
pub proof fn a_new_registration_is_heard(
    terminal: TerminalModel,
    persisted: PersistedModel,
    path: PathModel,
    now: int,
    observation: ObservationModel,
)
    requires
        terminal.persisted_agent_session == Some(persisted),
        persisted.source == "herdr:codex"@,
        persisted.agent == "codex"@,
        terminal.recent_agent_process_exit is None,
        terminal.detected_agent is None || terminal.detected_agent == Some(Agent::Codex),
        path.absolute,
        terminal.codex_session is Some ==> {
            let followed = terminal.codex_session->0.registration;
            followed.session_id != persisted.session_id || !followed.path.same_path(path)
        },
        observation.registration == terminal.registered(path, now).codex_session->0.registration,
    ensures
        terminal.registered(path, now).heeds(observation),
{
}

/// A transcript that is taken up starts with nothing known, whatever was followed before: the
/// session has no turn, is not idle from a replay, comes from a turn's hook and replays after
/// nothing. It is the terminal's own, for the session to resume, one generation on.
pub proof fn a_transcript_taken_up_starts_with_nothing_known(
    terminal: TerminalModel,
    persisted: PersistedModel,
    path: PathModel,
    now: int,
)
    requires
        terminal.persisted_agent_session == Some(persisted),
        persisted.source == "herdr:codex"@,
        persisted.agent == "codex"@,
        terminal.recent_agent_process_exit is None,
        path.absolute,
        terminal.codex_session is Some ==> {
            let followed = terminal.codex_session->0.registration;
            followed.session_id != persisted.session_id || !followed.path.same_path(path)
        },
        terminal.codex_generation < u64::MAX,
    ensures
        ({
            let after = terminal.registered(path, now);
            let session = after.codex_session->0;
            &&& after.codex_session is Some
            &&& session.turn is None
            &&& !session.replayed_idle
            &&& session.registered_at == now
            &&& session.observed_at == now
            &&& session.registration.current_turn_hook
            &&& session.registration.replay_after is None
            &&& session.registration.terminal_id == terminal.id
            &&& session.registration.session_id == persisted.session_id
            &&& session.registration.path == path
            &&& session.registration.generation == terminal.codex_generation + 1
            &&& after.codex_generation == terminal.codex_generation + 1
            &&& after.codex_state() is None
            &&& after.recomputed().state == terminal.reported_state
            &&& !after.shows_aborted_turn()
            &&& after.handoff() is Some && after.handoff()->0.turn is None
        }),
{
}

/// Once a transcript was taken up, no turn stands for a state until an observation is heard:
/// whatever becomes of the agent, the screen, hooks and prompts, as long as the session is as it
/// was registered, what was reported is shown. An observation that was not made for the new
/// registration is not heard.
pub proof fn a_new_registration_shows_nothing_until_it_is_heard(
    terminal: TerminalModel,
    persisted: PersistedModel,
    path: PathModel,
    now: int,
    later: TerminalModel,
    observation: ObservationModel,
)
    requires
        terminal.persisted_agent_session == Some(persisted),
        persisted.source == "herdr:codex"@,
        persisted.agent == "codex"@,
        terminal.recent_agent_process_exit is None,
        path.absolute,
        terminal.codex_session is Some ==> {
            let followed = terminal.codex_session->0.registration;
            followed.session_id != persisted.session_id || !followed.path.same_path(path)
        },
        terminal.codex_generation < u64::MAX,
        later.codex_session == terminal.registered(path, now).codex_session,
    ensures
        later.codex_state() is None,
        later.recomputed().state == later.reported_state,
        !later.shows_aborted_turn(),
        observation.registration.generation != terminal.codex_generation + 1 ==> !later.heeds(
            observation,
        ),
        observation.registration.session_id != persisted.session_id ==> !later.heeds(observation),
        !observation.registration.path.same_path(path) ==> !later.heeds(observation),
{
}

/// What was followed before leaves no trace in a session that is taken up.
pub proof fn a_registration_forgets_what_was_followed(
    terminal: TerminalModel,
    followed: Option<SessionModel>,
    path: PathModel,
    now: int,
)
    requires
        terminal.codex_session is Some ==> !terminal.codex_session->0.registration.path.same_path(
            path,
        ),
        followed is Some ==> !followed->0.registration.path.same_path(path),
        terminal.persisted_agent_session is Some,
        terminal.persisted_agent_session->0.source == "herdr:codex"@,
        terminal.persisted_agent_session->0.agent == "codex"@,
        terminal.recent_agent_process_exit is None,
        path.absolute,
    ensures
        (TerminalModel { codex_session: followed, ..terminal }).registered(path, now)
            == terminal.registered(path, now),
{
}

/// There are four grounds for leaving a transcript alone: no Codex session to resume, an exited
/// agent, a path that is not absolute, and that very session at that very path being followed.
pub proof fn a_transcript_is_left_alone_on_each_ground(
    terminal: TerminalModel,
    path: PathModel,
    now: int,
)
    requires
        terminal.persisted_agent_session is None
            || terminal.persisted_agent_session->0.source != "herdr:codex"@
            || terminal.persisted_agent_session->0.agent != "codex"@
            || terminal.recent_agent_process_exit is Some || !path.absolute || (
        terminal.codex_session is Some && terminal.codex_session->0.registration.session_id
            == terminal.persisted_agent_session->0.session_id
            && terminal.codex_session->0.registration.path.same_path(path)),
    ensures
        terminal.registered(path, now) == terminal,
{
}

/// Registering touches the session and the generation, and nothing else.
pub proof fn registering_touches_nothing_else(terminal: TerminalModel, path: PathModel, now: int)
    ensures
        ({
            let after = terminal.registered(path, now);
            &&& after.id == terminal.id
            &&& after.state == terminal.state
            &&& after.detected_agent == terminal.detected_agent
            &&& after.reported_state == terminal.reported_state
            &&& after.fallback_visible_blocker == terminal.fallback_visible_blocker
            &&& after.hook_authority == terminal.hook_authority
            &&& after.recent_agent_process_exit == terminal.recent_agent_process_exit
            &&& after.agent_process_acquisition_pending
                == terminal.agent_process_acquisition_pending
            &&& after.persisted_agent_session == terminal.persisted_agent_session
            &&& after.codex_prompt_ready == terminal.codex_prompt_ready
            &&& after.codex_prompt_started_at == terminal.codex_prompt_started_at
        }),
{
}

/// An observation of a transcript that can be followed leaves the session with the turn and the
/// time that it reports, under the same registration.
pub proof fn an_observation_sets_the_turn(terminal: TerminalModel, observation: ObservationModel)
    requires
        terminal.codex_session is Some,
        !observation.unavailable,
    ensures
        ({
            let before = terminal.codex_session->0;
            let after = terminal.observed(observation).codex_session->0;
            &&& terminal.observed(observation).codex_session is Some
            &&& after.turn == observation.turn
            &&& after.observed_at == observation.observed_at
            &&& after.registered_at == before.registered_at
            &&& after.registration == before.registration
        }),
{
}

/// An observation that the transcript is lost ends the session and settles nothing else: whether
/// the agent was found without activity is as open as before.
pub proof fn a_lost_transcript_ends_the_session(
    terminal: TerminalModel,
    observation: ObservationModel,
)
    requires
        observation.unavailable,
    ensures
        terminal.observed(observation).codex_session is None,
        terminal.observed(observation).state == terminal.reported_state,
        terminal.observed(observation).agent_process_acquisition_pending
            == terminal.agent_process_acquisition_pending,
{
}

/// An observation touches the session, the shown state and the wait for activity, and nothing
/// else.
pub proof fn observing_touches_nothing_else(terminal: TerminalModel, observation: ObservationModel)
    ensures
        ({
            let after = terminal.observed(observation);
            &&& after.id == terminal.id
            &&& after.detected_agent == terminal.detected_agent
            &&& after.reported_state == terminal.reported_state
            &&& after.fallback_visible_blocker == terminal.fallback_visible_blocker
            &&& after.hook_authority == terminal.hook_authority
            &&& after.recent_agent_process_exit == terminal.recent_agent_process_exit
            &&& after.persisted_agent_session == terminal.persisted_agent_session
            &&& after.codex_generation == terminal.codex_generation
            &&& after.codex_prompt_ready == terminal.codex_prompt_ready
            &&& after.codex_prompt_started_at == terminal.codex_prompt_started_at
        }),
{
}

/// A live observation ends the wait for activity and is never an idle state from a replay.
pub proof fn live_observations_are_news(terminal: TerminalModel, observation: ObservationModel)
    requires
        !observation.unavailable,
        !observation.replay,
    ensures
        !terminal.observed(observation).agent_process_acquisition_pending,
        !terminal.observed(observation).codex_session->0.replayed_idle,
{
}

/// A replayed end of the turn that was last seen active is news like a live one.
pub proof fn the_replayed_end_of_the_active_turn_is_news(
    terminal: TerminalModel,
    observation: ObservationModel,
    active: TurnModel,
    ended: TurnModel,
)
    requires
        terminal.codex_session is Some,
        terminal.codex_session->0.turn == Some(active),
        active.phase == TurnPhase::Active,
        observation.turn == Some(ended),
        ended.id == active.id,
        ended.phase == TurnPhase::Completed || ended.phase == TurnPhase::Aborted,
        !observation.unavailable,
    ensures
        !terminal.observed(observation).agent_process_acquisition_pending,
        !terminal.observed(observation).codex_session->0.replayed_idle,
{
}

/// Any other replayed observation is history: it keeps the wait for activity as it was, and
/// leaves an idle state from a replay exactly where the turn is over.
pub proof fn other_replayed_observations_are_history(
    terminal: TerminalModel,
    observation: ObservationModel,
)
    requires
        observation.replay,
        !observation.unavailable,
        terminal.codex_session is Some,
        terminal.codex_session->0.turn is None || terminal.codex_session->0.turn->0.phase
            != TurnPhase::Active || observation.turn is None || observation.turn->0.phase
            == TurnPhase::Active || observation.turn->0.id != terminal.codex_session->0.turn->0.id,
    ensures
        terminal.observed(observation).agent_process_acquisition_pending
            == terminal.agent_process_acquisition_pending,
        terminal.observed(observation).codex_session->0.replayed_idle == (observation.turn is Some
            && (observation.turn->0.phase == TurnPhase::Completed || observation.turn->0.phase
            == TurnPhase::Aborted)),
{
}

/// Where Codex was found and the session followed is the Codex session to resume, its last turn
/// stands for a state: blocked where the screen shows a question, else working while it is
/// active and idle once it is completed or aborted.
pub proof fn a_turn_stands_for_a_state(
    terminal: TerminalModel,
    session: SessionModel,
    persisted: PersistedModel,
    turn: TurnModel,
)
    requires
        terminal.detected_agent == Some(Agent::Codex),
        terminal.codex_session == Some(session),
        terminal.persisted_agent_session == Some(persisted),
        persisted.source == "herdr:codex"@,
        persisted.agent == "codex"@,
        persisted.session_id == session.registration.session_id,
        session.turn == Some(turn),
    ensures
        terminal.fallback_visible_blocker ==> terminal.codex_state() == Some(AgentState::Blocked),
        !terminal.fallback_visible_blocker && turn.phase == TurnPhase::Active
            ==> terminal.codex_state() == Some(AgentState::Working),
        !terminal.fallback_visible_blocker && turn.phase == TurnPhase::Completed
            ==> terminal.codex_state() == Some(AgentState::Idle),
        !terminal.fallback_visible_blocker && turn.phase == TurnPhase::Aborted
            ==> terminal.codex_state() == Some(AgentState::Idle),
{
}

/// A turn stands for no state where Codex was not found, no session is followed, no turn was
/// seen, or the session followed is not the Codex session to resume.
pub proof fn a_turn_stands_for_no_state_elsewhere(terminal: TerminalModel)
    requires
        terminal.detected_agent != Some(Agent::Codex) || terminal.codex_session is None
            || terminal.codex_session->0.turn is None || terminal.persisted_agent_session is None
            || terminal.persisted_agent_session->0.source != "herdr:codex"@
            || terminal.persisted_agent_session->0.agent != "codex"@
            || terminal.persisted_agent_session->0.session_id
            != terminal.codex_session->0.registration.session_id,
    ensures
        terminal.codex_state() is None,
        terminal.recomputed().state == terminal.reported_state,
        !terminal.shows_aborted_turn(),
{
}

/// The state that a turn stands for is shown unless an effective hook authority is there; then,
/// and where no turn stands for a state, what was reported is shown. Only the shown state
/// changes.
pub proof fn the_shown_state_is_the_turns_unless_a_hook_decides(terminal: TerminalModel)
    ensures
        terminal.hook_authority is Some && terminal.hook_authority->0.effective
            ==> terminal.recomputed().state == terminal.reported_state,
        (terminal.hook_authority is None || !terminal.hook_authority->0.effective)
            && terminal.codex_state() is Some ==> terminal.recomputed().state
            == terminal.codex_state()->0,
        terminal.codex_state() is None ==> terminal.recomputed().state == terminal.reported_state,
        (TerminalModel { state: terminal.state, ..terminal.recomputed() }) == terminal,
{
}

/// Every observation leaves the state shown that recomputing it would.
pub proof fn observing_shows_the_state_of_the_new_turn(
    terminal: TerminalModel,
    observation: ObservationModel,
)
    ensures
        terminal.observed(observation).recomputed() == terminal.observed(observation),
{
}

/// A heeded turn is shown at once: a terminal in which Codex was found, with no question on the
/// screen and no effective hook, shows work for an active turn and idleness for one that is over.
pub proof fn a_heard_turn_is_shown(
    terminal: TerminalModel,
    observation: ObservationModel,
    turn: TurnModel,
)
    requires
        terminal.heeds(observation),
        !observation.unavailable,
        observation.turn == Some(turn),
        terminal.detected_agent == Some(Agent::Codex),
        !terminal.fallback_visible_blocker,
        terminal.hook_authority is None || !terminal.hook_authority->0.effective,
    ensures
        turn.phase == TurnPhase::Active ==> terminal.observed(observation).state
            == AgentState::Working,
        turn.phase == TurnPhase::Completed ==> terminal.observed(observation).state
            == AgentState::Idle,
        turn.phase == TurnPhase::Aborted ==> terminal.observed(observation).state
            == AgentState::Idle,
{
}

/// A change of state is told exactly where the shown state differs, with both states and the
/// time.
pub proof fn a_change_is_told_where_the_states_differ(
    before: TerminalModel,
    after: TerminalModel,
    at: Timestamp,
)
    ensures
        before.state == after.state ==> state_change(before, after, at) is None,
        before.state != after.state ==> state_change(before, after, at) is Some
            && state_change(before, after, at)->0.previous_state == before.state
            && state_change(before, after, at)->0.state == after.state && state_change(
            before,
            after,
            at,
        )->0.at == at,
{
}

/// A terminal hands on exactly the session that it follows, if that is the Codex session to
/// resume: its session, its path, and the turn observed last.
pub proof fn a_handoff_carries_the_session_followed(
    terminal: TerminalModel,
    session: SessionModel,
    persisted: PersistedModel,
)
    requires
        terminal.codex_session == Some(session),
        terminal.persisted_agent_session == Some(persisted),
        persisted.source == "herdr:codex"@,
        persisted.agent == "codex"@,
        persisted.session_id == session.registration.session_id,
    ensures
        terminal.handoff() is Some,
        terminal.handoff()->0.session_id == session.registration.session_id,
        terminal.handoff()->0.path == session.registration.path,
        terminal.handoff()->0.turn == session.turn,
{
}

/// A terminal that does not follow the Codex session to resume hands nothing on.
pub proof fn no_other_session_is_handed_on(terminal: TerminalModel)
    requires
        terminal.codex_session is None || terminal.persisted_agent_session is None
            || terminal.persisted_agent_session->0.source != "herdr:codex"@
            || terminal.persisted_agent_session->0.agent != "codex"@
            || terminal.persisted_agent_session->0.session_id
            != terminal.codex_session->0.registration.session_id,
    ensures
        terminal.handoff() is None,
{
}

/// After an observation that was heard, a terminal hands on the turn of that observation,
/// whatever an earlier handoff had saved.
pub proof fn a_handoff_carries_the_turn_heard_last(
    terminal: TerminalModel,
    observation: ObservationModel,
)
    requires
        terminal.heeds(observation),
        !observation.unavailable,
    ensures
        ({
            let handoff = terminal.observed(observation).handoff();
            &&& handoff is Some
            &&& handoff->0.turn == observation.turn
            &&& handoff->0.session_id == terminal.codex_session->0.registration.session_id
            &&& handoff->0.path == terminal.codex_session->0.registration.path
        }),
{
}

/// A turn heard between two handoffs is the one that the next process replays after.
pub proof fn the_next_process_goes_on_behind_the_turn_heard_last(
    last: TerminalModel,
    observation: ObservationModel,
    next: TerminalModel,
    now: int,
)
    requires
        last.heeds(observation),
        !observation.unavailable,
        next.persisted_agent_session == last.persisted_agent_session,
        next.recent_agent_process_exit is None,
        next.codex_session is None,
        last.codex_session->0.registration.path.absolute,
    ensures
        ({
            let handoff = last.observed(observation).handoff()->0;
            let session = next.restored(handoff, now).codex_session->0;
            &&& next.restored(handoff, now).codex_session is Some
            &&& session.registration.replay_after == observation.turn
            &&& session.turn == observation.turn
            &&& session.registration.session_id == last.codex_session->0.registration.session_id
            &&& session.registration.path == last.codex_session->0.registration.path
        }),
{
}

/// A handoff of the Codex session to resume, at an absolute path that is not followed yet, in a
/// terminal without exit, binds that session to the terminal: one generation on, with the turn
/// handed over as the one to go on behind.
pub proof fn a_handoff_for_the_session_to_resume_is_taken_up(
    terminal: TerminalModel,
    persisted: PersistedModel,
    snapshot: HandoffModel,
    now: int,
)
    requires
        terminal.persisted_agent_session == Some(persisted),
        persisted.source == "herdr:codex"@,
        persisted.agent == "codex"@,
        persisted.session_id == snapshot.session_id,
        terminal.recent_agent_process_exit is None,
        snapshot.path.absolute,
        terminal.codex_session is Some ==> {
            let followed = terminal.codex_session->0.registration;
            followed.session_id != snapshot.session_id || !followed.path.same_path(snapshot.path)
        },
        terminal.codex_generation < u64::MAX,
    ensures
        ({
            let after = terminal.restored(snapshot, now);
            let session = after.codex_session->0;
            &&& after.codex_session is Some
            &&& session.turn == snapshot.turn
            &&& session.registration.replay_after == snapshot.turn
            &&& session.registration.current_turn_hook == (snapshot.turn is None)
            &&& session.replayed_idle == (snapshot.turn is Some && (snapshot.turn->0.phase
                == TurnPhase::Completed || snapshot.turn->0.phase == TurnPhase::Aborted))
            &&& session.registration.terminal_id == terminal.id
            &&& session.registration.session_id == snapshot.session_id
            &&& session.registration.path == snapshot.path
            &&& session.registration.generation == terminal.codex_generation + 1
            &&& session.registered_at == now
            &&& session.observed_at == now
            &&& after.codex_generation == terminal.codex_generation + 1
            &&& after.detected_agent == Some(Agent::Codex)
            &&& after.recomputed() == after
        }),
{
}

/// Where a handoff of the session to resume is not taken up but a session is followed, that
/// session keeps its registration but for the turn to go on behind, which is the one handed over.
pub proof fn a_handoff_that_is_not_taken_up_passes_on_its_turn(
    terminal: TerminalModel,
    persisted: PersistedModel,
    snapshot: HandoffModel,
    now: int,
)
    requires
        terminal.persisted_agent_session == Some(persisted),
        persisted.source == "herdr:codex"@,
        persisted.agent == "codex"@,
        persisted.session_id == snapshot.session_id,
        terminal.codex_session is Some,
        terminal.recent_agent_process_exit is Some || !snapshot.path.absolute || (
        terminal.codex_session->0.registration.session_id == snapshot.session_id
            && terminal.codex_session->0.registration.path.same_path(snapshot.path)),
    ensures
        ({
            let before = terminal.codex_session->0;
            let after = terminal.restored(snapshot, now);
            let session = after.codex_session->0;
            &&& after.codex_session is Some
            &&& session.turn == snapshot.turn
            &&& session.registration.replay_after == snapshot.turn
            &&& session.registration.current_turn_hook == (snapshot.turn is None)
            &&& session.replayed_idle == (snapshot.turn is Some && (snapshot.turn->0.phase
                == TurnPhase::Completed || snapshot.turn->0.phase == TurnPhase::Aborted))
            &&& session.registration.terminal_id == before.registration.terminal_id
            &&& session.registration.session_id == before.registration.session_id
            &&& session.registration.path == before.registration.path
            &&& session.registration.generation == before.registration.generation
            &&& session.registered_at == before.registered_at
            &&& session.observed_at == before.observed_at
            &&& after.codex_generation == terminal.codex_generation
            &&& after.detected_agent == Some(Agent::Codex)
            &&& after.recomputed() == after
        }),
{
}

/// A handoff changes nothing where its session is not the Codex session to resume, or where it is
/// not taken up and no session is followed.
pub proof fn a_handoff_without_a_place_changes_nothing(
    terminal: TerminalModel,
    snapshot: HandoffModel,
    now: int,
)
    requires
        terminal.persisted_agent_session is None
            || terminal.persisted_agent_session->0.source != "herdr:codex"@
            || terminal.persisted_agent_session->0.agent != "codex"@
            || terminal.persisted_agent_session->0.session_id != snapshot.session_id || (
        terminal.codex_session is None && (terminal.recent_agent_process_exit is Some
            || !snapshot.path.absolute)),
    ensures
        terminal.restored(snapshot, now) == terminal,
{
}

/// A handoff touches the session, the generation, the agent found and the shown state, and
/// nothing else.
pub proof fn restoring_touches_nothing_else(
    terminal: TerminalModel,
    snapshot: HandoffModel,
    now: int,
)
    ensures
        ({
            let after = terminal.restored(snapshot, now);
            &&& after.id == terminal.id
            &&& after.reported_state == terminal.reported_state
            &&& after.fallback_visible_blocker == terminal.fallback_visible_blocker
            &&& after.hook_authority == terminal.hook_authority
            &&& after.recent_agent_process_exit == terminal.recent_agent_process_exit
            &&& after.agent_process_acquisition_pending
                == terminal.agent_process_acquisition_pending
            &&& after.persisted_agent_session == terminal.persisted_agent_session
            &&& after.codex_prompt_ready == terminal.codex_prompt_ready
            &&& after.codex_prompt_started_at == terminal.codex_prompt_started_at
        }),
{
}

/// The sight of a prompt counts exactly where Codex was found, no exit is recorded, and no later
/// start of a prompt is known.
pub proof fn prompts_count_where_codex_runs(terminal: TerminalModel, at: int)
    ensures
        terminal.heeds_prompt(at) <==> (terminal.detected_agent == Some(Agent::Codex)
            && terminal.recent_agent_process_exit is None && (
        terminal.codex_prompt_started_at is None || terminal.codex_prompt_started_at->0.nanos
            <= at)),
{
}

/// A prompt starts when it is seen after it was not; otherwise its start stays. Whether it is
/// open is what was seen last. Nothing else changes.
pub proof fn a_prompt_starts_when_it_appears(terminal: TerminalModel, ready: bool, at: Timestamp)
    ensures
        terminal.prompted(ready, at).codex_prompt_ready == ready,
        ready && !terminal.codex_prompt_ready ==> terminal.prompted(
            ready,
            at,
        ).codex_prompt_started_at == Some(at),
        !ready || terminal.codex_prompt_ready ==> terminal.prompted(
            ready,
            at,
        ).codex_prompt_started_at == terminal.codex_prompt_started_at,
        (TerminalModel {
            codex_prompt_ready: terminal.codex_prompt_ready,
            codex_prompt_started_at: terminal.codex_prompt_started_at,
            ..terminal.prompted(ready, at)
        }) == terminal,
{
}

/// An agent other than Codex can be given work exactly while the terminal shows it idle: never
/// while it works, is blocked or is unknown, whatever prompts were seen and whenever it is asked.
pub proof fn other_agents_are_ready_exactly_when_idle(
    terminal: TerminalModel,
    agent: Agent,
    now: int,
)
    requires
        agent != Agent::Codex,
    ensures
        terminal.state == AgentState::Idle ==> terminal.prompt_ready(agent, now),
        terminal.state == AgentState::Working ==> !terminal.prompt_ready(agent, now),
        terminal.state == AgentState::Blocked ==> !terminal.prompt_ready(agent, now),
        terminal.state == AgentState::Unknown ==> !terminal.prompt_ready(agent, now),
{
}

/// Codex can be given work exactly while it shows a prompt that has stood for two seconds and
/// nothing blocks it; being idle, working or unknown makes no difference.
pub proof fn codex_is_ready_exactly_when_its_prompt_has_settled(terminal: TerminalModel, now: int)
    ensures
        !terminal.codex_prompt_ready ==> !terminal.prompt_ready(Agent::Codex, now),
        terminal.codex_prompt_started_at is None ==> !terminal.prompt_ready(Agent::Codex, now),
        terminal.state == AgentState::Blocked ==> !terminal.prompt_ready(Agent::Codex, now),
        terminal.codex_prompt_started_at is Some && now
            < terminal.codex_prompt_started_at->0.nanos + 2_000_000_000 ==> !terminal.prompt_ready(
            Agent::Codex,
            now,
        ),
        terminal.codex_prompt_ready && terminal.codex_prompt_started_at is Some && now
            >= terminal.codex_prompt_started_at->0.nanos + 2_000_000_000 && terminal.state
            != AgentState::Blocked ==> terminal.prompt_ready(Agent::Codex, now),
{
}

/// Once ready, Codex stays ready for as long as nothing in the terminal changes.
pub proof fn readiness_does_not_wear_off(
    terminal: TerminalModel,
    agent: Agent,
    now: int,
    later: int,
)
    requires
        terminal.prompt_ready(agent, now),
        later >= now,
    ensures
        terminal.prompt_ready(agent, later),
{
}

/// An aborted turn is shown exactly where a turn stands for a state, no hook authority is
/// effective, and that turn was aborted.
pub proof fn an_aborted_turn_is_shown_where_it_decides(terminal: TerminalModel)
    ensures
        terminal.shows_aborted_turn() ==> terminal.codex_state() is Some && (
        terminal.hook_authority is None || !terminal.hook_authority->0.effective)
            && terminal.codex_session->0.turn is Some && terminal.codex_session->0.turn->0.phase
            == TurnPhase::Aborted,
        terminal.codex_state() is Some && (terminal.hook_authority is None
            || !terminal.hook_authority->0.effective) && terminal.codex_session->0.turn->0.phase
            == TurnPhase::Aborted ==> terminal.shows_aborted_turn(),
{
}

/// A Codex process has to be found where none is known or the known one has exited.
pub proof fn a_process_has_to_be_found_unless_codex_runs(terminal: TerminalModel)
    ensures
        terminal.detected_agent is None ==> terminal.needs_acquisition(),
        terminal.detected_agent is Some && terminal.detected_agent->0 != Agent::Codex
            ==> terminal.needs_acquisition(),
        terminal.recent_agent_process_exit is Some ==> terminal.needs_acquisition(),
        terminal.detected_agent == Some(Agent::Codex) && terminal.recent_agent_process_exit is None
            ==> !terminal.needs_acquisition(),
{
}

/// Of a new terminal nothing is known, and it shows that.
pub proof fn of_a_new_terminal_nothing_is_known(id: Seq<char>)
    ensures
        ({
            let new = TerminalModel::initial(id);
            &&& new.id == id
            &&& new.state == AgentState::Unknown
            &&& new.reported_state == AgentState::Unknown
            &&& new.detected_agent is None
            &&& !new.fallback_visible_blocker
            &&& new.hook_authority is None
            &&& new.recent_agent_process_exit is None
            &&& !new.agent_process_acquisition_pending
            &&& new.persisted_agent_session is None
            &&& new.codex_session is None
            &&& new.codex_generation == 0
            &&& !new.codex_prompt_ready
            &&& new.codex_prompt_started_at is None
            &&& new.recomputed() == new
        }),
{
}

} // verus!
