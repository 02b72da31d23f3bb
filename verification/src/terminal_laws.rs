//! What holds of every terminal, whatever its observers say.

use crate::observer::{lost, observed};
use crate::path::PathModel;
use crate::registration::{HandoffModel, ObservationModel, RegistrationModel};
use crate::terminal::{
    is_over, Agent, AgentState, TerminalModel, CODEX_PROMPT_SETTLE_DELAY_NANOS,
};
use crate::time::Timestamp;
use crate::turn::TurnModel;
use vstd::prelude::*;

verus! {

/// Telling a terminal again of the same transcript, however its path is spelled, changes nothing:
/// a session that is followed is not started over.
pub proof fn registering_again_changes_nothing(
    terminal: TerminalModel,
    path: PathModel,
    respelled: PathModel,
    now: int,
    later: int,
)
    requires
        respelled.same_path(path),
        respelled.absolute == path.absolute,
    ensures
        terminal.registered(path, now).registered(respelled, later) == terminal.registered(
            path,
            now,
        ),
{
}

/// A new registration shuts out every observation made for an earlier one.
pub proof fn a_new_registration_shuts_out_earlier_ones(
    terminal: TerminalModel,
    path: PathModel,
    now: int,
    observation: ObservationModel,
)
    requires
        terminal.takes_up(path),
        terminal.codex_generation < u64::MAX,
        observation.registration.generation <= terminal.codex_generation,
    ensures
        !terminal.registered(path, now).heeds(observation),
{
}

/// The observations of the session followed are of a generation that a new registration shuts
/// out, so replacing a session discards what was still under way for it.
pub proof fn a_replaced_session_is_not_heard(
    terminal: TerminalModel,
    path: PathModel,
    now: int,
    observation: ObservationModel,
)
    requires
        terminal.well_formed(),
        terminal.takes_up(path),
        terminal.codex_generation < u64::MAX,
        terminal.heeds(observation),
    ensures
        !terminal.registered(path, now).heeds(observation),
{
    a_new_registration_shuts_out_earlier_ones(terminal, path, now, observation);
}

/// Generations only grow, and a session is only ever replaced by one of a higher generation.
pub proof fn generations_only_grow(
    terminal: TerminalModel,
    path: PathModel,
    snapshot: HandoffModel,
    observation: ObservationModel,
    now: int,
)
    requires
        terminal.codex_generation < u64::MAX,
    ensures
        terminal.registered(path, now).codex_generation >= terminal.codex_generation,
        terminal.restored(snapshot, now).codex_generation >= terminal.codex_generation,
        terminal.observed(observation).codex_generation == terminal.codex_generation,
        terminal.takes_up(path) ==> terminal.registered(
            path,
            now,
        ).codex_session->0.registration.generation == terminal.codex_generation + 1,
{
}

/// Every update keeps a terminal well formed.
pub proof fn updates_keep_a_terminal_well_formed(
    terminal: TerminalModel,
    path: PathModel,
    snapshot: HandoffModel,
    observation: ObservationModel,
    ready: bool,
    at: Timestamp,
)
    requires
        terminal.well_formed(),
        terminal.codex_generation < u64::MAX,
    ensures
        terminal.registered(path, at@).well_formed(),
        terminal.restored(snapshot, at@).well_formed(),
        terminal.heeds(observation) ==> terminal.observed(observation).well_formed(),
        terminal.prompted(ready, at).well_formed(),
{
}

/// A terminal whose agent has exited follows no further transcript and hears neither turns nor
/// prompts.
pub proof fn an_exited_agent_is_not_heard(
    terminal: TerminalModel,
    path: PathModel,
    observation: ObservationModel,
    now: int,
)
    requires
        terminal.recent_agent_process_exit is Some,
    ensures
        terminal.registered(path, now) == terminal,
        !terminal.heeds(observation),
        !terminal.heeds_prompt(now),
{
}

/// Turns are not heard in a terminal that runs another agent, and prompts only in one that runs
/// Codex.
pub proof fn another_agent_is_not_mistaken_for_codex(
    terminal: TerminalModel,
    agent: Agent,
    observation: ObservationModel,
    now: int,
)
    requires
        terminal.detected_agent == Some(agent),
        agent != Agent::Codex,
    ensures
        !terminal.heeds(observation),
        !terminal.heeds_prompt(now),
        terminal.codex_state() is None,
        !terminal.shows_aborted_turn(),
{
}

/// Losing the transcript gives the terminal back to its hooks and its screen, and nothing more is
/// heard of that transcript.
pub proof fn a_lost_transcript_releases_the_terminal(
    terminal: TerminalModel,
    at: int,
    later: ObservationModel,
)
    requires
        terminal.codex_session is Some,
    ensures
        ({
            let released = terminal.observed(lost(terminal.codex_session->0.registration, at));
            &&& released.codex_session is None
            &&& released.codex_state() is None
            &&& released.state == terminal.reported_state
            &&& !released.heeds(later)
        }),
{
}

/// Where a Codex turn decides, the screen does not: the shown state is the same whatever else is
/// reported.
pub proof fn turns_own_an_ambiguous_screen(terminal: TerminalModel, other: AgentState)
    requires
        terminal.codex_state() is Some,
        !terminal.hook_decides(),
    ensures
        (TerminalModel { reported_state: other, ..terminal }).effective_state()
            == terminal.effective_state(),
        terminal.effective_state() == (if terminal.fallback_visible_blocker {
            AgentState::Blocked
        } else if is_over(terminal.codex_session->0.turn) {
            AgentState::Idle
        } else {
            AgentState::Working
        }),
{
}

/// A question on the screen is never hidden by a turn.
pub proof fn a_visible_blocker_is_kept(terminal: TerminalModel, observation: ObservationModel)
    requires
        terminal.heeds(observation),
        terminal.fallback_visible_blocker,
    ensures
        terminal.observed(observation).codex_state() matches Some(state) ==> state
            == AgentState::Blocked,
{
}

/// A hook that decides is not overruled by a turn.
pub proof fn a_deciding_hook_is_not_overruled(
    terminal: TerminalModel,
    observation: ObservationModel,
)
    requires
        terminal.hook_decides(),
    ensures
        terminal.effective_state() == terminal.reported_state,
        terminal.observed(observation).state == terminal.reported_state,
        !terminal.shows_aborted_turn(),
{
}

/// After every observation that counts, the terminal shows what it should.
pub proof fn observations_leave_the_shown_state_right(
    terminal: TerminalModel,
    observation: ObservationModel,
)
    ensures
        terminal.observed(observation).state == terminal.observed(observation).effective_state(),
{
}

/// An aborted turn is shown as a standstill, never as work.
pub proof fn an_aborted_turn_is_no_work(terminal: TerminalModel)
    requires
        terminal.shows_aborted_turn(),
    ensures
        terminal.effective_state() == AgentState::Idle || terminal.effective_state()
            == AgentState::Blocked,
{
}

/// A live turn ends the wait for signs of life and is never taken for history.
pub proof fn a_live_turn_is_activity(terminal: TerminalModel, observation: ObservationModel)
    requires
        !observation.replay,
        !observation.unavailable,
    ensures
        !terminal.observed(observation).agent_process_acquisition_pending,
        !terminal.observed(observation).codex_session->0.replayed_idle,
{
}

/// The end of a turn that was seen active counts as news even where it was read back from the
/// transcript.
pub proof fn the_end_of_an_active_turn_is_news(
    terminal: TerminalModel,
    observation: ObservationModel,
)
    requires
        terminal.ends_active_turn(observation),
        !observation.unavailable,
    ensures
        !terminal.observed(observation).agent_process_acquisition_pending,
        !terminal.observed(observation).codex_session->0.replayed_idle,
{
}

/// History that is read back does not count as activity.
pub proof fn history_is_no_activity(terminal: TerminalModel, observation: ObservationModel)
    requires
        observation.replay,
        !terminal.ends_active_turn(observation),
        !observation.unavailable,
    ensures
        terminal.observed(observation).agent_process_acquisition_pending
            == terminal.agent_process_acquisition_pending,
        terminal.observed(observation).codex_session->0.replayed_idle == is_over(observation.turn),
{
}

/// What a terminal gets in a handoff is what it would hand on: the session and the turn survive
/// any number of handoffs, whether the transcript is taken up or was followed already. So does
/// the path: letter for letter where it is taken up, and as the same path where it was followed
/// already.
pub proof fn handoffs_pass_on_what_they_got(
    terminal: TerminalModel,
    snapshot: HandoffModel,
    now: int,
)
    requires
        terminal.resumes(snapshot.session_id),
        terminal.takes_up(snapshot.path) || terminal.session_matches(),
    ensures
        terminal.restored(snapshot, now).handoff() matches Some(again) && again.session_id
            == snapshot.session_id && again.turn == snapshot.turn,
        terminal.takes_up(snapshot.path) ==> terminal.restored(snapshot, now).handoff() == Some(
            snapshot,
        ),
        terminal.codex_session->0.registration.path.same_path(snapshot.path)
            ==> terminal.restored(snapshot, now).handoff()->0.path.same_path(snapshot.path),
{
}

/// A terminal that takes up a handoff runs Codex, waits for what its transcript holds behind the
/// turn handed over, and shows what that turn stands for.
pub proof fn a_handoff_is_taken_up(terminal: TerminalModel, snapshot: HandoffModel, now: int)
    requires
        terminal.resumes(snapshot.session_id),
        terminal.takes_up(snapshot.path),
    ensures
        ({
            let restored = terminal.restored(snapshot, now);
            let session = restored.codex_session->0;
            &&& restored.codex_session is Some
            &&& restored.detected_agent == Some(Agent::Codex)
            &&& session.registration.replay_after == snapshot.turn
            &&& session.registration.current_turn_hook == (snapshot.turn is None)
            &&& session.replayed_idle == is_over(snapshot.turn)
            &&& restored.state == restored.effective_state()
            &&& snapshot.turn is Some ==> restored.codex_state() is Some
        }),
{
}

/// A handoff binds the transcript to the terminal that takes it up: what is still under way for
/// another terminal is not heard there.
pub proof fn a_handoff_rebinds_the_transcript(
    terminal: TerminalModel,
    snapshot: HandoffModel,
    now: int,
    observation: ObservationModel,
)
    requires
        terminal.resumes(snapshot.session_id),
        terminal.takes_up(snapshot.path),
        observation.registration.terminal_id != terminal.id,
    ensures
        terminal.restored(snapshot, now).codex_session->0.registration.terminal_id == terminal.id,
        !terminal.restored(snapshot, now).heeds(observation),
{
}

/// A handoff of a session that the terminal would not resume is left alone.
pub proof fn a_foreign_handoff_is_left_alone(
    terminal: TerminalModel,
    snapshot: HandoffModel,
    now: int,
)
    requires
        !terminal.resumes(snapshot.session_id),
    ensures
        terminal.restored(snapshot, now) == terminal,
{
}

/// A prompt makes Codex ready once it has stood for the settling delay, and not before, as long
/// as nothing blocks.
pub proof fn a_fresh_prompt_has_to_settle(terminal: TerminalModel, at: Timestamp, now: int)
    requires
        !terminal.codex_prompt_ready,
    ensures
        terminal.prompted(true, at).prompt_ready(Agent::Codex, now) <==> now >= at@
            + CODEX_PROMPT_SETTLE_DELAY_NANOS && terminal.state != AgentState::Blocked,
{
}

/// Seeing the same prompt again neither shortens nor prolongs the delay.
pub proof fn a_standing_prompt_keeps_its_start(
    terminal: TerminalModel,
    at: Timestamp,
    again: Timestamp,
)
    ensures
        terminal.prompted(true, at).prompted(true, again) == terminal.prompted(true, at),
{
}

/// A prompt that went away leaves Codex not ready at any time, and one that comes back has to
/// settle anew.
pub proof fn a_lost_prompt_settles_anew(
    terminal: TerminalModel,
    gone: Timestamp,
    back: Timestamp,
    now: int,
)
    ensures
        !terminal.prompted(false, gone).prompt_ready(Agent::Codex, now),
        terminal.prompted(false, gone).prompted(true, back).prompt_ready(Agent::Codex, now) <==> now
            >= back@ + CODEX_PROMPT_SETTLE_DELAY_NANOS && terminal.state != AgentState::Blocked,
{
}

/// The start of a prompt never moves back in time.
pub proof fn prompts_never_start_earlier(terminal: TerminalModel, ready: bool, at: Timestamp)
    requires
        terminal.heeds_prompt(at@),
    ensures
        terminal.codex_prompt_started_at matches Some(started) ==> terminal.prompted(
            ready,
            at,
        ).codex_prompt_started_at matches Some(now) && now@ >= started@,
{
}

/// The terminal after a run of observations, those that do not count left out.
pub open spec fn after_observations(
    terminal: TerminalModel,
    observations: Seq<ObservationModel>,
) -> TerminalModel
    decreases observations.len(),
{
    if observations.len() == 0 {
        terminal
    } else {
        let earlier = after_observations(terminal, observations.drop_last());
        if earlier.heeds(observations.last()) {
            earlier.observed(observations.last())
        } else {
            earlier
        }
    }
}

/// Everything that an observer reports of one pass for the registration in force counts, and the
/// terminal ends with the last turn reported.
pub proof fn a_reported_pass_is_applied_in_order(
    terminal: TerminalModel,
    registration: RegistrationModel,
    changes: Seq<(TurnModel, bool)>,
    at: int,
)
    requires
        terminal.heeds(lost(registration, at)),
        changes.len() > 0,
    ensures
        ({
            let after = after_observations(terminal, observed(registration, changes, at));
            &&& after.codex_session matches Some(session) && session.turn == Some(changes.last().0)
            &&& after.heeds(lost(registration, at))
            &&& after.state == after.effective_state()
        }),
    decreases changes.len(),
{
    let reports = observed(registration, changes, at);
    let shorter = changes.drop_last();
    assert(reports.drop_last() =~= observed(registration, shorter, at));
    if shorter.len() > 0 {
        a_reported_pass_is_applied_in_order(terminal, registration, shorter, at);
    } else {
        assert(observed(registration, shorter, at).len() == 0);
    }
}

} // verus!
