//! What turns mean for a terminal.

use std::path::PathBuf;

use herdr_codex::observer::{Observer, ObserverAction, ObserverEvent};
use herdr_codex::path::{PathPrefix, TranscriptPath};
use herdr_codex::registration::{HandoffSession, Observation, Registration, TerminalId};
use herdr_codex::terminal::{
    Agent, AgentSessionRef, AgentState, EffectiveStateChange, HookAuthority, PersistedAgentSession,
    TerminalState, TerminalStateMutation,
};
use herdr_codex::time::Timestamp;
use herdr_codex::turn::{Turn, TurnPhase};

const MILLI: u64 = 1_000_000;
const SECOND: u64 = 1_000_000_000;
const AT: Timestamp = Timestamp {
    nanos: 1_000_000_000_000,
};

fn later(nanos: u64) -> Timestamp {
    Timestamp {
        nanos: AT.nanos + nanos,
    }
}

fn earlier(nanos: u64) -> Timestamp {
    Timestamp {
        nanos: AT.nanos - nanos,
    }
}

fn terminal(name: &str) -> TerminalState {
    TerminalState::new(TerminalId { name: name.into() })
}

fn path(id: &str) -> TranscriptPath {
    TranscriptPath::new(PathBuf::from(format!("/tmp/{id}.jsonl")))
}

fn persist(terminal: &mut TerminalState, id: &str) {
    terminal.persisted_agent_session = Some(PersistedAgentSession {
        source: "herdr:codex".into(),
        agent: "codex".into(),
        session_ref: AgentSessionRef { value: id.into() },
    });
}

fn register(terminal: &mut TerminalState, id: &str) -> Registration {
    persist(terminal, id);
    terminal.register_codex_transcript(path(id), AT);
    terminal
        .codex_session
        .as_ref()
        .unwrap()
        .registration
        .clone()
}

fn observe(
    terminal: &mut TerminalState,
    registration: &Registration,
    active: bool,
    replay: bool,
    at: Timestamp,
) {
    terminal
        .observe_codex_turn(Observation {
            registration: registration.clone(),
            turn: Some(Turn {
                id: "turn".into(),
                phase: if active {
                    TurnPhase::Active
                } else {
                    TurnPhase::Completed
                },
            }),
            observed_at: at,
            replay,
            unavailable: false,
        })
        .unwrap();
}

/// What the screen detector does to a terminal; a deciding hook keeps its say unless the screen
/// shows a question.
fn screen(terminal: &mut TerminalState, state: AgentState, at: Timestamp) {
    terminal.detected_agent = Some(Agent::Codex);
    terminal.fallback_visible_blocker = state == AgentState::Blocked;
    if terminal.hook_authority.is_none() || state == AgentState::Blocked {
        terminal.reported_state = state;
    }
    terminal.recompute_effective_state(at);
}

#[test]
fn codex_turn_owns_ambiguous_screen_and_preserves_blockers_and_event_order() {
    let mut one = terminal("one");
    // SessionStart can precede process detection and must survive an unknown scan.
    let registration = register(&mut one, "session");
    one.agent_process_acquisition_pending = true;
    one.detected_agent = None;
    one.reported_state = AgentState::Unknown;
    one.recompute_effective_state(AT);
    observe(&mut one, &registration, true, true, AT);
    screen(&mut one, AgentState::Unknown, AT);
    assert_eq!(one.state, AgentState::Working);
    screen(&mut one, AgentState::Blocked, AT);
    observe(&mut one, &registration, false, true, later(2 * MILLI));
    assert_eq!(one.state, AgentState::Blocked);
    screen(&mut one, AgentState::Unknown, later(3 * MILLI));
    assert_eq!(one.state, AgentState::Idle);
    assert!(!one.agent_process_acquisition_pending);
    // An older queued screen event cannot undo completion.
    screen(&mut one, AgentState::Working, later(MILLI));
    assert_eq!(one.state, AgentState::Idle);
    screen(&mut one, AgentState::Working, later(4 * MILLI));
    assert_eq!(one.state, AgentState::Idle);
    observe(&mut one, &registration, false, false, later(5 * MILLI));
    assert_eq!(one.state, AgentState::Idle);
    assert!(!one.agent_process_acquisition_pending);

    let mut two = terminal("two");
    screen(&mut two, AgentState::Unknown, AT);
    two.hook_authority = Some(HookAuthority { effective: true });
    two.reported_state = AgentState::Working;
    two.recompute_effective_state(later(6 * MILLI));
    assert_eq!(two.state, AgentState::Working);
    let registration = register(&mut two, "session");
    observe(&mut two, &registration, false, true, later(7 * MILLI));
    assert_eq!(two.state, AgentState::Working);
    screen(&mut two, AgentState::Blocked, later(7 * MILLI));
    assert_eq!(two.state, AgentState::Blocked);
    two.codex_session
        .as_mut()
        .unwrap()
        .turn
        .as_mut()
        .unwrap()
        .phase = TurnPhase::Aborted;
    assert!(!two.codex_turn_aborted_effective());
    two.hook_authority = Some(HookAuthority { effective: false });
    assert!(two.codex_turn_aborted_effective());
}

#[test]
fn codex_registration_replacement_exit_and_failure_discard_stale_authority() {
    let mut one = terminal("one");
    screen(&mut one, AgentState::Unknown, AT);
    let old = register(&mut one, "old");
    observe(&mut one, &old, true, true, AT);
    assert_eq!(
        register(&mut one, "old"),
        old,
        "compaction does not restart replay"
    );
    let current = register(&mut one, "new");
    assert_ne!(old.generation, current.generation);
    assert!(one
        .observe_codex_turn(Observation {
            registration: old,
            turn: None,
            observed_at: AT,
            replay: false,
            unavailable: true
        })
        .is_none());
    observe(&mut one, &current, false, true, AT);
    screen(&mut one, AgentState::Working, earlier(MILLI));
    assert_eq!(one.state, AgentState::Idle);
    assert_eq!(
        one.observe_codex_turn(Observation {
            registration: current.clone(),
            turn: None,
            observed_at: later(2 * MILLI),
            replay: false,
            unavailable: true,
        })
        .unwrap(),
        TerminalStateMutation {
            effective_state_change: Some(EffectiveStateChange {
                previous_state: AgentState::Idle,
                state: AgentState::Working,
                at: later(2 * MILLI),
            })
        }
    );
    assert_eq!(one.state, AgentState::Working);
    assert!(one.codex_session.is_none());
    let current = register(&mut one, "new");
    assert!(current.generation > 1);
    // The agent's process exits.
    one.codex_session = None;
    one.recent_agent_process_exit = Some(later(3 * MILLI));
    // A legacy identity report still cannot restore transcript authority after exit.
    persist(&mut one, "new");
    one.register_codex_transcript(path("new"), later(3 * MILLI));
    assert!(one.codex_session.is_none());
    // Guarded admission can acquire a verified replacement before the detector ticks.
    assert!(one.needs_codex_process_acquisition());
    one.detected_agent = Some(Agent::Codex);
    one.recent_agent_process_exit = None;
    let replacement = register(&mut one, "replacement");
    assert!(!one.needs_codex_process_acquisition());
    assert_eq!(
        one.codex_session.as_ref().unwrap().registration,
        replacement
    );
    // The terminal is started anew.
    one.codex_session = None;
    let replacement = register(&mut one, "new");
    assert!(replacement.generation > current.generation);
}

#[test]
fn codex_managed_startup_requires_fresh_prompt_evidence_not_unknown_or_blocked() {
    let mut one = terminal("worker");
    one.codex_prompt_started_at = Some(AT);
    screen(&mut one, AgentState::Unknown, AT);
    assert!(!one.managed_agent_prompt_ready(Agent::Codex, AT));
    assert!(one.observe_codex_prompt(true, earlier(MILLI)).is_none());
    assert_eq!(
        one.observe_codex_prompt(true, AT).unwrap(),
        TerminalStateMutation::default()
    );
    screen(&mut one, AgentState::Blocked, AT);
    one.observe_codex_prompt(false, AT).unwrap();
    assert!(!one.managed_agent_prompt_ready(Agent::Codex, AT));
    screen(&mut one, AgentState::Unknown, AT);
    assert!(!one.managed_agent_prompt_ready(Agent::Codex, AT));
    one.observe_codex_prompt(true, AT).unwrap();
    assert!(!one.managed_agent_prompt_ready(Agent::Codex, later(SECOND)));
    assert!(one.managed_agent_prompt_ready(Agent::Codex, later(2 * SECOND)));
    assert_eq!(one.state, AgentState::Unknown);

    let mut fast = terminal("fast");
    screen(&mut fast, AgentState::Unknown, AT);
    fast.observe_codex_prompt(true, AT).unwrap();
    assert!(fast.managed_agent_prompt_ready(Agent::Codex, later(3 * SECOND)));
}

#[test]
fn codex_handoff_rebinds_observer_to_new_terminal_identity() {
    let mut original = terminal("original");
    screen(&mut original, AgentState::Unknown, AT);
    let old = register(&mut original, "session");
    observe(&mut original, &old, true, false, AT);
    let mut restored = terminal("restored");
    persist(&mut restored, "session");
    restored.restore_codex_session(original.handoff_codex_session().unwrap(), AT);
    let registration = restored
        .codex_session
        .as_ref()
        .unwrap()
        .registration
        .clone();
    assert_eq!(registration.terminal_id, restored.id);
    assert_ne!(registration.terminal_id, old.terminal_id);
    assert_eq!(restored.state, AgentState::Working);
    assert!(restored
        .observe_codex_turn(Observation {
            registration: old,
            turn: None,
            observed_at: AT,
            replay: false,
            unavailable: true
        })
        .is_none());
    restored
        .observe_codex_turn(Observation {
            registration: registration.clone(),
            turn: Some(Turn {
                id: "turn".into(),
                phase: TurnPhase::Completed,
            }),
            observed_at: AT,
            replay: true,
            unavailable: false,
        })
        .unwrap();
    assert_eq!(restored.state, AgentState::Idle);
    assert!(!restored.codex_session.as_ref().unwrap().replayed_idle);
}

#[test]
fn handoff_completion_after_saved_idle_survives_a_delayed_blocker() {
    let mut original = terminal("original");
    screen(&mut original, AgentState::Unknown, AT);
    let old = register(&mut original, "session");
    observe(&mut original, &old, false, false, AT);

    let mut restored = terminal("restored");
    persist(&mut restored, "session");
    restored.restore_codex_session(original.handoff_codex_session().unwrap(), AT);
    let registration = restored
        .codex_session
        .as_ref()
        .unwrap()
        .registration
        .clone();
    assert_eq!(
        registration.replay_after,
        original.codex_session.unwrap().turn
    );
    assert!(restored.codex_session.as_ref().unwrap().replayed_idle);
    restored.agent_process_acquisition_pending = true;

    screen(&mut restored, AgentState::Blocked, later(MILLI));
    for (phase, delay) in [(TurnPhase::Active, 2), (TurnPhase::Completed, 3)] {
        restored
            .observe_codex_turn(Observation {
                registration: registration.clone(),
                turn: Some(Turn {
                    id: "next".into(),
                    phase,
                }),
                observed_at: later(delay * MILLI),
                replay: false,
                unavailable: false,
            })
            .unwrap();
    }
    assert_eq!(restored.state, AgentState::Blocked);
    screen(&mut restored, AgentState::Unknown, later(4 * MILLI));
    assert_eq!(restored.state, AgentState::Idle);
    assert!(!restored.codex_session.as_ref().unwrap().replayed_idle);
    assert!(!restored.agent_process_acquisition_pending);
}

#[test]
fn paths_are_compared_by_their_components() {
    let plain = TranscriptPath::new(PathBuf::from("/tmp/a/b.jsonl"));
    let respelled = TranscriptPath::new(PathBuf::from("/tmp//a/./b.jsonl"));
    let other = TranscriptPath::new(PathBuf::from("/tmp/a/c.jsonl"));
    let longer = TranscriptPath::new(PathBuf::from("/tmp/a/b.jsonl/d"));
    assert!(plain == respelled);
    assert!(plain != other);
    assert!(plain != longer);
    assert_eq!(*respelled.file(), PathBuf::from("/tmp//a/./b.jsonl"));
    assert!(plain.clone() == plain);
    assert!(plain.absolute());
    assert!(!TranscriptPath::new(PathBuf::from("tmp/a")).absolute());
}

#[test]
fn a_respelled_path_does_not_restart_a_session() {
    let mut one = terminal("one");
    let registration = register(&mut one, "session");
    one.register_codex_transcript(
        TranscriptPath::new(PathBuf::from("/tmp/./session.jsonl")),
        later(SECOND),
    );
    let session = one.codex_session.as_ref().unwrap();
    assert_eq!(session.registration.generation, registration.generation);
    assert_eq!(session.registered_at, AT);
    one.register_codex_transcript(
        TranscriptPath::new(PathBuf::from("/tmp/moved.jsonl")),
        later(SECOND),
    );
    let session = one.codex_session.as_ref().unwrap();
    assert_eq!(session.registration.generation, registration.generation + 1);
    assert_eq!(session.registered_at, later(SECOND));
}

#[test]
fn only_absolute_paths_of_codex_sessions_are_followed() {
    let mut one = terminal("one");
    one.register_codex_transcript(path("session"), AT);
    assert!(one.codex_session.is_none());
    persist(&mut one, "session");
    one.register_codex_transcript(TranscriptPath::new(PathBuf::from("session.jsonl")), AT);
    assert!(one.codex_session.is_none());
    one.persisted_agent_session.as_mut().unwrap().source = "custom:codex".into();
    one.register_codex_transcript(path("session"), AT);
    assert!(one.codex_session.is_none());
    one.persisted_agent_session.as_mut().unwrap().source = "herdr:codex".into();
    one.persisted_agent_session.as_mut().unwrap().agent = "other".into();
    one.register_codex_transcript(path("session"), AT);
    assert!(one.codex_session.is_none());
    assert_eq!(one.codex_generation, 0);
    let registration = register(&mut one, "session");
    assert_eq!(registration.generation, 1);
    assert!(registration.current_turn_hook);
    assert_eq!(registration.session_id, "session");
    assert_eq!(registration.replay_after, None);
}

#[test]
fn observations_of_other_agents_and_sessions_are_refused() {
    let mut one = terminal("one");
    let registration = register(&mut one, "session");
    let observation = || Observation {
        registration: registration.clone(),
        turn: None,
        observed_at: AT,
        replay: false,
        unavailable: false,
    };
    one.detected_agent = Some(Agent::Other(3));
    assert!(one.observe_codex_turn(observation()).is_none());
    assert!(one.observe_codex_prompt(true, AT).is_none());
    assert!(one.needs_codex_process_acquisition());
    one.detected_agent = None;
    assert!(one.observe_codex_turn(observation()).is_some());
    assert!(one.codex_session_matches_current());
    persist(&mut one, "another");
    assert!(!one.codex_session_matches_current());
    assert!(one.observe_codex_turn(observation()).is_none());
    assert!(one.handoff_codex_session().is_none());
    persist(&mut one, "session");
    one.recent_agent_process_exit = Some(AT);
    assert!(one.observe_codex_turn(observation()).is_none());
    one.codex_session = None;
    one.recent_agent_process_exit = None;
    assert!(one.observe_codex_turn(observation()).is_none());
}

#[test]
fn a_turn_stands_for_a_state_only_where_codex_runs() {
    let mut one = terminal("one");
    let registration = register(&mut one, "session");
    assert_eq!(one.codex_state(), None);
    observe(&mut one, &registration, true, true, AT);
    assert_eq!(one.codex_state(), None);
    assert_eq!(one.state, AgentState::Unknown);
    one.detected_agent = Some(Agent::Codex);
    assert_eq!(one.codex_state(), Some(AgentState::Working));
    one.fallback_visible_blocker = true;
    assert_eq!(one.codex_state(), Some(AgentState::Blocked));
    one.fallback_visible_blocker = false;
    observe(&mut one, &registration, false, true, AT);
    assert_eq!(one.codex_state(), Some(AgentState::Idle));
    assert!(!one.codex_turn_aborted_effective());
}

#[test]
fn replayed_history_leaves_the_acquisition_pending() {
    let mut one = terminal("one");
    let registration = register(&mut one, "session");
    one.agent_process_acquisition_pending = true;
    observe(&mut one, &registration, false, true, AT);
    assert!(one.agent_process_acquisition_pending);
    assert!(one.codex_session.as_ref().unwrap().replayed_idle);
    observe(&mut one, &registration, true, true, AT);
    assert!(one.agent_process_acquisition_pending);
    assert!(!one.codex_session.as_ref().unwrap().replayed_idle);
    // The end of the turn just seen active is news.
    observe(&mut one, &registration, false, true, later(MILLI));
    assert!(!one.agent_process_acquisition_pending);
    assert!(!one.codex_session.as_ref().unwrap().replayed_idle);
    assert_eq!(
        one.codex_session.as_ref().unwrap().observed_at,
        later(MILLI)
    );
}

#[test]
fn a_handoff_without_a_turn_waits_for_the_hook() {
    let mut one = terminal("one");
    persist(&mut one, "session");
    let snapshot = |id: &str| HandoffSession {
        session_id: id.into(),
        path: path(id),
        turn: None,
    };
    one.restore_codex_session(snapshot("another"), AT);
    assert!(one.codex_session.is_none());
    assert_eq!(one.detected_agent, None);
    one.restore_codex_session(snapshot("session"), AT);
    let session = one.codex_session.as_ref().unwrap();
    assert!(session.registration.current_turn_hook);
    assert_eq!(session.registration.replay_after, None);
    assert_eq!(one.detected_agent, Some(Agent::Codex));
    let again = one.handoff_codex_session().unwrap();
    assert_eq!(again.session_id, "session");
    assert_eq!(again.path, path("session"));
    assert_eq!(again.turn, None);
}

#[test]
fn a_refused_handoff_path_still_passes_its_turn_to_the_session_followed() {
    let mut one = terminal("one");
    register(&mut one, "session");
    one.restore_codex_session(
        HandoffSession {
            session_id: "session".into(),
            path: TranscriptPath::new(PathBuf::from("relative.jsonl")),
            turn: Some(Turn {
                id: "turn".into(),
                phase: TurnPhase::Aborted,
            }),
        },
        AT,
    );
    let session = one.codex_session.as_ref().unwrap();
    assert_eq!(session.registration.path, path("session"));
    assert_eq!(session.registration.generation, 1);
    assert!(session.replayed_idle);
    assert_eq!(one.state, AgentState::Idle);
    assert!(one.codex_turn_aborted_effective());
}

#[test]
fn a_standing_prompt_keeps_its_start_and_a_new_one_settles_anew() {
    let mut one = terminal("one");
    one.detected_agent = Some(Agent::Codex);
    one.observe_codex_prompt(true, AT).unwrap();
    one.observe_codex_prompt(true, later(SECOND)).unwrap();
    assert_eq!(one.codex_prompt_started_at, Some(AT));
    assert!(!one.managed_agent_prompt_ready(Agent::Codex, later(2 * SECOND - 1)));
    assert!(one.managed_agent_prompt_ready(Agent::Codex, later(2 * SECOND)));
    one.observe_codex_prompt(false, later(3 * SECOND)).unwrap();
    assert!(!one.managed_agent_prompt_ready(Agent::Codex, later(9 * SECOND)));
    one.observe_codex_prompt(true, later(4 * SECOND)).unwrap();
    assert!(!one.managed_agent_prompt_ready(Agent::Codex, later(5 * SECOND)));
    assert!(one.managed_agent_prompt_ready(Agent::Codex, later(6 * SECOND)));
    one.state = AgentState::Blocked;
    assert!(!one.managed_agent_prompt_ready(Agent::Codex, later(6 * SECOND)));
    assert!(!one.managed_agent_prompt_ready(Agent::Other(0), later(6 * SECOND)));
    one.state = AgentState::Idle;
    assert!(one.managed_agent_prompt_ready(Agent::Other(0), AT));
    one.recent_agent_process_exit = Some(AT);
    assert!(one.observe_codex_prompt(true, later(7 * SECOND)).is_none());
}

#[test]
fn a_reported_pass_leaves_the_terminal_with_its_last_turn() {
    let mut one = terminal("one");
    screen(&mut one, AgentState::Unknown, AT);
    let registration = register(&mut one, "session");
    let turn = |id: &str, phase| Turn {
        id: id.into(),
        phase,
    };
    let (mut observer, _) = Observer::start(registration);
    let mut action = observer.step(ObserverEvent::Passed {
        changes: vec![
            (turn("a", TurnPhase::Active), false),
            (turn("a", TurnPhase::Completed), false),
            (turn("b", TurnPhase::Active), false),
        ],
        at: AT,
    });
    let mut states = Vec::new();
    while let ObserverAction::Send(observation) = action {
        one.observe_codex_turn(observation).unwrap();
        states.push(one.state);
        action = observer.step(ObserverEvent::Delivered);
    }
    assert_eq!(
        states,
        vec![AgentState::Working, AgentState::Idle, AgentState::Working]
    );
    assert_eq!(
        one.codex_session.as_ref().unwrap().turn,
        Some(turn("b", TurnPhase::Active))
    );
}

#[test]
fn an_unchanged_state_is_no_change() {
    let mut one = terminal("one");
    screen(&mut one, AgentState::Unknown, AT);
    let registration = register(&mut one, "session");
    let observation = |phase| Observation {
        registration: registration.clone(),
        turn: Some(Turn {
            id: "turn".into(),
            phase,
        }),
        observed_at: later(MILLI),
        replay: false,
        unavailable: false,
    };
    assert_eq!(
        one.observe_codex_turn(observation(TurnPhase::Completed)),
        Some(TerminalStateMutation {
            effective_state_change: Some(EffectiveStateChange {
                previous_state: AgentState::Unknown,
                state: AgentState::Idle,
                at: later(MILLI),
            })
        })
    );
    assert_eq!(
        one.observe_codex_turn(observation(TurnPhase::Aborted)),
        Some(TerminalStateMutation {
            effective_state_change: None
        })
    );
}

#[test]
fn paths_can_be_given_with_their_answers() {
    let on_drive = |spelling: &str, prefix: PathPrefix| {
        TranscriptPath::with_answers(
            PathBuf::from(format!("{spelling}\\a.jsonl")),
            true,
            Some(prefix),
            vec![
                spelling.as_bytes().to_vec(),
                b"\\".to_vec(),
                b"a.jsonl".to_vec(),
            ],
        )
    };
    let given = on_drive("C:", PathPrefix::Disk(b'C'));
    let respelled = on_drive("c:", PathPrefix::Disk(b'C'));
    assert!(given == respelled);
    assert!(given != on_drive("D:", PathPrefix::Disk(b'D')));
    assert!(given != on_drive("C:", PathPrefix::VerbatimDisk(b'C')));
    let share = |name: &[u8]| PathPrefix::Unc(b"server".to_vec(), name.to_vec());
    assert!(share(b"one") == share(b"one").clone());
    assert!(share(b"one") != share(b"two"));

    let mut one = terminal("one");
    persist(&mut one, "session");
    one.register_codex_transcript(given.clone(), AT);
    let session = one.codex_session.clone().unwrap();
    assert_eq!(session.registration.path, given);
    assert_eq!(session.registration.terminal_id, one.id);
    one.register_codex_transcript(respelled, later(SECOND));
    assert_eq!(one.codex_generation, 1);
}
