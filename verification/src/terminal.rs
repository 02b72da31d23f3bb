//! What the turns of a Codex session mean for the terminal that runs it.

use crate::path::{PathModel, TranscriptPath};
use crate::registration::{
    session_model, HandoffModel, HandoffSession, Observation, ObservationModel, Registration,
    RegistrationModel, Session, SessionModel, TerminalId,
};
use crate::text::text_is;
use crate::time::Timestamp;
use crate::turn::{clone_turn, turn_model, Turn, TurnModel, TurnPhase};
use vstd::prelude::*;

verus! {

/// How long a Codex prompt has to stand before the agent counts as ready, in nanoseconds.
pub const CODEX_PROMPT_SETTLE_DELAY_NANOS: u64 = 2_000_000_000;

/// An agent that can run in a terminal.
#[derive(Debug, Clone, Copy, PartialEq, Eq, Structural)]
pub enum Agent {
    Codex,
    /// Any other agent, by the number that the caller gives it.
    Other(u32),
}

/// What an agent is doing.
#[derive(Debug, Clone, Copy, PartialEq, Eq, Structural)]
pub enum AgentState {
    Idle,
    Working,
    Blocked,
    Unknown,
}

/// A reference to an agent's own session.
#[derive(Debug)]
pub struct AgentSessionRef {
    pub value: String,
}

/// The agent session that a terminal would resume.
#[derive(Debug)]
pub struct PersistedAgentSession {
    /// The integration that reported the session.
    pub source: String,
    /// The label of the agent.
    pub agent: String,
    pub session_ref: AgentSessionRef,
}

/// The mathematical value of a [`PersistedAgentSession`].
pub struct PersistedModel {
    pub source: Seq<char>,
    pub agent: Seq<char>,
    pub session_id: Seq<char>,
}

impl View for PersistedAgentSession {
    type V = PersistedModel;

    open spec fn view(&self) -> PersistedModel {
        PersistedModel {
            source: self.source@,
            agent: self.agent@,
            session_id: self.session_ref.value@,
        }
    }
}

impl PersistedModel {
    /// Whether the session is one of Codex that the Codex integration reported.
    pub open spec fn is_codex(self) -> bool {
        self.source == "herdr:codex"@ && self.agent == "codex"@
    }
}

impl PersistedAgentSession {
    /// Whether the session is one of Codex that the Codex integration reported.
    pub fn is_codex(&self) -> (codex: bool)
        ensures
            codex == self@.is_codex(),
            codex == (self.source@ == "herdr:codex"@ && self.agent@ == "codex"@),
    {
        text_is(&self.source, "herdr:codex") && text_is(&self.agent, "codex")
    }
}

/// A hook's claim to decide the state of a terminal.
#[derive(Debug, Clone, Copy, PartialEq, Eq, Structural)]
pub struct HookAuthority {
    /// Whether the terminal honours the claim.
    pub effective: bool,
}

/// A change of the state that a terminal shows.
#[derive(Debug, Clone, Copy, PartialEq, Eq, Structural)]
pub struct EffectiveStateChange {
    pub previous_state: AgentState,
    pub state: AgentState,
    pub at: Timestamp,
}

/// What an update changed in a terminal.
#[derive(Debug, Clone, Copy, PartialEq, Eq, Structural)]
pub struct TerminalStateMutation {
    pub effective_state_change: Option<EffectiveStateChange>,
}

impl Default for TerminalStateMutation {
    fn default() -> (mutation: Self)
        ensures
            mutation == (TerminalStateMutation { effective_state_change: None }),
    {
        TerminalStateMutation { effective_state_change: None }
    }
}

/// A terminal, as far as Codex turns concern it.
#[derive(Debug)]
pub struct TerminalState {
    pub id: TerminalId,
    /// The state that the terminal shows.
    pub state: AgentState,
    /// The agent whose process was found in the terminal.
    pub detected_agent: Option<Agent>,
    /// What hooks and the screen report between them. It is shown wherever no Codex turn decides.
    pub reported_state: AgentState,
    /// Whether the screen shows a question that the agent waits on.
    pub fallback_visible_blocker: bool,
    pub hook_authority: Option<HookAuthority>,
    /// When the agent's process exited, until another one is found.
    pub recent_agent_process_exit: Option<Timestamp>,
    /// Whether the agent was found but has shown no activity since.
    pub agent_process_acquisition_pending: bool,
    pub persisted_agent_session: Option<PersistedAgentSession>,
    pub codex_session: Option<Session>,
    /// The generation of the last registration.
    pub codex_generation: u64,
    /// Whether Codex was last seen with an open prompt.
    pub codex_prompt_ready: bool,
    /// When that prompt was first seen.
    pub codex_prompt_started_at: Option<Timestamp>,
}

/// The mathematical value of a [`TerminalState`].
pub struct TerminalModel {
    pub id: Seq<char>,
    pub state: AgentState,
    pub detected_agent: Option<Agent>,
    pub reported_state: AgentState,
    pub fallback_visible_blocker: bool,
    pub hook_authority: Option<HookAuthority>,
    pub recent_agent_process_exit: Option<Timestamp>,
    pub agent_process_acquisition_pending: bool,
    pub persisted_agent_session: Option<PersistedModel>,
    pub codex_session: Option<SessionModel>,
    pub codex_generation: u64,
    pub codex_prompt_ready: bool,
    pub codex_prompt_started_at: Option<Timestamp>,
}

impl View for TerminalState {
    type V = TerminalModel;

    open spec fn view(&self) -> TerminalModel {
        TerminalModel {
            id: self.id@,
            state: self.state,
            detected_agent: self.detected_agent,
            reported_state: self.reported_state,
            fallback_visible_blocker: self.fallback_visible_blocker,
            hook_authority: self.hook_authority,
            recent_agent_process_exit: self.recent_agent_process_exit,
            agent_process_acquisition_pending: self.agent_process_acquisition_pending,
            persisted_agent_session: match self.persisted_agent_session {
                Some(session) => Some(session@),
                None => None,
            },
            codex_session: session_model(self.codex_session),
            codex_generation: self.codex_generation,
            codex_prompt_ready: self.codex_prompt_ready,
            codex_prompt_started_at: self.codex_prompt_started_at,
        }
    }
}

/// Whether an optional turn is there and over.
pub open spec fn is_over(turn: Option<TurnModel>) -> bool {
    turn matches Some(turn) && turn.phase != TurnPhase::Active
}

impl TerminalModel {
    /// A terminal of which nothing is known yet.
    pub open spec fn initial(id: Seq<char>) -> TerminalModel {
        TerminalModel {
            id,
            state: AgentState::Unknown,
            detected_agent: None,
            reported_state: AgentState::Unknown,
            fallback_visible_blocker: false,
            hook_authority: None,
            recent_agent_process_exit: None,
            agent_process_acquisition_pending: false,
            persisted_agent_session: None,
            codex_session: None,
            codex_generation: 0,
            codex_prompt_ready: false,
            codex_prompt_started_at: None,
        }
    }

    /// The session followed, if any, was registered by this terminal and not after its last
    /// registration.
    pub open spec fn well_formed(self) -> bool {
        self.codex_session matches Some(session) ==> {
            &&& session.registration.terminal_id == self.id
            &&& session.registration.generation <= self.codex_generation
        }
    }

    /// Whether the terminal would resume the Codex session `session_id`.
    pub open spec fn resumes(self, session_id: Seq<char>) -> bool {
        self.persisted_agent_session matches Some(session) && session.is_codex()
            && session.session_id == session_id
    }

    /// Whether the session followed is the one that the terminal would resume.
    pub open spec fn session_matches(self) -> bool {
        self.codex_session matches Some(session) && self.resumes(session.registration.session_id)
    }

    /// The state that the last Codex turn stands for, where Codex turns have a say.
    pub open spec fn codex_state(self) -> Option<AgentState> {
        if self.detected_agent == Some(Agent::Codex) && self.session_matches()
            && self.codex_session->0.turn is Some {
            if self.fallback_visible_blocker {
                Some(AgentState::Blocked)
            } else if self.codex_session->0.turn->0.phase == TurnPhase::Active {
                Some(AgentState::Working)
            } else {
                Some(AgentState::Idle)
            }
        } else {
            None
        }
    }

    /// Whether a hook decides the state.
    pub open spec fn hook_decides(self) -> bool {
        self.hook_authority matches Some(authority) && authority.effective
    }

    /// The state to show: the Codex turn's, unless there is none or a hook decides.
    pub open spec fn effective_state(self) -> AgentState {
        match self.codex_state() {
            Some(state) if !self.hook_decides() => state,
            _ => self.reported_state,
        }
    }

    /// The terminal, showing the state that it should.
    pub open spec fn recomputed(self) -> TerminalModel {
        TerminalModel { state: self.effective_state(), ..self }
    }

    /// Whether the terminal takes up the transcript at `path`: it would resume a Codex session,
    /// its agent has not just exited, the path is absolute, and it does not follow that very
    /// session and path already.
    pub open spec fn takes_up(self, path: PathModel) -> bool {
        &&& self.persisted_agent_session matches Some(session) && session.is_codex()
        &&& self.recent_agent_process_exit is None
        &&& path.absolute
        &&& !(self.codex_session matches Some(current) && current.registration.session_id
            == self.persisted_agent_session->0.session_id && current.registration.path.same_path(
            path,
        ))
    }

    /// The terminal after it was told of the transcript at `path`.
    pub open spec fn registered(self, path: PathModel, now: int) -> TerminalModel {
        if self.takes_up(path) {
            TerminalModel {
                codex_generation: (self.codex_generation + 1) as u64,
                codex_session: Some(
                    SessionModel {
                        registration: RegistrationModel {
                            terminal_id: self.id,
                            generation: (self.codex_generation + 1) as u64,
                            session_id: self.persisted_agent_session->0.session_id,
                            path,
                            current_turn_hook: true,
                            replay_after: None,
                        },
                        turn: None,
                        registered_at: now,
                        observed_at: now,
                        replayed_idle: false,
                    },
                ),
                ..self
            }
        } else {
            self
        }
    }

    /// What the terminal hands to the next process.
    pub open spec fn handoff(self) -> Option<HandoffModel> {
        match self.codex_session {
            Some(session) if self.session_matches() => Some(
                HandoffModel {
                    session_id: session.registration.session_id,
                    path: session.registration.path,
                    turn: session.turn,
                },
            ),
            _ => None,
        }
    }

    /// The terminal once the session followed has taken up where a handoff left off.
    pub open spec fn resumed(self, turn: Option<TurnModel>) -> TerminalModel {
        match self.codex_session {
            Some(session) => TerminalModel {
                detected_agent: Some(Agent::Codex),
                codex_session: Some(
                    SessionModel {
                        registration: RegistrationModel {
                            current_turn_hook: turn is None,
                            replay_after: turn,
                            ..session.registration
                        },
                        turn,
                        replayed_idle: is_over(turn),
                        ..session
                    },
                ),
                ..self
            }.recomputed(),
            None => self,
        }
    }

    /// The terminal after a handoff from another process.
    pub open spec fn restored(self, snapshot: HandoffModel, now: int) -> TerminalModel {
        if self.resumes(snapshot.session_id) {
            self.registered(snapshot.path, now).resumed(snapshot.turn)
        } else {
            self
        }
    }

    /// Whether a Codex process still has to be found.
    pub open spec fn needs_acquisition(self) -> bool {
        self.detected_agent != Some(Agent::Codex) || self.recent_agent_process_exit is Some
    }

    /// Whether an observation counts: it concerns the registration in force, the agent has not
    /// exited, no other agent was found, and the session is the one to resume.
    pub open spec fn heeds(self, observation: ObservationModel) -> bool {
        &&& self.codex_session matches Some(session) && session.registration.same_registration(
            observation.registration,
        )
        &&& self.recent_agent_process_exit is None
        &&& self.detected_agent matches Some(agent) ==> agent == Agent::Codex
        &&& self.session_matches()
    }

    /// Whether an observation ends the turn that was last seen active.
    pub open spec fn ends_active_turn(self, observation: ObservationModel) -> bool {
        &&& self.codex_session matches Some(session)
        &&& session.turn matches Some(previous)
        &&& observation.turn matches Some(next)
        &&& previous.phase == TurnPhase::Active
        &&& next.id == previous.id
        &&& next.phase != TurnPhase::Active
    }

    /// Whether an observation only reads back history. The end of a turn that was seen active is
    /// news, even where it was read back.
    pub open spec fn historical(self, observation: ObservationModel) -> bool {
        observation.replay && !self.ends_active_turn(observation)
    }

    /// The terminal after an observation that counts.
    pub open spec fn observed(self, observation: ObservationModel) -> TerminalModel {
        if observation.unavailable {
            TerminalModel { codex_session: None, ..self }.recomputed()
        } else {
            TerminalModel {
                codex_session: Some(
                    SessionModel {
                        replayed_idle: self.historical(observation) && is_over(observation.turn),
                        turn: observation.turn,
                        observed_at: observation.observed_at,
                        ..self.codex_session->0
                    },
                ),
                agent_process_acquisition_pending: self.agent_process_acquisition_pending
                    && self.historical(observation),
                ..self
            }.recomputed()
        }
    }

    /// Whether the sight of a prompt counts: Codex was found, has not exited, and the sight is
    /// not older than the prompt already known.
    pub open spec fn heeds_prompt(self, at: int) -> bool {
        &&& self.detected_agent == Some(Agent::Codex)
        &&& self.recent_agent_process_exit is None
        &&& self.codex_prompt_started_at matches Some(started) ==> at >= started@
    }

    /// The terminal after the sight of a prompt that counts.
    pub open spec fn prompted(self, ready: bool, at: Timestamp) -> TerminalModel {
        TerminalModel {
            codex_prompt_started_at: if ready && !self.codex_prompt_ready {
                Some(at)
            } else {
                self.codex_prompt_started_at
            },
            codex_prompt_ready: ready,
            ..self
        }
    }

    /// Whether a managed agent can be given work.
    pub open spec fn prompt_ready(self, agent: Agent, now: int) -> bool {
        if agent == Agent::Codex {
            &&& self.codex_prompt_ready
            &&& self.codex_prompt_started_at matches Some(started) && now >= started@
                + CODEX_PROMPT_SETTLE_DELAY_NANOS
            &&& self.state != AgentState::Blocked
        } else {
            self.state == AgentState::Idle
        }
    }

    /// Whether the terminal shows an aborted turn.
    pub open spec fn shows_aborted_turn(self) -> bool {
        &&& self.codex_state() is Some
        &&& !self.hook_decides()
        &&& self.codex_session->0.turn->0.phase == TurnPhase::Aborted
    }
}

/// The change of the shown state between two terminals, if any.
pub open spec fn state_change(before: TerminalModel, after: TerminalModel, at: Timestamp) -> Option<
    EffectiveStateChange,
> {
    if before.state == after.state {
        None
    } else {
        Some(EffectiveStateChange { previous_state: before.state, state: after.state, at })
    }
}

impl TerminalState {
    /// A terminal of which nothing is known yet.
    pub fn new(id: TerminalId) -> (terminal: TerminalState)
        ensures
            terminal@ == TerminalModel::initial(id@),
            terminal@.well_formed(),
    {
        TerminalState {
            id,
            state: AgentState::Unknown,
            detected_agent: None,
            reported_state: AgentState::Unknown,
            fallback_visible_blocker: false,
            hook_authority: None,
            recent_agent_process_exit: None,
            agent_process_acquisition_pending: false,
            persisted_agent_session: None,
            codex_session: None,
            codex_generation: 0,
            codex_prompt_ready: false,
            codex_prompt_started_at: None,
        }
    }

    /// Whether a Codex process still has to be found before its reports can be taken.
    pub fn needs_codex_process_acquisition(&self) -> (needs: bool)
        ensures
            needs == self@.needs_acquisition(),
            needs == (self.detected_agent != Some(Agent::Codex)
                || self.recent_agent_process_exit is Some),
    {
        !self.codex_detected() || self.recent_agent_process_exit.is_some()
    }

    /// Whether a Codex process was found.
    fn codex_detected(&self) -> (detected: bool)
        ensures
            detected == (self@.detected_agent == Some(Agent::Codex)),
    {
        match self.detected_agent {
            Some(agent) => agent == Agent::Codex,
            None => false,
        }
    }

    /// Whether the terminal would resume the Codex session `session_id`.
    fn resumes(&self, session_id: &String) -> (resumes: bool)
        ensures
            resumes == self@.resumes(session_id@),
    {
        match &self.persisted_agent_session {
            Some(session) => session.is_codex() && session.session_ref.value == *session_id,
            None => false,
        }
    }

    /// What the terminal hands to the next process: the session that it follows, if that is the
    /// one to resume.
    pub fn handoff_codex_session(&self) -> (snapshot: Option<HandoffSession>)
        ensures
            (match snapshot {
                Some(snapshot) => Some(snapshot@),
                None => None,
            }) == self@.handoff(),
            snapshot is Some ==> {
                &&& self.codex_session is Some
                &&& snapshot->0.session_id@ == self.codex_session->0.registration.session_id@
                &&& snapshot->0.path@ == self.codex_session->0.registration.path@
                &&& turn_model(snapshot->0.turn) == turn_model(self.codex_session->0.turn)
            },
    {
        if !self.codex_session_matches_current() {
            return None;
        }
        match &self.codex_session {
            Some(session) => Some(
                HandoffSession {
                    session_id: session.registration.session_id.clone(),
                    path: session.registration.path.clone(),
                    turn: clone_turn(&session.turn),
                },
            ),
            None => None,
        }
    }

    /// Takes up at `now` what another process handed over.
    pub fn restore_codex_session(&mut self, snapshot: HandoffSession, now: Timestamp)
        requires
            old(self)@.resumes(snapshot@.session_id) && old(self)@.takes_up(snapshot@.path)
                ==> old(self)@.codex_generation < u64::MAX,
        ensures
            final(self)@ == old(self)@.restored(snapshot@, now@),
            final(self)@ != old(self)@ ==> {
                &&& final(self).codex_session is Some
                &&& turn_model(final(self).codex_session->0.turn) == turn_model(snapshot.turn)
                &&& turn_model(final(self).codex_session->0.registration.replay_after)
                    == turn_model(snapshot.turn)
            },
            old(self)@.well_formed() ==> final(self)@.well_formed(),
    {
        if !self.resumes(&snapshot.session_id) {
            return;
        }
        let HandoffSession { session_id: _, path, turn } = snapshot;
        self.register_codex_transcript(path, now);
        if let Some(session) = self.codex_session.as_mut() {
            session.registration.current_turn_hook = turn.is_none();
            session.registration.replay_after = clone_turn(&turn);
            session.replayed_idle = is_over_turn(&turn);
            session.turn = turn;
            self.detected_agent = Some(Agent::Codex);
            let _ = self.recompute_effective_state(now);
        }
    }

    /// Follows the transcript at `path` from `now` on, unless there is nothing to follow it for,
    /// the path is not absolute, or it is followed already.
    pub fn register_codex_transcript(&mut self, path: TranscriptPath, now: Timestamp)
        requires
            old(self)@.takes_up(path@) ==> old(self)@.codex_generation < u64::MAX,
        ensures
            final(self)@ == old(self)@.registered(path@, now@),
            final(self)@ != old(self)@ ==> {
                &&& final(self).codex_session is Some
                &&& final(self).codex_session->0.turn is None
                &&& !final(self).codex_session->0.replayed_idle
                &&& final(self).codex_session->0.registration.current_turn_hook
                &&& final(self).codex_session->0.registration.replay_after is None
                &&& final(self).codex_session->0.registration.path@ == path@
                &&& final(self).codex_session->0.registered_at == now
                &&& final(self).codex_session->0.observed_at == now
            },
            old(self)@.well_formed() ==> final(self)@.well_formed(),
    {
        let session_id = match &self.persisted_agent_session {
            Some(session) => if session.is_codex() {
                session.session_ref.value.clone()
            } else {
                return;
            },
            None => {
                return;
            },
        };
        if self.recent_agent_process_exit.is_some() || !path.absolute() {
            return;
        }
        if let Some(current) = &self.codex_session {
            if current.registration.session_id == session_id && current.registration.path == path {
                return;
            }
        }
        self.codex_generation = self.codex_generation + 1;
        self.codex_session = Some(
            Session {
                registration: Registration {
                    terminal_id: self.id.clone(),
                    generation: self.codex_generation,
                    session_id,
                    path,
                    current_turn_hook: true,
                    replay_after: None,
                },
                turn: None,
                registered_at: now,
                observed_at: now,
                replayed_idle: false,
            },
        );
    }

    /// Takes note of what an observer found. `None` means that the observation does not count;
    /// nothing has changed.
    pub fn observe_codex_turn(&mut self, observation: Observation) -> (mutation: Option<
        TerminalStateMutation,
    >)
        ensures
            old(self)@.heeds(observation@) ==> {
                &&& final(self)@ == old(self)@.observed(observation@)
                &&& mutation == Some(
                    TerminalStateMutation {
                        effective_state_change: state_change(
                            old(self)@,
                            final(self)@,
                            observation.observed_at,
                        ),
                    },
                )
            },
            !old(self)@.heeds(observation@) ==> {
                &&& final(self)@ == old(self)@
                &&& mutation is None
            },
            mutation is Some && !observation.unavailable ==> {
                &&& final(self).codex_session is Some
                &&& turn_model(final(self).codex_session->0.turn) == turn_model(observation.turn)
                &&& final(self).codex_session->0.observed_at == observation.observed_at
            },
            mutation is Some && observation.unavailable ==> final(self).codex_session is None,
            old(self)@.well_formed() ==> final(self)@.well_formed(),
    {
        if !self.heeds(&observation) {
            return None;
        }
        let now = observation.observed_at;
        let historical = observation.replay && !self.ends_active_turn(&observation.turn);
        if observation.unavailable {
            self.codex_session = None;
        } else if let Some(session) = self.codex_session.as_mut() {
            session.replayed_idle = historical && is_over_turn(&observation.turn);
            session.turn = observation.turn;
            session.observed_at = now;
            // A live turn is new activity, not the acquisition of past state.
            if !historical {
                self.agent_process_acquisition_pending = false;
            }
        }
        Some(TerminalStateMutation { effective_state_change: self.recompute_effective_state(now) })
    }

    /// Whether an observation counts.
    fn heeds(&self, observation: &Observation) -> (heeds: bool)
        ensures
            heeds == self@.heeds(observation@),
    {
        if let Some(session) = &self.codex_session {
            if session.registration != observation.registration {
                return false;
            }
        } else {
            return false;
        }
        if self.recent_agent_process_exit.is_some() {
            return false;
        }
        if let Some(agent) = self.detected_agent {
            if agent != Agent::Codex {
                return false;
            }
        }
        self.codex_session_matches_current()
    }

    /// Whether `next` ends the turn that was last seen active.
    fn ends_active_turn(&self, next: &Option<Turn>) -> (ends: bool)
        ensures
            forall|observation: ObservationModel|
                observation.turn == turn_model(*next) ==> ends == #[trigger] self@.ends_active_turn(
                    observation,
                ),
    {
        match (&self.codex_session, next) {
            (Some(session), Some(next)) => match &session.turn {
                Some(previous) => previous.phase == TurnPhase::Active && next.id == previous.id
                    && next.phase != TurnPhase::Active,
                None => false,
            },
            _ => false,
        }
    }

    /// Whether the session followed is the one that the terminal would resume.
    pub fn codex_session_matches_current(&self) -> (matches: bool)
        ensures
            matches == self@.session_matches(),
    {
        match &self.codex_session {
            Some(codex) => self.resumes(&codex.registration.session_id),
            None => false,
        }
    }

    /// The state that the last Codex turn stands for, where Codex turns have a say.
    pub fn codex_state(&self) -> (state: Option<AgentState>)
        ensures
            state == self@.codex_state(),
    {
        if !self.codex_detected() || !self.codex_session_matches_current() {
            return None;
        }
        match &self.codex_session {
            Some(session) => match &session.turn {
                Some(turn) => if self.fallback_visible_blocker {
                    Some(AgentState::Blocked)
                } else if turn.phase == TurnPhase::Active {
                    Some(AgentState::Working)
                } else {
                    Some(AgentState::Idle)
                },
                None => None,
            },
            None => None,
        }
    }

    /// Whether a hook decides the state.
    fn hook_decides(&self) -> (decides: bool)
        ensures
            decides == self@.hook_decides(),
    {
        match self.hook_authority {
            Some(authority) => authority.effective,
            None => false,
        }
    }

    /// Brings the shown state up to date as of `now` and says how it changed.
    pub fn recompute_effective_state(&mut self, now: Timestamp) -> (change: Option<
        EffectiveStateChange,
    >)
        ensures
            final(self)@ == old(self)@.recomputed(),
            change == state_change(old(self)@, final(self)@, now),
    {
        let previous_state = self.state;
        let state = match self.codex_state() {
            Some(state) => if self.hook_decides() {
                self.reported_state
            } else {
                state
            },
            None => self.reported_state,
        };
        self.state = state;
        if previous_state == state {
            None
        } else {
            Some(EffectiveStateChange { previous_state, state, at: now })
        }
    }

    /// Takes note of whether Codex was seen with an open prompt at `observed_at`. `None` means
    /// that the sight does not count; nothing has changed.
    pub fn observe_codex_prompt(&mut self, ready: bool, observed_at: Timestamp) -> (mutation:
        Option<TerminalStateMutation>)
        ensures
            old(self)@.heeds_prompt(observed_at@) ==> {
                &&& final(self)@ == old(self)@.prompted(ready, observed_at)
                &&& mutation == Some(TerminalStateMutation { effective_state_change: None })
            },
            !old(self)@.heeds_prompt(observed_at@) ==> {
                &&& final(self)@ == old(self)@
                &&& mutation is None
            },
    {
        if !self.codex_detected() || self.recent_agent_process_exit.is_some() {
            return None;
        }
        if let Some(started) = self.codex_prompt_started_at {
            if observed_at.nanos < started.nanos {
                return None;
            }
        }
        if ready && !self.codex_prompt_ready {
            self.codex_prompt_started_at = Some(observed_at);
        }
        self.codex_prompt_ready = ready;
        Some(TerminalStateMutation::default())
    }

    /// Whether a managed agent can be given work at `now`. Codex has to show a prompt that has
    /// settled; any other agent has to be idle.
    pub fn managed_agent_prompt_ready(&self, agent: Agent, now: Timestamp) -> (ready: bool)
        ensures
            ready == self@.prompt_ready(agent, now@),
            agent != Agent::Codex ==> ready == (self.state == AgentState::Idle),
            agent == Agent::Codex && self.state == AgentState::Blocked ==> !ready,
    {
        if agent == Agent::Codex {
            let settled = match self.codex_prompt_started_at {
                Some(started) => now.nanos >= started.nanos && now.nanos - started.nanos
                    >= CODEX_PROMPT_SETTLE_DELAY_NANOS,
                None => false,
            };
            self.codex_prompt_ready && settled && self.state != AgentState::Blocked
        } else {
            self.state == AgentState::Idle
        }
    }

    /// Whether the terminal shows an aborted turn.
    pub fn codex_turn_aborted_effective(&self) -> (aborted: bool)
        ensures
            aborted == self@.shows_aborted_turn(),
    {
        if self.codex_state().is_none() || self.hook_decides() {
            return false;
        }
        match &self.codex_session {
            Some(session) => match &session.turn {
                Some(turn) => turn.phase == TurnPhase::Aborted,
                None => false,
            },
            None => false,
        }
    }
}

/// Whether an optional turn is there and over.
fn is_over_turn(turn: &Option<Turn>) -> (over: bool)
    ensures
        over == is_over(turn_model(*turn)),
{
    match turn {
        Some(turn) => turn.phase != TurnPhase::Active,
        None => false,
    }
}

} // verus!
