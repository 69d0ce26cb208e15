//! The life of one session, from its plan to the exit code.
//!
//! The session is told what happened and answers with the one thing to do
//! next. It acquires the terminal, then the socket, then the spawned
//! command; on every way out it closes the socket, reaps the command and
//! restores the terminal, in that order.

use crate::error::{
    exit_code_spec, outcome_of_relay, ConfigError, NetworkCause, Outcome, SessionError,
};
use crate::input::{ConfigView, Mode, SessionConfig};
use crate::local::{plan_session, plan_spec, PlanView, SessionPlan};
use crate::relay::RelayResult;
use crate::termios::{TerminalState, TerminalView};
use vstd::prelude::*;

verus! {

/// Where a session stands.
#[derive(Debug, Clone, Copy, PartialEq, Eq, Structural)]
pub enum Stage {
    /// Waiting for the terminal to enter raw mode.
    Terminal,
    /// Waiting for the peer: to accept it or to reach it.
    Network,
    /// Waiting for the local command to start.
    Spawn,
    /// The relay is running.
    Relay,
    /// The outcome is known and what was acquired is being released.
    Closing(Outcome),
    /// Everything is released.
    Exited(Outcome),
}

/// What the program reports to the session.
#[derive(Debug, Clone, Copy, PartialEq, Eq, Structural)]
pub enum SessionEvent {
    /// The terminal is in raw mode; these were its local-mode flags before.
    RawModeEntered { saved_lflag: u32 },
    /// The terminal could not be opened, queried or set.
    TerminalFailed,
    /// The plan's host did not resolve to any address; no socket was made.
    HostUnresolved,
    /// The peer is connected.
    Connected,
    /// Binding, accepting or connecting failed.
    NetworkFailed(NetworkCause),
    /// The local command runs.
    Spawned,
    /// The local command could not be started.
    SpawnFailed,
    /// The relay is over.
    RelayFinished(RelayResult),
    /// An interactive signal arrived.
    Interrupted,
    /// The release that was asked for last has been carried out.
    Done,
}

/// What the session asks the program to do next.
#[derive(Debug, Clone, Copy, PartialEq, Eq, Structural)]
pub enum SessionAction {
    /// Save the terminal's attributes and switch it to raw mode.
    EnterRawMode,
    /// Bind and accept one peer, or dial the peer, as the plan says.
    OpenNetwork,
    /// Start the plan's command, its standard streams wired to the relay.
    SpawnShell,
    /// Relay between the socket and the local endpoint until it is over.
    RunRelay,
    /// Close the socket.
    CloseSocket,
    /// Wait for the spawned command to end.
    ReapChild,
    /// Set the terminal's local-mode flags back to `lflag`.
    RestoreTerminal { lflag: u32 },
    /// Leave with this exit code.
    Exit { code: u8 },
    /// Nothing new: the event was not an answer to what is outstanding.
    Wait,
}

/// The state of a session as a mathematical value.
pub struct SessionView {
    pub plan: PlanView,
    pub stage: Stage,
    pub socket_open: bool,
    pub child_alive: bool,
    /// The saved terminal attributes, once raw mode was entered.
    pub terminal: Option<TerminalView>,
}

/// One session: its plan, what it holds, and where it stands.
#[derive(Debug)]
pub struct Session {
    plan: SessionPlan,
    stage: Stage,
    socket_open: bool,
    child_alive: bool,
    terminal: Option<TerminalState>,
}

impl View for Session {
    type V = SessionView;

    closed spec fn view(&self) -> SessionView {
        SessionView {
            plan: self.plan@,
            stage: self.stage,
            socket_open: self.socket_open,
            child_alive: self.child_alive,
            terminal: match self.terminal {
                Some(state) => Some(state@),
                None => None,
            },
        }
    }
}

/// The failure of the network phase in a mode: a listener fails to bind, a
/// dialer fails to connect.
pub open spec fn network_failure(mode: Mode, cause: NetworkCause) -> SessionError {
    match mode {
        Mode::Listen => SessionError::Bind(cause),
        Mode::Connect => SessionError::Connect(cause),
    }
}

/// A session before anything has happened, and the first thing to do: the
/// terminal comes first when the plan asks for raw mode, else the network.
pub open spec fn session_start(plan: PlanView) -> (SessionView, SessionAction) {
    let state = SessionView {
        plan,
        stage: if plan.raw_mode {
            Stage::Terminal
        } else {
            Stage::Network
        },
        socket_open: false,
        child_alive: false,
        terminal: None,
    };
    (
        state,
        if plan.raw_mode {
            SessionAction::EnterRawMode
        } else {
            SessionAction::OpenNetwork
        },
    )
}

/// How a session begins: a configuration that gets a plan starts on it, one
/// that gets none has failed before anything was asked for.
pub open spec fn session_begin(config: ConfigView) -> Result<(SessionView, SessionAction), Outcome> {
    match plan_spec(config) {
        Ok(plan) => Ok(session_start(plan)),
        Err(e) => Err(Outcome::Failed(SessionError::Config(e))),
    }
}

/// The flags that the terminal still has to get back, if any.
pub open spec fn flags_to_restore(s: SessionView) -> Option<u32> {
    match s.terminal {
        Some(t) => if t.restored {
            None
        } else {
            Some(t.saved_lflag)
        },
        None => None,
    }
}

/// The next release on the way out, already noted as done: the socket, then
/// the spawned command, then the terminal, then the exit.
pub open spec fn wind_down(s: SessionView, outcome: Outcome) -> (SessionView, SessionAction) {
    if s.socket_open {
        (
            SessionView { stage: Stage::Closing(outcome), socket_open: false, ..s },
            SessionAction::CloseSocket,
        )
    } else if s.child_alive {
        (
            SessionView { stage: Stage::Closing(outcome), child_alive: false, ..s },
            SessionAction::ReapChild,
        )
    } else {
        match flags_to_restore(s) {
            Some(lflag) => (
                SessionView {
                    stage: Stage::Closing(outcome),
                    terminal: Some(TerminalView { saved_lflag: lflag, restored: true }),
                    ..s
                },
                SessionAction::RestoreTerminal { lflag },
            ),
            None => (
                SessionView { stage: Stage::Exited(outcome), ..s },
                SessionAction::Exit { code: exit_code_spec(outcome) },
            ),
        }
    }
}

/// The state after an event, and what to do next.
///
/// Each stage waits for the report of what it asked for; a failure or a
/// signal starts the way out at once, except that a signal during the relay
/// is ignored when the plan holds signals back. A host that does not resolve
/// is a fault of the configuration, any other failure to bind or to connect
/// one of the network. Any other event changes nothing and is answered with
/// `Wait`.
pub open spec fn session_step(s: SessionView, e: SessionEvent) -> (SessionView, SessionAction) {
    match s.stage {
        Stage::Terminal => match e {
            SessionEvent::RawModeEntered { saved_lflag } => (
                SessionView {
                    stage: Stage::Network,
                    terminal: Some(TerminalView { saved_lflag, restored: false }),
                    ..s
                },
                SessionAction::OpenNetwork,
            ),
            SessionEvent::TerminalFailed => wind_down(s, Outcome::Failed(SessionError::Terminal)),
            SessionEvent::Interrupted => wind_down(s, Outcome::Interrupted),
            _ => (s, SessionAction::Wait),
        },
        Stage::Network => match e {
            SessionEvent::Connected => if s.plan.local is Shell {
                (
                    SessionView { stage: Stage::Spawn, socket_open: true, ..s },
                    SessionAction::SpawnShell,
                )
            } else {
                (
                    SessionView { stage: Stage::Relay, socket_open: true, ..s },
                    SessionAction::RunRelay,
                )
            },
            SessionEvent::HostUnresolved => wind_down(
                s,
                Outcome::Failed(SessionError::Config(ConfigError::UnresolvableHost)),
            ),
            SessionEvent::NetworkFailed(cause) => wind_down(
                s,
                Outcome::Failed(network_failure(s.plan.mode, cause)),
            ),
            SessionEvent::Interrupted => wind_down(s, Outcome::Interrupted),
            _ => (s, SessionAction::Wait),
        },
        Stage::Spawn => match e {
            SessionEvent::Spawned => (
                SessionView { stage: Stage::Relay, child_alive: true, ..s },
                SessionAction::RunRelay,
            ),
            SessionEvent::SpawnFailed => wind_down(s, Outcome::Failed(SessionError::Spawn)),
            SessionEvent::Interrupted => wind_down(s, Outcome::Interrupted),
            _ => (s, SessionAction::Wait),
        },
        Stage::Relay => match e {
            SessionEvent::RelayFinished(result) => wind_down(s, outcome_of_relay(result)),
            SessionEvent::Interrupted => if s.plan.block_signals {
                (s, SessionAction::Wait)
            } else {
                wind_down(s, Outcome::Interrupted)
            },
            _ => (s, SessionAction::Wait),
        },
        Stage::Closing(outcome) => match e {
            SessionEvent::Done => wind_down(s, outcome),
            _ => (s, SessionAction::Wait),
        },
        Stage::Exited(outcome) => (s, SessionAction::Exit { code: exit_code_spec(outcome) }),
    }
}

impl Session {
    /// Validates and plans a configuration and starts its session, or says why
    /// there is none.
    pub fn begin(config: &SessionConfig) -> (begun: Result<(Session, SessionAction), Outcome>)
        ensures
            match begun {
                Ok((session, action)) => session_begin(config@) == Ok::<
                    (SessionView, SessionAction),
                    Outcome,
                >((session@, action)),
                Err(outcome) => session_begin(config@) == Err::<
                    (SessionView, SessionAction),
                    Outcome,
                >(outcome),
            },
            begun matches Ok(started) ==> started.0@.coherent(),
    {
        match plan_session(config) {
            Ok(plan) => Ok(Session::start(plan)),
            Err(e) => Err(Outcome::Failed(SessionError::Config(e))),
        }
    }

    /// Starts a session on its plan and says what to do first.
    pub fn start(plan: SessionPlan) -> (started: (Session, SessionAction))
        ensures
            (started.0@, started.1) == session_start(plan@),
            started.0@.coherent(),
    {
        let raw_mode = plan.raw_mode;
        let session = Session {
            plan,
            stage: if raw_mode {
                Stage::Terminal
            } else {
                Stage::Network
            },
            socket_open: false,
            child_alive: false,
            terminal: None,
        };
        let action = if raw_mode {
            SessionAction::EnterRawMode
        } else {
            SessionAction::OpenNetwork
        };
        (session, action)
    }

    /// The plan that the session carries out.
    pub fn plan(&self) -> (plan: &SessionPlan)
        ensures
            plan@ == self@.plan,
    {
        &self.plan
    }

    /// Where the session stands.
    pub fn stage(&self) -> (stage: Stage)
        ensures
            stage == self@.stage,
    {
        self.stage
    }

    /// How the session ended, once that is known.
    pub fn outcome(&self) -> (outcome: Option<Outcome>)
        ensures
            outcome == match self@.stage {
                Stage::Closing(o) => Some(o),
                Stage::Exited(o) => Some(o),
                _ => None,
            },
    {
        match self.stage {
            Stage::Closing(o) => Some(o),
            Stage::Exited(o) => Some(o),
            _ => None,
        }
    }

    /// Notes the next release on the way out and asks for it.
    fn wind_down(&mut self, outcome: Outcome) -> (action: SessionAction)
        ensures
            (final(self)@, action) == wind_down(old(self)@, outcome),
    {
        if self.socket_open {
            self.stage = Stage::Closing(outcome);
            self.socket_open = false;
            return SessionAction::CloseSocket;
        }
        if self.child_alive {
            self.stage = Stage::Closing(outcome);
            self.child_alive = false;
            return SessionAction::ReapChild;
        }
        let flags = match self.terminal.take() {
            Some(state) => {
                let mut state = state;
                let flags = state.restore();
                self.terminal = Some(state);
                flags
            },
            None => None,
        };
        match flags {
            Some(lflag) => {
                self.stage = Stage::Closing(outcome);
                SessionAction::RestoreTerminal { lflag }
            },
            None => {
                self.stage = Stage::Exited(outcome);
                SessionAction::Exit { code: outcome.exit_code() }
            },
        }
    }

    /// Takes note of an event and says what to do next.
    pub fn step(&mut self, event: SessionEvent) -> (action: SessionAction)
        ensures
            (final(self)@, action) == session_step(old(self)@, event),
            old(self)@.coherent() ==> final(self)@.coherent(),
    {
        proof {
            if self@.coherent() {
                step_keeps_coherence(self@, event);
            }
        }
        match self.stage {
            Stage::Terminal => match event {
                SessionEvent::RawModeEntered { saved_lflag } => {
                    self.stage = Stage::Network;
                    self.terminal = Some(TerminalState::capture(saved_lflag));
                    SessionAction::OpenNetwork
                },
                SessionEvent::TerminalFailed => self.wind_down(
                    Outcome::Failed(SessionError::Terminal),
                ),
                SessionEvent::Interrupted => self.wind_down(Outcome::Interrupted),
                _ => SessionAction::Wait,
            },
            Stage::Network => match event {
                SessionEvent::Connected => {
                    self.socket_open = true;
                    if self.plan.local.is_shell() {
                        self.stage = Stage::Spawn;
                        SessionAction::SpawnShell
                    } else {
                        self.stage = Stage::Relay;
                        SessionAction::RunRelay
                    }
                },
                SessionEvent::HostUnresolved => self.wind_down(
                    Outcome::Failed(SessionError::Config(ConfigError::UnresolvableHost)),
                ),
                SessionEvent::NetworkFailed(cause) => {
                    let error = match self.plan.mode {
                        Mode::Listen => SessionError::Bind(cause),
                        Mode::Connect => SessionError::Connect(cause),
                    };
                    self.wind_down(Outcome::Failed(error))
                },
                SessionEvent::Interrupted => self.wind_down(Outcome::Interrupted),
                _ => SessionAction::Wait,
            },
            Stage::Spawn => match event {
                SessionEvent::Spawned => {
                    self.stage = Stage::Relay;
                    self.child_alive = true;
                    SessionAction::RunRelay
                },
                SessionEvent::SpawnFailed => self.wind_down(Outcome::Failed(SessionError::Spawn)),
                SessionEvent::Interrupted => self.wind_down(Outcome::Interrupted),
                _ => SessionAction::Wait,
            },
            Stage::Relay => match event {
                SessionEvent::RelayFinished(result) => self.wind_down(Outcome::from_relay(result)),
                SessionEvent::Interrupted => if self.plan.block_signals {
                    SessionAction::Wait
                } else {
                    self.wind_down(Outcome::Interrupted)
                },
                _ => SessionAction::Wait,
            },
            Stage::Closing(outcome) => match event {
                SessionEvent::Done => self.wind_down(outcome),
                _ => SessionAction::Wait,
            },
            Stage::Exited(outcome) => SessionAction::Exit { code: outcome.exit_code() },
        }
    }
}

impl SessionView {
    /// Raw mode has been entered exactly if the plan asks for it, and the
    /// terminal has not been given back yet.
    pub open spec fn engaged_as_planned(self) -> bool {
        match self.terminal {
            Some(t) => self.plan.raw_mode && !t.restored,
            None => !self.plan.raw_mode,
        }
    }

    /// What holds of every state that a session can reach: each stage holds
    /// what the stages before it acquired, and a session that has exited
    /// holds nothing.
    pub open spec fn coherent(self) -> bool {
        match self.stage {
            Stage::Terminal => self.plan.raw_mode && !self.socket_open && !self.child_alive
                && self.terminal is None,
            Stage::Network => !self.socket_open && !self.child_alive && self.engaged_as_planned(),
            Stage::Spawn => self.plan.local is Shell && self.socket_open && !self.child_alive
                && self.engaged_as_planned(),
            Stage::Relay => self.socket_open && (self.child_alive <==> self.plan.local is Shell)
                && self.engaged_as_planned(),
            Stage::Closing(_) => true,
            Stage::Exited(_) => !self.socket_open && !self.child_alive && flags_to_restore(self)
                is None,
        }
    }

    /// How often the terminal has been given back: once or never.
    pub open spec fn restores_done(self) -> nat {
        match self.terminal {
            Some(t) => if t.restored {
                1
            } else {
                0
            },
            None => 0,
        }
    }
}

/// The state of a session after a run of events, first event first.
pub open spec fn session_run(s: SessionView, events: Seq<SessionEvent>) -> SessionView
    decreases events.len(),
{
    if events.len() == 0 {
        s
    } else {
        session_run(session_step(s, events[0]).0, events.drop_first())
    }
}

/// The actions that a session asks for during a run of events, one for each
/// event.
pub open spec fn session_trace(s: SessionView, events: Seq<SessionEvent>) -> Seq<SessionAction>
    decreases events.len(),
{
    if events.len() == 0 {
        Seq::empty()
    } else {
        seq![session_step(s, events[0]).1] + session_trace(
            session_step(s, events[0]).0,
            events.drop_first(),
        )
    }
}

/// How many of the actions restore the terminal.
pub open spec fn restores(actions: Seq<SessionAction>) -> nat
    decreases actions.len(),
{
    if actions.len() == 0 {
        0
    } else {
        (if actions[0] is RestoreTerminal {
            1nat
        } else {
            0nat
        }) + restores(actions.drop_first())
    }
}

/// A step keeps a coherent state coherent, keeps the plan and the saved
/// flags, and restores the terminal only by the action that says so.
pub proof fn step_keeps_coherence(s: SessionView, e: SessionEvent)
    requires
        s.coherent(),
    ensures
        session_step(s, e).0.coherent(),
        session_step(s, e).0.plan == s.plan,
        s.terminal matches Some(t) ==> session_step(s, e).0.terminal matches Some(u)
            && u.saved_lflag == t.saved_lflag,
        session_step(s, e).0.restores_done() == s.restores_done() + (if session_step(s, e).1
            is RestoreTerminal {
            1nat
        } else {
            0nat
        }),
{
}

/// What is released is released in order: the spawned command is reaped
/// only after the socket is closed, the terminal is restored only after
/// both, and the session exits only when it holds nothing any more.
pub proof fn releases_come_in_order(s: SessionView, e: SessionEvent)
    requires
        s.coherent(),
    ensures
        ({
            let (next, action) = session_step(s, e);
            &&& action is ReapChild ==> !next.socket_open
            &&& action is RestoreTerminal ==> !next.socket_open && !next.child_alive
            &&& action is Exit ==> !next.socket_open && !next.child_alive && flags_to_restore(
                next,
            ) is None
            &&& action is OpenNetwork ==> (next.plan.raw_mode ==> next.terminal is Some)
        }),
{
}

/// Over any run from a coherent state, the number of restoring actions is
/// the number of restores that the state gained.
proof fn restores_are_counted(s: SessionView, events: Seq<SessionEvent>)
    requires
        s.coherent(),
    ensures
        session_run(s, events).coherent(),
        session_run(s, events).plan == s.plan,
        s.terminal is Some ==> session_run(s, events).terminal is Some,
        session_trace(s, events).len() == events.len(),
        restores(session_trace(s, events)) + s.restores_done() == session_run(
            s,
            events,
        ).restores_done(),
    decreases events.len(),
{
    if events.len() > 0 {
        let (next, action) = session_step(s, events[0]);
        let rest = events.drop_first();
        step_keeps_coherence(s, events[0]);
        restores_are_counted(next, rest);
        assert(session_trace(s, events).drop_first() =~= session_trace(next, rest));
    }
}

/// Once the terminal has been entered, no run changes the saved flags, and
/// every restoring action of the run carries them.
proof fn restores_carry_saved_flags(s: SessionView, events: Seq<SessionEvent>, i: int)
    requires
        s.coherent(),
        s.terminal is Some,
        0 <= i < events.len(),
        session_trace(s, events)[i] is RestoreTerminal,
    ensures
        session_trace(s, events)[i] == (SessionAction::RestoreTerminal {
            lflag: s.terminal->0.saved_lflag,
        }),
    decreases events.len(),
{
    let next = session_step(s, events[0]).0;
    let rest = events.drop_first();
    step_keeps_coherence(s, events[0]);
    if i > 0 {
        restores_are_counted(next, rest);
        restores_carry_saved_flags(next, rest, i - 1);
    }
}

/// The terminal is restored exactly once, whatever happens.
///
/// For every plan and every run of events from the start of its session: the
/// session asks at most once for the terminal to be restored; when the
/// session has exited it holds neither socket nor child, and it has asked for
/// the restore exactly once if raw mode was ever entered and never if not.
pub proof fn terminal_is_restored_exactly_once(plan: PlanView, events: Seq<SessionEvent>)
    ensures
        ({
            let start = session_start(plan).0;
            let end = session_run(start, events);
            let trace = session_trace(start, events);
            &&& start.coherent()
            &&& end.coherent()
            &&& restores(trace) <= 1
            &&& end.stage is Exited ==> !end.socket_open && !end.child_alive
            &&& end.stage is Exited ==> restores(trace) == if end.terminal is Some {
                1nat
            } else {
                0nat
            }
        }),
{
    restores_are_counted(session_start(plan).0, events);
}

/// The restore gives back what was saved.
///
/// Take any session that has entered raw mode and has not restored the
/// terminal yet. Whatever happens from there on, every restoring action
/// carries the flags that were saved on entry, there is at most one, and
/// there is exactly one once the session has exited.
pub proof fn restore_gives_back_saved_flags(s: SessionView, events: Seq<SessionEvent>)
    requires
        s.coherent(),
        flags_to_restore(s) is Some,
    ensures
        ({
            let trace = session_trace(s, events);
            &&& restores(trace) <= 1
            &&& session_run(s, events).stage is Exited ==> restores(trace) == 1
            &&& forall|i: int|
                0 <= i < trace.len() && #[trigger] trace[i] is RestoreTerminal ==> trace[i] == (
                SessionAction::RestoreTerminal { lflag: flags_to_restore(s)->0 })
        }),
{
    restores_are_counted(s, events);
    let trace = session_trace(s, events);
    assert forall|i: int| 0 <= i < trace.len() && #[trigger] trace[i] is RestoreTerminal implies
        trace[i] == (SessionAction::RestoreTerminal { lflag: flags_to_restore(s)->0 }) by {
        restores_carry_saved_flags(s, events, i);
    }
}

/// Flags that exclude each other end the session before it has begun:
/// nothing is asked for, neither of the terminal nor of the network.
pub proof fn conflicting_flags_begin_nothing(config: ConfigView)
    requires
        (config.interactive && config.local_interactive) || (config.block_signals
            && config.local_interactive),
    ensures
        session_begin(config) == Err::<(SessionView, SessionAction), Outcome>(
            Outcome::Failed(SessionError::Config(ConfigError::ConflictingFlags)),
        ),
{
}

/// A terminal that cannot be set up ends the session before any network
/// activity: the session exits at once, with the terminal's exit code.
pub proof fn terminal_failure_comes_before_the_network(plan: PlanView)
    requires
        plan.raw_mode,
    ensures
        session_start(plan).1 == SessionAction::EnterRawMode,
        session_step(session_start(plan).0, SessionEvent::TerminalFailed).1 == (
        SessionAction::Exit { code: crate::error::EXIT_TERMINAL }),
{
}

} // verus!
