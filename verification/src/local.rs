//! What the socket is wired to on this side, and the plan of a session.

use crate::endpoint::{resolve, resolve_spec, Endpoint, EndpointView};
use crate::error::ConfigError;
use crate::input::{ConfigView, Mode, SessionConfig};
use vstd::prelude::*;

verus! {

/// The local end of the relay, chosen once when the session starts.
#[derive(Debug, Clone, PartialEq, Eq)]
pub enum LocalEndpoint {
    /// A spawned command whose standard input, output and error are the socket.
    Shell(String),
    /// The process's own standard input and output, on a terminal that
    /// somebody else manages: no mode switch.
    RawStdio,
    /// The controlling terminal, in raw mode.
    Terminal,
    /// The process's own standard input and output as they are.
    PlainStdio,
}

/// The local end of the relay as a mathematical value.
pub enum LocalEndpointView {
    Shell(Seq<char>),
    RawStdio,
    Terminal,
    PlainStdio,
}

impl View for LocalEndpoint {
    type V = LocalEndpointView;

    open spec fn view(&self) -> LocalEndpointView {
        match self {
            LocalEndpoint::Shell(command) => LocalEndpointView::Shell(command@),
            LocalEndpoint::RawStdio => LocalEndpointView::RawStdio,
            LocalEndpoint::Terminal => LocalEndpointView::Terminal,
            LocalEndpoint::PlainStdio => LocalEndpointView::PlainStdio,
        }
    }
}

impl LocalEndpoint {
    /// Whether the local end is a spawned command.
    pub fn is_shell(&self) -> (shell: bool)
        ensures
            shell == (self@ is Shell),
    {
        match self {
            LocalEndpoint::Shell(_) => true,
            _ => false,
        }
    }
}

/// The decision table of the local endpoint: a command to spawn wins over
/// every flag, then `local_interactive`, then `interactive`.
pub open spec fn select_local_spec(config: ConfigView) -> LocalEndpointView {
    match config.exec_command {
        Some(command) => LocalEndpointView::Shell(command),
        None => if config.local_interactive {
            LocalEndpointView::RawStdio
        } else if config.interactive {
            LocalEndpointView::Terminal
        } else {
            LocalEndpointView::PlainStdio
        },
    }
}

/// Chooses what the socket is wired to.
pub fn select_local_endpoint(config: &SessionConfig) -> (local: LocalEndpoint)
    ensures
        local@ == select_local_spec(config@),
{
    match &config.exec_command {
        Some(command) => LocalEndpoint::Shell(command.clone()),
        None => if config.local_interactive {
            LocalEndpoint::RawStdio
        } else if config.interactive {
            LocalEndpoint::Terminal
        } else {
            LocalEndpoint::PlainStdio
        },
    }
}

/// Raw mode is engaged exactly for an interactive session, whether the
/// socket is wired to the terminal or to a spawned command.
pub open spec fn raw_mode_spec(config: ConfigView) -> bool {
    config.interactive && !config.local_interactive
}

/// Interactive signals are held back only when that was asked for and the
/// terminal is in raw mode.
pub open spec fn signals_blocked_spec(config: ConfigView) -> bool {
    config.block_signals && raw_mode_spec(config)
}

/// Whether the session switches the terminal to raw mode.
pub fn engages_raw_mode(config: &SessionConfig) -> (raw: bool)
    ensures
        raw == raw_mode_spec(config@),
{
    config.interactive && !config.local_interactive
}

/// Whether the session holds back interactive signals during the relay.
pub fn blocks_signals(config: &SessionConfig) -> (blocked: bool)
    ensures
        blocked == signals_blocked_spec(config@),
{
    config.block_signals && engages_raw_mode(config)
}

/// Everything that is decided before the session touches the outside world.
#[derive(Debug, Clone, PartialEq, Eq)]
pub struct SessionPlan {
    pub mode: Mode,
    pub endpoint: Endpoint,
    pub local: LocalEndpoint,
    pub raw_mode: bool,
    pub block_signals: bool,
}

/// A session plan as a mathematical value.
pub struct PlanView {
    pub mode: Mode,
    pub endpoint: EndpointView,
    pub local: LocalEndpointView,
    pub raw_mode: bool,
    pub block_signals: bool,
}

impl View for SessionPlan {
    type V = PlanView;

    open spec fn view(&self) -> PlanView {
        PlanView {
            mode: self.mode,
            endpoint: self.endpoint@,
            local: self.local@,
            raw_mode: self.raw_mode,
            block_signals: self.block_signals,
        }
    }
}

/// The plan of a configuration, or the reason to refuse it. The flags and
/// the number of tokens are looked at before the tokens are read.
pub open spec fn plan_spec(config: ConfigView) -> Result<PlanView, ConfigError> {
    match config.defect() {
        Some(e) => Err(e),
        None => match resolve_spec(config.mode, config.host_tokens) {
            Err(e) => Err(e),
            Ok(endpoint) => Ok(
                PlanView {
                    mode: config.mode,
                    endpoint,
                    local: select_local_spec(config),
                    raw_mode: raw_mode_spec(config),
                    block_signals: signals_blocked_spec(config),
                },
            ),
        },
    }
}

/// The view of a planner's answer.
pub open spec fn planned_view(planned: Result<SessionPlan, ConfigError>) -> Result<
    PlanView,
    ConfigError,
> {
    match planned {
        Ok(plan) => Ok(plan@),
        Err(e) => Err(e),
    }
}

/// Validates a configuration and decides the whole session from it.
pub fn plan_session(config: &SessionConfig) -> (planned: Result<SessionPlan, ConfigError>)
    ensures
        planned_view(planned) == plan_spec(config@),
{
    match config.validate() {
        Err(e) => Err(e),
        Ok(()) => match resolve(config.mode, &config.host_tokens) {
            Err(e) => Err(e),
            Ok(endpoint) => Ok(
                SessionPlan {
                    mode: config.mode,
                    endpoint,
                    local: select_local_endpoint(config),
                    raw_mode: engages_raw_mode(config),
                    block_signals: blocks_signals(config),
                },
            ),
        },
    }
}

/// A configuration in which two flags exclude each other gets no plan,
/// whatever its host tokens are.
pub proof fn conflicting_flags_get_no_plan(config: ConfigView)
    requires
        (config.interactive && config.local_interactive) || (config.block_signals
            && config.local_interactive),
    ensures
        plan_spec(config) == Err::<PlanView, ConfigError>(ConfigError::ConflictingFlags),
{
}

/// A configuration gets a plan exactly when it is valid and its tokens
/// denote an endpoint.
pub proof fn plan_exists_exactly_when(config: ConfigView)
    ensures
        plan_spec(config) is Ok <==> config.valid() && resolve_spec(
            config.mode,
            config.host_tokens,
        ) is Ok,
{
}

/// A plan never asks for raw mode on a terminal that is managed elsewhere,
/// nor for blocked signals without raw mode.
pub proof fn plan_respects_flags(config: ConfigView)
    requires
        plan_spec(config) is Ok,
    ensures
        config.valid(),
        plan_spec(config)->Ok_0.raw_mode ==> config.interactive,
        plan_spec(config)->Ok_0.block_signals ==> plan_spec(config)->Ok_0.raw_mode,
        plan_spec(config)->Ok_0.local is Terminal ==> plan_spec(config)->Ok_0.raw_mode,
        plan_spec(config)->Ok_0.local is RawStdio ==> !plan_spec(config)->Ok_0.raw_mode,
        plan_spec(config)->Ok_0.local is PlainStdio ==> !plan_spec(config)->Ok_0.raw_mode,
{
}

} // verus!
