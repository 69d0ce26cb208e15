//! What can go wrong in a session, how a session ends, and the exit code of
//! each ending.

use crate::relay::RelayResult;
use vstd::prelude::*;

verus! {

/// One end of a session: the local endpoint or the remote peer.
#[derive(Debug, Clone, Copy, PartialEq, Eq, Structural)]
pub enum Side {
    Local,
    Remote,
}

/// A configuration that the session engine refuses before it touches a
/// socket or the terminal.
#[derive(Debug, Clone, Copy, PartialEq, Eq, Structural)]
pub enum ConfigError {
    /// Two flags that exclude each other are both set.
    ConflictingFlags,
    /// More than two host tokens were given.
    TooManyHostTokens,
    /// Connect mode without any host token: there is nothing to dial.
    MissingDestination,
    /// The port token is not a decimal number in `0..=65535`.
    InvalidPort,
    /// The host token is empty, or its name did not resolve to an address.
    UnresolvableHost,
}

/// Why a socket could not be bound or connected.
#[derive(Debug, Clone, Copy, PartialEq, Eq, Structural)]
pub enum NetworkCause {
    Refused,
    TimedOut,
    Unreachable,
    AddressInUse,
    /// The connect call itself reported that the name did not resolve.
    NameNotFound,
    Other,
}

/// What failed in a relay.
#[derive(Debug, Clone, Copy, PartialEq, Eq, Structural)]
pub enum IoCause {
    /// A read returned an error.
    ReadFailed,
    /// A write returned an error.
    WriteFailed,
    /// A write took none of the bytes it was offered.
    WriteStalled,
}

/// Every failure that ends a session. None of them is retried.
#[derive(Debug, Clone, Copy, PartialEq, Eq, Structural)]
pub enum SessionError {
    Config(ConfigError),
    /// Dialing the peer failed.
    Connect(NetworkCause),
    /// Binding the listening address, or accepting on it, failed.
    Bind(NetworkCause),
    /// The terminal could not be opened, queried or set.
    Terminal,
    /// The local command could not be started.
    Spawn,
    /// A read or write failed in the middle of the relay.
    RelayIo { side: Side, cause: IoCause },
}

/// How a session ended.
#[derive(Debug, Clone, Copy, PartialEq, Eq, Structural)]
pub enum Outcome {
    /// One side closed its stream; the session did its work.
    Closed { by: Side },
    /// A signal that was not held back ended the session.
    Interrupted,
    Failed(SessionError),
}

/// The exit code of a clean close.
pub const EXIT_CLOSED: u8 = 0;

/// The exit code of a failed read or write during the relay.
pub const EXIT_RELAY: u8 = 1;

/// The exit code of a refused configuration.
pub const EXIT_CONFIG: u8 = 2;

/// The exit code of a failed bind, accept or connect.
pub const EXIT_NETWORK: u8 = 3;

/// The exit code of a failed terminal setup.
pub const EXIT_TERMINAL: u8 = 4;

/// The exit code of a command that could not be spawned.
pub const EXIT_SPAWN: u8 = 5;

/// The exit code of a session that a signal ended.
pub const EXIT_INTERRUPTED: u8 = 130;

/// The outcome of a session whose relay ended with `result`.
pub open spec fn outcome_of_relay(result: RelayResult) -> Outcome {
    match result {
        RelayResult::Closed { by } => Outcome::Closed { by },
        RelayResult::IoError { side, cause } => Outcome::Failed(
            SessionError::RelayIo { side, cause },
        ),
        RelayResult::Interrupted => Outcome::Interrupted,
    }
}

/// The exit code of each outcome.
pub open spec fn exit_code_spec(outcome: Outcome) -> u8 {
    match outcome {
        Outcome::Closed { .. } => EXIT_CLOSED,
        Outcome::Interrupted => EXIT_INTERRUPTED,
        Outcome::Failed(SessionError::Config(_)) => EXIT_CONFIG,
        Outcome::Failed(SessionError::Connect(_)) => EXIT_NETWORK,
        Outcome::Failed(SessionError::Bind(_)) => EXIT_NETWORK,
        Outcome::Failed(SessionError::Terminal) => EXIT_TERMINAL,
        Outcome::Failed(SessionError::Spawn) => EXIT_SPAWN,
        Outcome::Failed(SessionError::RelayIo { .. }) => EXIT_RELAY,
    }
}

impl Outcome {
    /// The outcome of a session whose relay ended with `result`.
    pub fn from_relay(result: RelayResult) -> (outcome: Outcome)
        ensures
            outcome == outcome_of_relay(result),
    {
        match result {
            RelayResult::Closed { by } => Outcome::Closed { by },
            RelayResult::IoError { side, cause } => Outcome::Failed(
                SessionError::RelayIo { side, cause },
            ),
            RelayResult::Interrupted => Outcome::Interrupted,
        }
    }

    /// The code that the process exits with.
    pub fn exit_code(&self) -> (code: u8)
        ensures
            code == exit_code_spec(*self),
    {
        match self {
            Outcome::Closed { .. } => EXIT_CLOSED,
            Outcome::Interrupted => EXIT_INTERRUPTED,
            Outcome::Failed(error) => match error {
                SessionError::Config(_) => EXIT_CONFIG,
                SessionError::Connect(_) => EXIT_NETWORK,
                SessionError::Bind(_) => EXIT_NETWORK,
                SessionError::Terminal => EXIT_TERMINAL,
                SessionError::Spawn => EXIT_SPAWN,
                SessionError::RelayIo { .. } => EXIT_RELAY,
            },
        }
    }
}

impl SessionError {
    /// One line that names the phase that failed and, for the relay, the
    /// side it failed on.
    pub open spec fn diagnostic_spec(self) -> Seq<char> {
        match self {
            SessionError::Config(_) => "invalid configuration"@,
            SessionError::Connect(_) => "could not connect to the peer"@,
            SessionError::Bind(_) => "could not bind the listening address"@,
            SessionError::Terminal => "could not set up the terminal"@,
            SessionError::Spawn => "could not spawn the command"@,
            SessionError::RelayIo { side: Side::Local, .. } => "relay failed on the local side"@,
            SessionError::RelayIo { side: Side::Remote, .. } => "relay failed on the remote side"@,
        }
    }

    /// The line to show the user for this failure.
    pub fn diagnostic(&self) -> (line: String)
        ensures
            line@ == self.diagnostic_spec(),
    {
        match self {
            SessionError::Config(_) => "invalid configuration".to_owned(),
            SessionError::Connect(_) => "could not connect to the peer".to_owned(),
            SessionError::Bind(_) => "could not bind the listening address".to_owned(),
            SessionError::Terminal => "could not set up the terminal".to_owned(),
            SessionError::Spawn => "could not spawn the command".to_owned(),
            SessionError::RelayIo { side, .. } => match side {
                Side::Local => "relay failed on the local side".to_owned(),
                Side::Remote => "relay failed on the remote side".to_owned(),
            },
        }
    }
}

/// Every diagnostic is a single line, and not an empty one.
pub proof fn diagnostics_are_single_lines(error: SessionError)
    ensures
        error.diagnostic_spec().len() > 0,
        !error.diagnostic_spec().contains('\n'),
{
    reveal_strlit("invalid configuration");
    reveal_strlit("could not connect to the peer");
    reveal_strlit("could not bind the listening address");
    reveal_strlit("could not set up the terminal");
    reveal_strlit("could not spawn the command");
    reveal_strlit("relay failed on the local side");
    reveal_strlit("relay failed on the remote side");
}

/// Whether two failures belong to the same phase of a session: bind and
/// connect failures are one phase, the network.
pub open spec fn same_phase(a: SessionError, b: SessionError) -> bool {
    ||| a is Config && b is Config
    ||| (a is Connect || a is Bind) && (b is Connect || b is Bind)
    ||| a is Terminal && b is Terminal
    ||| a is Spawn && b is Spawn
    ||| a is RelayIo && b is RelayIo
}

/// The exit code is zero for a clean close and for nothing else, and two
/// failures share a code exactly when they belong to the same phase.
pub proof fn exit_codes_tell_outcomes_apart(a: Outcome, b: Outcome)
    ensures
        exit_code_spec(a) == 0 <==> a is Closed,
        a is Interrupted ==> (exit_code_spec(a) == exit_code_spec(b) <==> b is Interrupted),
        a matches Outcome::Failed(x) ==> (b matches Outcome::Failed(y) ==> (exit_code_spec(a)
            == exit_code_spec(b) <==> same_phase(x, y))),
{
}

} // verus!
