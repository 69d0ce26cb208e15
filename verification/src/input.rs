//! The shape of the command line, and the session configuration it stands for.

use crate::error::ConfigError;
use vstd::prelude::*;

verus! {

/// The two subcommands and their arguments.
#[derive(Debug, Clone, PartialEq, Eq)]
pub enum Command {
    Listen {
        interactive: bool,
        block_signals: bool,
        local_interactive: bool,
        exec_command: Option<String>,
        host: Vec<String>,
    },
    Connect { shell: String, host: Vec<String> },
}

/// The parsed command line.
#[derive(Debug, Clone, PartialEq, Eq)]
pub struct Opts {
    pub command: Command,
}

/// Whether the session waits for a peer or dials one.
#[derive(Debug, Clone, Copy, PartialEq, Eq, Structural)]
pub enum Mode {
    Listen,
    Connect,
}

/// Everything the session engine is told about one session.
#[derive(Debug, Clone, PartialEq, Eq)]
pub struct SessionConfig {
    pub mode: Mode,
    /// Nothing, a port, or a host and a port.
    pub host_tokens: Vec<String>,
    pub interactive: bool,
    pub local_interactive: bool,
    pub block_signals: bool,
    /// The command to spawn and wire to the socket, if any.
    pub exec_command: Option<String>,
}

/// A session configuration as a mathematical value.
pub struct ConfigView {
    pub mode: Mode,
    pub host_tokens: Seq<Seq<char>>,
    pub interactive: bool,
    pub local_interactive: bool,
    pub block_signals: bool,
    pub exec_command: Option<Seq<char>>,
}

/// The characters of each token, in order.
pub open spec fn tokens_view(tokens: Seq<String>) -> Seq<Seq<char>> {
    Seq::new(tokens.len(), |i: int| tokens[i]@)
}

/// The characters of an optional string.
pub open spec fn text_view(text: Option<String>) -> Option<Seq<char>> {
    match text {
        Some(s) => Some(s@),
        None => None,
    }
}

impl View for SessionConfig {
    type V = ConfigView;

    open spec fn view(&self) -> ConfigView {
        ConfigView {
            mode: self.mode,
            host_tokens: tokens_view(self.host_tokens@),
            interactive: self.interactive,
            local_interactive: self.local_interactive,
            block_signals: self.block_signals,
            exec_command: text_view(self.exec_command),
        }
    }
}

impl ConfigView {
    /// The reason to refuse this configuration, if there is one: a pair of
    /// flags that exclude each other comes before a surplus of host tokens.
    pub open spec fn defect(self) -> Option<ConfigError> {
        if self.interactive && self.local_interactive {
            Some(ConfigError::ConflictingFlags)
        } else if self.block_signals && self.local_interactive {
            Some(ConfigError::ConflictingFlags)
        } else if self.host_tokens.len() > 2 {
            Some(ConfigError::TooManyHostTokens)
        } else {
            None
        }
    }

    /// `local_interactive` excludes both `interactive` and `block_signals`,
    /// and there are at most two host tokens.
    pub open spec fn valid(self) -> bool {
        &&& !(self.interactive && self.local_interactive)
        &&& !(self.block_signals && self.local_interactive)
        &&& self.host_tokens.len() <= 2
    }
}

impl Command {
    /// The session configuration that this subcommand asks for.
    ///
    /// `connect` has no flags: its shell command is the command to spawn.
    pub open spec fn config_view(self) -> ConfigView {
        match self {
            Command::Listen { interactive, block_signals, local_interactive, exec_command, host } => {
                ConfigView {
                    mode: Mode::Listen,
                    host_tokens: tokens_view(host@),
                    interactive,
                    local_interactive,
                    block_signals,
                    exec_command: text_view(exec_command),
                }
            },
            Command::Connect { shell, host } => ConfigView {
                mode: Mode::Connect,
                host_tokens: tokens_view(host@),
                interactive: false,
                local_interactive: false,
                block_signals: false,
                exec_command: Some(shell@),
            },
        }
    }

    /// Turns the subcommand into the configuration of its session.
    pub fn into_config(self) -> (config: SessionConfig)
        ensures
            config@ == self.config_view(),
    {
        match self {
            Command::Listen { interactive, block_signals, local_interactive, exec_command, host } => {
                SessionConfig {
                    mode: Mode::Listen,
                    host_tokens: host,
                    interactive,
                    local_interactive,
                    block_signals,
                    exec_command,
                }
            },
            Command::Connect { shell, host } => SessionConfig {
                mode: Mode::Connect,
                host_tokens: host,
                interactive: false,
                local_interactive: false,
                block_signals: false,
                exec_command: Some(shell),
            },
        }
    }
}

impl Opts {
    /// The configuration of the session that the command line asks for.
    pub fn into_config(self) -> (config: SessionConfig)
        ensures
            config@ == self.command.config_view(),
    {
        self.command.into_config()
    }
}

impl SessionConfig {
    /// Validates the configuration before anything else is done with it.
    pub fn validate(&self) -> (verdict: Result<(), ConfigError>)
        ensures
            verdict == match self@.defect() {
                Some(e) => Err::<(), ConfigError>(e),
                None => Ok(()),
            },
    {
        if self.interactive && self.local_interactive {
            Err(ConfigError::ConflictingFlags)
        } else if self.block_signals && self.local_interactive {
            Err(ConfigError::ConflictingFlags)
        } else if self.host_tokens.len() > 2 {
            Err(ConfigError::TooManyHostTokens)
        } else {
            Ok(())
        }
    }
}

/// A configuration has no defect exactly when it is valid, and a pair of
/// flags that exclude each other is always refused as such.
pub proof fn defect_iff_invalid(config: ConfigView)
    ensures
        config.defect() is None <==> config.valid(),
        (config.interactive && config.local_interactive) || (config.block_signals
            && config.local_interactive) ==> config.defect() == Some(
            ConfigError::ConflictingFlags,
        ),
{
}

} // verus!
