//! From host tokens to the address to bind or to dial.

use crate::error::ConfigError;
use crate::input::{tokens_view, Mode};
use vstd::prelude::*;

verus! {

/// The port that `listen` binds when no host token is given.
pub const DEFAULT_PORT: u16 = 4444;

/// After how many seconds `connect` gives up dialing.
pub const CONNECT_TIMEOUT_SECS: u64 = 10;

/// The host part of an endpoint.
#[derive(Debug, Clone, PartialEq, Eq)]
pub enum Host {
    /// Every local interface, `0.0.0.0`: where `listen` binds unless told otherwise.
    Any,
    /// This machine, `127.0.0.1`: where `connect` dials when only a port is given.
    Loopback,
    /// A host name or address as it was typed.
    Name(String),
}

/// The host part of an endpoint as a mathematical value.
pub enum HostView {
    Any,
    Loopback,
    Name(Seq<char>),
}

/// What to bind (in listen mode) or to dial (in connect mode).
#[derive(Debug, Clone, PartialEq, Eq)]
pub struct Endpoint {
    pub host: Host,
    pub port: u16,
}

/// An endpoint as a mathematical value.
pub struct EndpointView {
    pub host: HostView,
    pub port: u16,
}

impl View for Host {
    type V = HostView;

    open spec fn view(&self) -> HostView {
        match self {
            Host::Any => HostView::Any,
            Host::Loopback => HostView::Loopback,
            Host::Name(name) => HostView::Name(name@),
        }
    }
}

impl View for Endpoint {
    type V = EndpointView;

    open spec fn view(&self) -> EndpointView {
        EndpointView { host: self.host@, port: self.port }
    }
}

impl HostView {
    /// The text to hand to the resolver for this host.
    pub open spec fn address(self) -> Seq<char> {
        match self {
            HostView::Any => "0.0.0.0"@,
            HostView::Loopback => "127.0.0.1"@,
            HostView::Name(name) => name,
        }
    }
}

impl Host {
    /// The text to hand to the resolver for this host.
    pub fn address(&self) -> (text: String)
        ensures
            text@ == self@.address(),
    {
        match self {
            Host::Any => "0.0.0.0".to_owned(),
            Host::Loopback => "127.0.0.1".to_owned(),
            Host::Name(name) => name.clone(),
        }
    }
}

/// Whether `c` is one of the ten ASCII digits.
pub open spec fn is_digit(c: char) -> bool {
    '0' <= c && c <= '9'
}

/// Whether every character of `s` is an ASCII digit.
pub open spec fn all_digits(s: Seq<char>) -> bool {
    forall|i: int| 0 <= i < s.len() ==> is_digit(#[trigger] s[i])
}

/// The number that the decimal digits of `s` denote; 0 for the empty string.
pub open spec fn decimal_value(s: Seq<char>) -> nat
    decreases s.len(),
{
    if s.len() == 0 {
        0
    } else {
        (10 * decimal_value(s.drop_last()) + (s.last() as int - '0' as int)) as nat
    }
}

/// The port that a token denotes: one or more ASCII digits, leading zeros
/// allowed, with a value of at most 65535. Any other token denotes none.
pub open spec fn port_of(token: Seq<char>) -> Option<u16> {
    if token.len() > 0 && all_digits(token) && decimal_value(token) <= 65535 {
        Some(decimal_value(token) as u16)
    } else {
        None
    }
}

/// A string of digits denotes at least what any prefix of it denotes.
proof fn decimal_value_grows(s: Seq<char>, n: int)
    requires
        all_digits(s),
        0 <= n <= s.len(),
    ensures
        decimal_value(s.take(n)) <= decimal_value(s),
    decreases s.len(),
{
    if n == s.len() {
        assert(s.take(n) =~= s);
    } else {
        let shorter = s.drop_last();
        assert(shorter.take(n) =~= s.take(n));
        decimal_value_grows(shorter, n);
    }
}

/// Reads a port number from a token.
pub fn parse_port(token: &str) -> (port: Option<u16>)
    ensures
        port == port_of(token@),
{
    if !token.is_ascii() {
        return None;
    }
    let n = token.unicode_len();
    if n == 0 {
        return None;
    }
    let mut value: u32 = 0;
    let mut i: usize = 0;
    while i < n
        invariant
            i <= n,
            n == token@.len(),
            token.is_ascii(),
            all_digits(token@.take(i as int)),
            value == decimal_value(token@.take(i as int)),
            value <= 65535,
        decreases n - i,
    {
        let b = token.get_ascii(i);
        let ghost longer = token@.take(i + 1);
        assert(longer.drop_last() =~= token@.take(i as int));
        if b < 48 || b > 57 {
            return None;
        }
        assert(all_digits(longer)) by {
            assert forall|j: int| 0 <= j < longer.len() implies is_digit(#[trigger] longer[j]) by {
                if j < i {
                    assert(longer[j] == token@.take(i as int)[j]);
                }
            }
        }
        value = value * 10 + (b - 48) as u32;
        if value > 65535 {
            proof {
                if all_digits(token@) {
                    decimal_value_grows(token@, i + 1);
                }
            }
            return None;
        }
        i += 1;
    }
    assert(token@.take(n as int) =~= token@);
    Some(value as u16)
}

/// The endpoint that the host tokens denote in a mode.
///
/// No token: `listen` binds every interface on the default port, `connect`
/// has nothing to dial. One token is a port: `listen` binds it on every
/// interface, `connect` dials it on this machine. Two tokens are a host and a
/// port in both modes.
pub open spec fn resolve_spec(mode: Mode, tokens: Seq<Seq<char>>) -> Result<
    EndpointView,
    ConfigError,
> {
    if tokens.len() == 0 {
        match mode {
            Mode::Listen => Ok(EndpointView { host: HostView::Any, port: DEFAULT_PORT }),
            Mode::Connect => Err(ConfigError::MissingDestination),
        }
    } else if tokens.len() == 1 {
        match port_of(tokens[0]) {
            Some(port) => Ok(
                EndpointView {
                    host: match mode {
                        Mode::Listen => HostView::Any,
                        Mode::Connect => HostView::Loopback,
                    },
                    port,
                },
            ),
            None => Err(ConfigError::InvalidPort),
        }
    } else if tokens.len() == 2 {
        if tokens[0].len() == 0 {
            Err(ConfigError::UnresolvableHost)
        } else {
            match port_of(tokens[1]) {
                Some(port) => Ok(EndpointView { host: HostView::Name(tokens[0]), port }),
                None => Err(ConfigError::InvalidPort),
            }
        }
    } else {
        Err(ConfigError::TooManyHostTokens)
    }
}

/// The tokens denote an endpoint exactly in these cases: none at all in
/// listen mode, a port alone, or a host that is not empty followed by a port.
pub proof fn resolve_succeeds_exactly_when(mode: Mode, tokens: Seq<Seq<char>>)
    ensures
        resolve_spec(mode, tokens) is Ok <==> {
            ||| tokens.len() == 0 && mode == Mode::Listen
            ||| tokens.len() == 1 && port_of(tokens[0]) is Some
            ||| tokens.len() == 2 && tokens[0].len() > 0 && port_of(tokens[1]) is Some
        },
{
}

/// The view of a resolver's answer.
pub open spec fn resolved_view(resolved: Result<Endpoint, ConfigError>) -> Result<
    EndpointView,
    ConfigError,
> {
    match resolved {
        Ok(endpoint) => Ok(endpoint@),
        Err(e) => Err(e),
    }
}

/// Turns the host tokens into the address to bind or to dial.
pub fn resolve(mode: Mode, host_tokens: &Vec<String>) -> (resolved: Result<Endpoint, ConfigError>)
    ensures
        resolved_view(resolved) == resolve_spec(mode, tokens_view(host_tokens@)),
{
    let count = host_tokens.len();
    if count == 0 {
        match mode {
            Mode::Listen => Ok(Endpoint { host: Host::Any, port: DEFAULT_PORT }),
            Mode::Connect => Err(ConfigError::MissingDestination),
        }
    } else if count == 1 {
        match parse_port(host_tokens[0].as_str()) {
            Some(port) => {
                let host = match mode {
                    Mode::Listen => Host::Any,
                    Mode::Connect => Host::Loopback,
                };
                Ok(Endpoint { host, port })
            },
            None => Err(ConfigError::InvalidPort),
        }
    } else if count == 2 {
        if host_tokens[0].as_str().unicode_len() == 0 {
            Err(ConfigError::UnresolvableHost)
        } else {
            match parse_port(host_tokens[1].as_str()) {
                Some(port) => Ok(Endpoint { host: Host::Name(host_tokens[0].clone()), port }),
                None => Err(ConfigError::InvalidPort),
            }
        }
    } else {
        Err(ConfigError::TooManyHostTokens)
    }
}

} // verus!
