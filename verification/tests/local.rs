use tawqa::endpoint::{Endpoint, Host};
use tawqa::error::ConfigError;
use tawqa::input::{Mode, SessionConfig};
use tawqa::local::{blocks_signals, engages_raw_mode, plan_session, select_local_endpoint, LocalEndpoint, SessionPlan};

fn config(exec_command: Option<&str>, local_interactive: bool, interactive: bool, block_signals: bool) -> SessionConfig {
    SessionConfig {
        mode: Mode::Listen,
        host_tokens: Vec::new(),
        interactive,
        local_interactive,
        block_signals,
        exec_command: exec_command.map(|c| c.to_string()),
    }
}

#[test]
fn a_command_wins_over_every_flag() {
    let shell = LocalEndpoint::Shell("/bin/sh".to_string());
    assert_eq!(select_local_endpoint(&config(Some("/bin/sh"), false, false, false)), shell);
    assert_eq!(select_local_endpoint(&config(Some("/bin/sh"), true, false, false)), shell);
    assert_eq!(select_local_endpoint(&config(Some("/bin/sh"), false, true, false)), shell);
    assert_eq!(select_local_endpoint(&config(Some("/bin/sh"), false, true, true)), shell);
    assert!(shell.is_shell());
}

#[test]
fn local_interactive_attaches_stdio_without_mode_switch() {
    let c = config(None, true, false, false);
    assert_eq!(select_local_endpoint(&c), LocalEndpoint::RawStdio);
    assert!(!engages_raw_mode(&c));
    assert!(!LocalEndpoint::RawStdio.is_shell());
}

#[test]
fn interactive_attaches_the_raw_terminal() {
    let c = config(None, false, true, false);
    assert_eq!(select_local_endpoint(&c), LocalEndpoint::Terminal);
    assert!(engages_raw_mode(&c));
}

#[test]
fn no_flag_attaches_plain_stdio() {
    let c = config(None, false, false, false);
    assert_eq!(select_local_endpoint(&c), LocalEndpoint::PlainStdio);
    assert!(!engages_raw_mode(&c));
}

#[test]
fn signals_are_blocked_only_in_raw_mode() {
    assert!(blocks_signals(&config(None, false, true, true)));
    assert!(blocks_signals(&config(Some("/bin/sh"), false, true, true)));
    assert!(!blocks_signals(&config(None, false, false, true)));
    assert!(!blocks_signals(&config(None, false, true, false)));
    assert!(!blocks_signals(&config(Some("/bin/sh"), false, false, true)));
}

#[test]
fn plan_of_a_plain_listener() {
    let plan = plan_session(&config(None, false, false, false));
    assert_eq!(
        plan,
        Ok(SessionPlan {
            mode: Mode::Listen,
            endpoint: Endpoint { host: Host::Any, port: 4444 },
            local: LocalEndpoint::PlainStdio,
            raw_mode: false,
            block_signals: false,
        })
    );
}

#[test]
fn plan_of_an_interactive_connect_with_shell() {
    let c = SessionConfig {
        mode: Mode::Connect,
        host_tokens: vec!["10.0.0.1".to_string(), "9000".to_string()],
        interactive: true,
        local_interactive: false,
        block_signals: true,
        exec_command: Some("/bin/bash -i".to_string()),
    };
    assert_eq!(
        plan_session(&c),
        Ok(SessionPlan {
            mode: Mode::Connect,
            endpoint: Endpoint { host: Host::Name("10.0.0.1".to_string()), port: 9000 },
            local: LocalEndpoint::Shell("/bin/bash -i".to_string()),
            raw_mode: true,
            block_signals: true,
        })
    );
}

#[test]
fn conflicting_flags_get_no_plan_whatever_the_tokens() {
    let mut c = config(None, true, true, false);
    assert_eq!(plan_session(&c), Err(ConfigError::ConflictingFlags));
    c.host_tokens = vec!["abc".to_string()];
    assert_eq!(plan_session(&c), Err(ConfigError::ConflictingFlags));
    let mut d = config(Some("/bin/sh"), true, false, true);
    assert_eq!(plan_session(&d), Err(ConfigError::ConflictingFlags));
    d.host_tokens = vec!["a".to_string(), "b".to_string(), "c".to_string()];
    assert_eq!(plan_session(&d), Err(ConfigError::ConflictingFlags));
}

#[test]
fn bad_tokens_get_no_plan() {
    let mut c = config(None, false, false, false);
    c.host_tokens = vec!["abc".to_string()];
    assert_eq!(plan_session(&c), Err(ConfigError::InvalidPort));
    c.host_tokens = vec!["a".to_string(), "1".to_string(), "2".to_string()];
    assert_eq!(plan_session(&c), Err(ConfigError::TooManyHostTokens));
    c.mode = Mode::Connect;
    c.host_tokens = Vec::new();
    assert_eq!(plan_session(&c), Err(ConfigError::MissingDestination));
}
