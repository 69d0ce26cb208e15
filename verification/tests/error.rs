use tawqa::error::{
    ConfigError, IoCause, NetworkCause, Outcome, SessionError, Side, EXIT_CLOSED, EXIT_CONFIG, EXIT_INTERRUPTED,
    EXIT_NETWORK, EXIT_RELAY, EXIT_SPAWN, EXIT_TERMINAL,
};
use tawqa::relay::RelayResult;

fn every_failure() -> Vec<SessionError> {
    vec![
        SessionError::Config(ConfigError::ConflictingFlags),
        SessionError::Config(ConfigError::TooManyHostTokens),
        SessionError::Config(ConfigError::MissingDestination),
        SessionError::Config(ConfigError::InvalidPort),
        SessionError::Config(ConfigError::UnresolvableHost),
        SessionError::Connect(NetworkCause::Refused),
        SessionError::Connect(NetworkCause::TimedOut),
        SessionError::Connect(NetworkCause::Unreachable),
        SessionError::Connect(NetworkCause::NameNotFound),
        SessionError::Bind(NetworkCause::AddressInUse),
        SessionError::Bind(NetworkCause::Other),
        SessionError::Terminal,
        SessionError::Spawn,
        SessionError::RelayIo { side: Side::Local, cause: IoCause::ReadFailed },
        SessionError::RelayIo { side: Side::Remote, cause: IoCause::WriteFailed },
        SessionError::RelayIo { side: Side::Remote, cause: IoCause::WriteStalled },
    ]
}

#[test]
fn exit_codes_are_the_documented_ones() {
    assert_eq!(EXIT_CLOSED, 0);
    assert_eq!(EXIT_RELAY, 1);
    assert_eq!(EXIT_CONFIG, 2);
    assert_eq!(EXIT_NETWORK, 3);
    assert_eq!(EXIT_TERMINAL, 4);
    assert_eq!(EXIT_SPAWN, 5);
    assert_eq!(EXIT_INTERRUPTED, 130);
}

#[test]
fn a_clean_close_exits_with_zero_from_either_side() {
    assert_eq!(Outcome::Closed { by: Side::Local }.exit_code(), 0);
    assert_eq!(Outcome::Closed { by: Side::Remote }.exit_code(), 0);
}

#[test]
fn each_failure_exits_with_the_code_of_its_phase() {
    assert_eq!(Outcome::Failed(SessionError::Config(ConfigError::InvalidPort)).exit_code(), 2);
    assert_eq!(Outcome::Failed(SessionError::Config(ConfigError::ConflictingFlags)).exit_code(), 2);
    assert_eq!(Outcome::Failed(SessionError::Connect(NetworkCause::Refused)).exit_code(), 3);
    assert_eq!(Outcome::Failed(SessionError::Connect(NetworkCause::TimedOut)).exit_code(), 3);
    assert_eq!(Outcome::Failed(SessionError::Bind(NetworkCause::AddressInUse)).exit_code(), 3);
    assert_eq!(Outcome::Failed(SessionError::Terminal).exit_code(), 4);
    assert_eq!(Outcome::Failed(SessionError::Spawn).exit_code(), 5);
    let io = SessionError::RelayIo { side: Side::Remote, cause: IoCause::ReadFailed };
    assert_eq!(Outcome::Failed(io).exit_code(), 1);
    assert_eq!(Outcome::Interrupted.exit_code(), 130);
}

#[test]
fn no_failure_exits_with_zero() {
    for failure in every_failure() {
        assert_ne!(Outcome::Failed(failure).exit_code(), 0);
    }
    assert_ne!(Outcome::Interrupted.exit_code(), 0);
}

#[test]
fn relay_results_become_outcomes() {
    assert_eq!(Outcome::from_relay(RelayResult::Closed { by: Side::Remote }), Outcome::Closed { by: Side::Remote });
    assert_eq!(Outcome::from_relay(RelayResult::Closed { by: Side::Local }), Outcome::Closed { by: Side::Local });
    assert_eq!(Outcome::from_relay(RelayResult::Interrupted), Outcome::Interrupted);
    assert_eq!(
        Outcome::from_relay(RelayResult::IoError { side: Side::Local, cause: IoCause::WriteStalled }),
        Outcome::Failed(SessionError::RelayIo { side: Side::Local, cause: IoCause::WriteStalled })
    );
}

#[test]
fn diagnostics_name_the_phase() {
    assert_eq!(SessionError::Config(ConfigError::UnresolvableHost).diagnostic(), "invalid configuration");
    assert_eq!(SessionError::Connect(NetworkCause::Refused).diagnostic(), "could not connect to the peer");
    assert_eq!(SessionError::Bind(NetworkCause::AddressInUse).diagnostic(), "could not bind the listening address");
    assert_eq!(SessionError::Terminal.diagnostic(), "could not set up the terminal");
    assert_eq!(SessionError::Spawn.diagnostic(), "could not spawn the command");
    let local = SessionError::RelayIo { side: Side::Local, cause: IoCause::ReadFailed };
    assert_eq!(local.diagnostic(), "relay failed on the local side");
    let remote = SessionError::RelayIo { side: Side::Remote, cause: IoCause::WriteFailed };
    assert_eq!(remote.diagnostic(), "relay failed on the remote side");
}

#[test]
fn diagnostics_are_single_lines() {
    for failure in every_failure() {
        let line = failure.diagnostic();
        assert!(!line.is_empty());
        assert!(!line.contains('\n'));
    }
}
