use io_tether::config::{Config, ErrorPropagation};
use io_tether::reason::{retryable_kind, IoInto};
use io_tether::{Action, Context, Reason, Source};
use std::io::{Error, ErrorKind};

const RETRYABLE: [ErrorKind; 15] = [
    ErrorKind::NotFound,
    ErrorKind::PermissionDenied,
    ErrorKind::ConnectionRefused,
    ErrorKind::ConnectionAborted,
    ErrorKind::ConnectionReset,
    ErrorKind::NotConnected,
    ErrorKind::AlreadyExists,
    ErrorKind::HostUnreachable,
    ErrorKind::AddrNotAvailable,
    ErrorKind::NetworkDown,
    ErrorKind::BrokenPipe,
    ErrorKind::TimedOut,
    ErrorKind::UnexpectedEof,
    ErrorKind::NetworkUnreachable,
    ErrorKind::AddrInUse,
];

const FINAL: [ErrorKind; 11] = [
    ErrorKind::WouldBlock,
    ErrorKind::InvalidInput,
    ErrorKind::InvalidData,
    ErrorKind::WriteZero,
    ErrorKind::Interrupted,
    ErrorKind::Unsupported,
    ErrorKind::OutOfMemory,
    ErrorKind::Other,
    ErrorKind::NotADirectory,
    ErrorKind::StorageFull,
    ErrorKind::ResourceBusy,
];

#[test]
fn errors_that_reconnecting_can_mend_are_retryable() {
    for kind in RETRYABLE {
        assert!(retryable_kind(kind));
        assert!(Reason::Error(Error::from(kind)).retryable());
        assert!(Reason::Error(Error::new(kind, "custom")).retryable());
    }
}

#[test]
fn other_errors_are_not_retryable() {
    for kind in FINAL {
        assert!(!retryable_kind(kind));
        assert!(!Reason::Error(Error::from(kind)).retryable());
        assert!(!Reason::Error(Error::new(kind, "custom")).retryable());
    }
}

#[test]
fn end_of_file_is_retryable() {
    assert!(Reason::Eof.retryable());
}

#[test]
fn reasons_have_a_text() {
    assert_eq!(Reason::Eof.to_string(), "End of file detected");
    let reason = Reason::Error(Error::new(ErrorKind::Other, "boom"));
    assert_eq!(reason.to_string(), "boom");
    assert_eq!(reason.text_with("rendered".to_string()), "rendered");
    assert_eq!(Reason::Eof.text_with("rendered".to_string()), "End of file detected");
}

#[test]
fn reasons_convert_into_errors() {
    let error = Error::from(Reason::Eof);
    assert_eq!(error.kind(), ErrorKind::UnexpectedEof);
    assert_eq!(error.to_string(), "Eof error");
    let error = Error::from(Reason::Error(Error::new(ErrorKind::TimedOut, "late")));
    assert_eq!(error.kind(), ErrorKind::TimedOut);
    assert_eq!(error.to_string(), "late");
}

#[test]
fn converting_a_reason_keeps_whether_it_is_retryable() {
    assert!(Reason::Error(Error::from(Reason::Eof)).retryable());
    let fatal = Reason::Error(Error::from(ErrorKind::InvalidData));
    assert!(!Reason::Error(Error::from(fatal)).retryable());
}

#[test]
fn end_of_file_is_a_result_without_data() {
    let wrote: Result<usize, Error> = Reason::Eof.io_into();
    assert_eq!(wrote.unwrap(), 0);
    let read: Result<(), Error> = Reason::Eof.io_into();
    assert!(read.is_ok());
    let item: Option<Result<u8, Error>> = Reason::Eof.io_into();
    assert!(item.is_none());
}

#[test]
fn errors_are_results_as_they_are() {
    let failed = || Reason::Error(Error::new(ErrorKind::BrokenPipe, "gone"));
    let wrote: Result<usize, Error> = failed().io_into();
    assert_eq!(wrote.unwrap_err().to_string(), "gone");
    let read: Result<(), Error> = failed().io_into();
    assert_eq!(read.unwrap_err().kind(), ErrorKind::BrokenPipe);
    let item: Option<Result<u8, Error>> = failed().io_into();
    assert_eq!(item.unwrap().unwrap_err().kind(), ErrorKind::BrokenPipe);
}

#[test]
fn default_configuration_keeps_data_and_returns_io_errors() {
    let config = Config::default();
    assert!(config.keep_data_on_failed_write);
    assert_eq!(config.error_propegation_on_no_retry, ErrorPropagation::IoOperations);
}

#[test]
fn propagation_depends_on_the_source() {
    assert!(!ErrorPropagation::Never.propagates(Source::Io));
    assert!(!ErrorPropagation::Never.propagates(Source::Reconnect));
    assert!(ErrorPropagation::IoOperations.propagates(Source::Io));
    assert!(!ErrorPropagation::IoOperations.propagates(Source::Reconnect));
    assert!(ErrorPropagation::All.propagates(Source::Io));
    assert!(ErrorPropagation::All.propagates(Source::Reconnect));
}

#[test]
fn answers_become_actions() {
    assert_eq!(Action::from(true), Action::AttemptReconnect);
    assert_eq!(Action::from(false), Action::Exhaust);
}

#[test]
fn resetting_a_context_leaves_the_total() {
    let mut context = Context::default();
    assert!(!context.has_reason());
    assert_eq!(context.total_reconnect_attempts(), 0);
    context.increment_attempts();
    context.increment_attempts();
    assert_eq!(context.current_reconnect_attempts(), 2);
    context.reset();
    context.increment_attempts();
    assert_eq!(context.current_reconnect_attempts(), 1);
    assert_eq!(context.total_reconnect_attempts(), 3);
}

/// Displays a part of its text, and fails.
#[derive(Debug)]
struct Broken;

impl std::fmt::Display for Broken {
    fn fmt(&self, f: &mut std::fmt::Formatter<'_>) -> std::fmt::Result {
        f.write_str("part")?;
        Err(std::fmt::Error)
    }
}

impl std::error::Error for Broken {}

#[test]
fn text_of_an_error_that_fails_to_display_is_its_part() {
    let reason = Reason::Error(Error::new(ErrorKind::Other, Broken));
    assert_eq!(reason.to_string(), "part");
}
