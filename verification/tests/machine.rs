use io_tether::config::{Config, ErrorPropagation};
use io_tether::connect::{Attempt, Progress, Unreached};
use io_tether::{Action, Awaited, Context, Io, Resolver, Tether};
use std::future::{ready, Ready};
use std::io::{Error, ErrorKind};
use std::ops::ControlFlow;
use std::task::Poll;

/// Counts its connections; the I/O object is the number of the connection.
struct Numbered(u32);

impl Io for Numbered {
    type Output = u32;
    type Connecting = Ready<Result<u32, Error>>;

    fn connect(&mut self) -> Self::Connecting {
        self.0 += 1;
        ready(Ok(self.0))
    }
}

/// Writes down what it is told.
#[derive(Default)]
struct Log(Vec<String>);

impl Log {
    fn note(&mut self, what: &str, context: &Context) {
        let reason = if context.has_reason() {
            context.reason().to_string()
        } else {
            "-".to_string()
        };
        self.0.push(format!(
            "{} {} {} {}",
            what,
            context.total_reconnect_attempts(),
            context.current_reconnect_attempts(),
            reason
        ));
    }
}

impl Resolver<Numbered> for Log {
    type Deciding = Ready<bool>;
    type Notifying = Ready<()>;

    fn disconnected(&mut self, context: &Context, _connector: &mut Numbered) -> Ready<bool> {
        self.note("disconnected", context);
        ready(true)
    }

    fn unreachable(&mut self, context: &Context, connector: &mut Numbered) -> Ready<bool> {
        self.note("unreachable", context);
        connector.0 += 100;
        ready(true)
    }

    fn established(&mut self, context: &Context) -> Option<Ready<()>> {
        self.note("established", context);
        Some(ready(()))
    }

    fn reconnected(&mut self, context: &Context) -> Option<Ready<()>> {
        self.note("reconnected", context);
        Some(ready(()))
    }
}

/// Relies on the defaults of all but one method.
struct Plain(u32);

impl Resolver<Numbered> for Plain {
    type Deciding = Ready<bool>;
    type Notifying = Ready<()>;

    fn disconnected(&mut self, _context: &Context, _connector: &mut Numbered) -> Ready<bool> {
        self.0 += 1;
        ready(false)
    }
}

type Logged = Tether<Numbered, Log>;

fn tether() -> Logged {
    Tether::new(Numbered(0), 0, Log::default())
}

fn configured(keep_data: bool, propagation: ErrorPropagation) -> Logged {
    let mut config = Config::default();
    config.keep_data_on_failed_write = keep_data;
    config.error_propegation_on_no_retry = propagation;
    tether().with_config(config)
}

fn boom() -> Error {
    Error::new(ErrorKind::ConnectionReset, "boom")
}

fn is_connected(tether: &mut Logged) -> bool {
    matches!(tether.waits_for(), Awaited::Operation)
}

fn is_disconnected(tether: &mut Logged) -> bool {
    matches!(tether.waits_for(), Awaited::Decision(_))
}

fn goes_on<T>(step: Poll<ControlFlow<T>>) -> bool {
    matches!(step, Poll::Ready(ControlFlow::Continue(())))
}

fn result<T>(step: Poll<ControlFlow<T>>) -> T {
    match step {
        Poll::Ready(ControlFlow::Break(value)) => value,
        _ => panic!("no result"),
    }
}

fn retry(tether: &mut Logged) {
    assert!(goes_on(tether.resolve_disconnected(
        Poll::Ready(Action::AttemptReconnect),
        Ok::<(), Error>(())
    )));
    assert!(matches!(tether.waits_for(), Awaited::Connection(_)));
}

fn refuse(tether: &mut Logged) -> Result<(), Error> {
    result(tether.resolve_disconnected(Poll::Ready(Action::Exhaust), Ok::<(), Error>(())))
}

#[test]
fn data_is_handed_to_the_reader() {
    let mut tether = tether();
    assert!(result(tether.poll_read_inner(Poll::Ready(Ok(())), 2, 5)).is_ok());
    assert!(is_connected(&mut tether));
    assert!(tether.resolver().0.is_empty());
}

#[test]
fn pending_operations_change_nothing() {
    let mut tether = tether();
    assert!(tether.poll_read_inner(Poll::Pending, 0, 0).is_pending());
    assert!(tether.poll_write_inner(Poll::Pending, 4).is_pending());
    assert!(tether.poll_flush_inner(Poll::Pending).is_pending());
    assert!(tether.poll_shutdown_inner(Poll::Pending).is_pending());
    assert!(tether.poll_sink_ready_inner(Poll::Pending).is_pending());
    assert!(tether.poll_sink_flush_inner(Poll::Pending).is_pending());
    assert!(tether.poll_sink_close_inner(Poll::Pending).is_pending());
    assert!(tether.poll_stream_inner::<u8>(Poll::Pending).is_pending());
    assert!(is_connected(&mut tether));
    tether.poll_read_inner(Poll::Ready(Ok(())), 0, 0).is_ready();
    assert!(tether
        .resolve_disconnected(Poll::Pending, Ok::<(), Error>(()))
        .is_pending());
    assert!(is_disconnected(&mut tether));
    retry(&mut tether);
    assert!(tether.resolve_reconnecting(Poll::Pending).is_pending());
    assert_eq!(tether.context().total_reconnect_attempts(), 0);
    assert!(tether.resolve_reconnecting(Poll::Ready(Ok(1))).is_ready());
    assert!(tether.resolve_reconnected(Poll::Pending).is_pending());
    assert!(matches!(tether.waits_for(), Awaited::Notice(_)));
}

#[test]
fn reads_without_data_disconnect() {
    for (before, after) in [(0, 0), (3, 3), (3, 2)] {
        let mut tether = tether();
        assert!(goes_on(tether.poll_read_inner(Poll::Ready(Ok(())), before, after)));
        assert!(is_disconnected(&mut tether));
        assert_eq!(tether.resolver().0, ["disconnected 0 0 End of file detected"]);
    }
}

#[test]
fn failed_operations_disconnect() {
    let operations: [fn(&mut Logged) -> bool; 8] = [
        |tether| goes_on(tether.poll_read_inner(Poll::Ready(Err(boom())), 0, 4)),
        |tether| goes_on(tether.poll_write_inner(Poll::Ready(Err(boom())), 4)),
        |tether| goes_on(tether.poll_flush_inner(Poll::Ready(Err(boom())))),
        |tether| goes_on(tether.poll_shutdown_inner(Poll::Ready(Err(boom())))),
        |tether| goes_on(tether.poll_sink_ready_inner(Poll::Ready(Err(boom())))),
        |tether| goes_on(tether.poll_sink_flush_inner(Poll::Ready(Err(boom())))),
        |tether| goes_on(tether.poll_sink_close_inner(Poll::Ready(Err(boom())))),
        |tether| goes_on(tether.poll_stream_inner::<u8>(Poll::Ready(Some(Err(boom()))))),
    ];
    for operation in operations {
        let mut tether = tether();
        assert!(operation(&mut tether));
        assert!(is_disconnected(&mut tether));
        assert_eq!(tether.resolver().0, ["disconnected 0 0 boom"]);
        assert_eq!(refuse(&mut tether).unwrap_err().to_string(), "boom");
    }
}

#[test]
fn successful_operations_return() {
    let mut tether = tether();
    assert_eq!(result(tether.poll_write_inner(Poll::Ready(Ok(3)), 4)).unwrap(), 3);
    assert!(result(tether.poll_flush_inner(Poll::Ready(Ok(())))).is_ok());
    assert!(result(tether.poll_shutdown_inner(Poll::Ready(Ok(())))).is_ok());
    assert!(result(tether.poll_sink_ready_inner(Poll::Ready(Ok(())))).is_ok());
    assert!(result(tether.poll_sink_flush_inner(Poll::Ready(Ok(())))).is_ok());
    assert!(result(tether.poll_sink_close_inner(Poll::Ready(Ok(())))).is_ok());
    let item = result(tether.poll_stream_inner(Poll::Ready(Some(Ok(7)))));
    assert_eq!(item.unwrap().unwrap(), 7);
    assert!(is_connected(&mut tether));
}

#[test]
fn finished_streams_disconnect() {
    let mut tether = tether();
    assert!(goes_on(tether.poll_stream_inner::<u8>(Poll::Ready(None))));
    assert_eq!(tether.resolver().0, ["disconnected 0 0 End of file detected"]);
    let item: Option<Result<u8, Error>> =
        result(tether.resolve_disconnected(Poll::Ready(Action::Exhaust), None));
    assert!(item.is_none());
}

#[test]
fn kept_data_is_written_again() {
    let mut tether = tether();
    for polled in [Ok(0), Err(boom())] {
        assert!(!tether.raise_failed_write());
        assert!(goes_on(tether.poll_write_inner(Poll::Ready(polled), 4)));
        retry(&mut tether);
        assert!(tether.resolve_reconnecting(Poll::Ready(Ok(1))).is_ready());
        assert!(tether.resolve_reconnected(Poll::Ready(())).is_ready());
    }
    assert_eq!(result(tether.poll_write_inner(Poll::Ready(Ok(4)), 4)).unwrap(), 4);
}

#[test]
fn dropped_data_counts_as_written() {
    let mut tether = configured(false, ErrorPropagation::All);
    assert_eq!(result(tether.poll_write_inner(Poll::Ready(Err(boom())), 4)).unwrap(), 4);
    assert!(is_connected(&mut tether));
    assert!(tether.resolver().0.is_empty());
    assert!(tether.raise_failed_write());
    assert!(is_disconnected(&mut tether));
    assert_eq!(tether.resolver().0, ["disconnected 0 0 boom"]);
    assert_eq!(refuse(&mut tether).unwrap_err().to_string(), "boom");
}

#[test]
fn dropped_failure_is_raised_once() {
    let mut tether = configured(false, ErrorPropagation::All);
    assert_eq!(result(tether.poll_write_inner(Poll::Ready(Ok(0)), 4)).unwrap(), 4);
    assert!(tether.raise_failed_write());
    retry(&mut tether);
    assert!(tether.resolve_reconnecting(Poll::Ready(Ok(1))).is_ready());
    assert!(tether.resolve_reconnected(Poll::Ready(())).is_ready());
    assert!(!tether.raise_failed_write());
    assert!(is_connected(&mut tether));
}

#[test]
fn reconnecting_restores_the_connection() {
    let mut tether = tether();
    tether.poll_read_inner(Poll::Ready(Ok(())), 0, 0).is_ready();
    retry(&mut tether);
    assert_eq!(tether.connector().0, 1);
    assert!(tether.resolve_reconnecting(Poll::Ready(Err(boom()))).is_ready());
    assert!(is_disconnected(&mut tether));
    retry(&mut tether);
    assert!(tether.resolve_reconnecting(Poll::Ready(Ok(9))).is_ready());
    assert!(tether.resolve_reconnected(Poll::Ready(())).is_ready());
    assert!(is_connected(&mut tether));
    assert_eq!(tether.context().total_reconnect_attempts(), 2);
    assert_eq!(tether.context().current_reconnect_attempts(), 0);
    assert_eq!(
        tether.resolver().0,
        [
            "disconnected 0 0 End of file detected",
            "disconnected 1 1 boom",
            "reconnected 2 2 boom",
        ]
    );
    assert_eq!(*tether.io_mut(), 9);
    assert_eq!(tether.into_inner(), 9);
}

#[test]
fn count_goes_on_after_connecting() {
    let (attempt, _connecting) = Attempt::start(Numbered(0), Log::default());
    let mut attempt = attempt;
    for _ in 0..2 {
        let failed = fail(attempt, boom());
        attempt = match failed.resolve(true) {
            Ok((attempt, _connecting)) => attempt,
            Err(_) => panic!("refused"),
        };
    }
    let mut tether = match attempt.resolve(Ok(5)) {
        Progress::Established(established, notifying) => {
            assert!(notifying.is_some());
            established.finish()
        }
        Progress::Unreached(..) => panic!("unreached"),
    };
    assert_eq!(tether.connector().0, 203);
    assert_eq!(tether.context().current_reconnect_attempts(), 0);
    tether.poll_read_inner(Poll::Ready(Ok(())), 0, 0).is_ready();
    retry(&mut tether);
    assert!(tether.resolve_reconnecting(Poll::Ready(Ok(1))).is_ready());
    assert!(tether.resolve_reconnected(Poll::Ready(())).is_ready());
    tether.poll_read_inner(Poll::Ready(Ok(())), 0, 0).is_ready();
    assert_eq!(
        tether.resolver().0,
        [
            "unreachable 0 0 boom",
            "unreachable 1 1 boom",
            "established 2 2 boom",
            "disconnected 2 0 End of file detected",
            "reconnected 3 1 End of file detected",
            "disconnected 3 0 End of file detected",
        ]
    );
}

fn fail(attempt: Attempt<Numbered, Log>, error: Error) -> Unreached<Numbered, Log> {
    match attempt.resolve(Err(error)) {
        Progress::Unreached(unreached, _deciding) => unreached,
        Progress::Established(..) => panic!("established"),
    }
}

#[test]
fn refused_connection_returns_the_error() {
    let (attempt, _connecting) = Attempt::start(Numbered(0), Log::default());
    let failed = fail(attempt, boom());
    match failed.resolve(false) {
        Ok(_) => panic!("retried"),
        Err((connector, resolver, error)) => {
            assert_eq!(connector.0, 101);
            assert_eq!(resolver.0, ["unreachable 0 0 boom"]);
            assert_eq!(error.to_string(), "boom");
        }
    }
}

#[test]
fn refusing_after_two_failures_ends_the_attempts() {
    let (attempt, _connecting) = Attempt::start(Numbered(0), Log::default());
    let attempt = match fail(attempt, boom()).resolve(true) {
        Ok((attempt, _connecting)) => attempt,
        Err(_) => panic!("refused"),
    };
    let second = Error::new(ErrorKind::ConnectionRefused, "second");
    match fail(attempt, second).resolve(false) {
        Ok(_) => panic!("retried"),
        Err((connector, resolver, error)) => {
            assert_eq!(connector.0, 202);
            assert_eq!(resolver.0, ["unreachable 0 0 boom", "unreachable 1 1 second"]);
            assert_eq!(error.to_string(), "second");
        }
    }
}

#[test]
fn connecting_without_retry_asks_nobody() {
    let (attempt, _connecting) = Attempt::start(Numbered(0), Log::default());
    assert_eq!(attempt.connector.0, 1);
    match attempt.resolve_without_retry(Err(boom())) {
        Ok(_) => panic!("established"),
        Err((attempt, error)) => {
            assert_eq!(attempt.connector.0, 1);
            assert!(attempt.resolver.0.is_empty());
            assert_eq!(error.to_string(), "boom");
        }
    }
    let (attempt, _connecting) = Attempt::start(Numbered(0), Log::default());
    match attempt.resolve_without_retry(Ok(3)) {
        Ok((established, _notifying)) => {
            let tether = established.finish();
            assert_eq!(tether.resolver().0, ["established 0 0 -"]);
            assert_eq!(tether.into_inner(), 3);
        }
        Err(_) => panic!("refused"),
    }
}

#[test]
fn defaults_fall_back_on_other_methods() {
    let mut resolver = Plain(0);
    let mut connector = Numbered(0);
    let mut failed = tether();
    failed.poll_read_inner(Poll::Ready(Err(boom())), 0, 0).is_ready();
    let context = failed.context();
    let answer = resolver.unreachable(context, &mut connector);
    assert!(!answer.into_inner());
    assert_eq!(resolver.0, 1);
    assert!(resolver.established(context).is_none());
    assert!(Resolver::<Numbered>::reconnected(&mut resolver, context).is_none());
    assert_eq!(connector.reconnect().into_inner().unwrap(), 1);
}

#[test]
fn refusals_are_answered_by_configuration() {
    let reconnect_failure = |propagation| {
        let mut tether = configured(true, propagation);
        tether.poll_read_inner(Poll::Ready(Ok(())), 0, 0).is_ready();
        retry(&mut tether);
        tether.resolve_reconnecting(Poll::Ready(Err(boom()))).is_ready();
        refuse(&mut tether)
    };
    let io_failure = |propagation| {
        let mut tether = configured(true, propagation);
        tether.poll_flush_inner(Poll::Ready(Err(boom()))).is_ready();
        refuse(&mut tether)
    };
    assert!(io_failure(ErrorPropagation::Never).is_ok());
    assert!(reconnect_failure(ErrorPropagation::Never).is_ok());
    assert!(io_failure(ErrorPropagation::IoOperations).is_err());
    assert!(reconnect_failure(ErrorPropagation::IoOperations).is_ok());
    assert!(io_failure(ErrorPropagation::All).is_err());
    assert!(reconnect_failure(ErrorPropagation::All).is_err());
}

#[test]
fn latest_error_is_returned() {
    let mut tether = tether();
    tether.poll_read_inner(Poll::Ready(Err(boom())), 0, 0).is_ready();
    for text in ["first", "second"] {
        retry(&mut tether);
        let error = Error::new(ErrorKind::ConnectionRefused, text);
        assert!(tether.resolve_reconnecting(Poll::Ready(Err(error))).is_ready());
    }
    assert!(!tether.is_exhausted());
    assert_eq!(refuse(&mut tether).unwrap_err().to_string(), "second");
    assert!(tether.is_exhausted());
}

#[test]
fn hidden_write_failures_write_nothing() {
    let mut tether = configured(true, ErrorPropagation::Never);
    tether.poll_write_inner(Poll::Ready(Err(boom())), 4).is_ready();
    let wrote: Result<usize, Error> =
        result(tether.resolve_disconnected(Poll::Ready(Action::Exhaust), Ok(0)));
    assert_eq!(wrote.unwrap(), 0);
}

#[test]
fn ignored_disconnects_go_on_with_the_same_object() {
    let mut tether = Tether::new(Numbered(0), 42, Log::default());
    tether.poll_read_inner(Poll::Ready(Ok(())), 0, 0).is_ready();
    assert!(goes_on(
        tether.resolve_disconnected(Poll::Ready(Action::Ignore), Ok::<(), Error>(()))
    ));
    assert!(is_connected(&mut tether));
    assert_eq!(tether.context().total_reconnect_attempts(), 0);
    assert_eq!(tether.connector().0, 0);
    assert_eq!(tether.into_inner(), 42);
}

/// Gives up after a number of attempts, and moves the connector to another place each time.
struct Patient(usize);

impl Resolver<Numbered> for Patient {
    type Deciding = Ready<bool>;
    type Notifying = Ready<()>;

    fn disconnected(&mut self, context: &Context, connector: &mut Numbered) -> Ready<bool> {
        connector.0 += 10;
        ready(context.current_reconnect_attempts() < self.0)
    }
}

#[test]
fn resolvers_can_limit_attempts_and_change_the_connector() {
    let mut tether = Tether::new(Numbered(0), 0, Patient(5));
    tether.poll_read_inner(Poll::Ready(Ok(())), 0, 0).is_ready();
    let mut attempts = 0;
    loop {
        let answer = match tether.waits_for() {
            Awaited::Decision(deciding) => std::mem::replace(deciding, ready(false)).into_inner(),
            _ => panic!("not disconnected"),
        };
        let decided = Poll::Ready(Action::from(answer));
        match tether.resolve_disconnected(decided, Ok::<(), Error>(())) {
            Poll::Ready(ControlFlow::Continue(())) => {}
            step => {
                assert_eq!(result(step).unwrap_err().to_string(), "boom");
                break;
            }
        }
        attempts += 1;
        tether.resolve_reconnecting(Poll::Ready(Err(boom()))).is_ready();
    }
    assert_eq!(attempts, 5);
    assert_eq!(tether.connector().0, 65);
}

#[test]
fn io_object_is_the_latest() {
    let mut tether = tether();
    *tether.io_mut() = 7;
    tether.poll_read_inner(Poll::Ready(Ok(())), 0, 0).is_ready();
    retry(&mut tether);
    assert!(tether.resolve_reconnecting(Poll::Ready(Err(boom()))).is_ready());
    assert_eq!(*tether.io_mut(), 7);
    retry(&mut tether);
    assert!(tether.resolve_reconnecting(Poll::Ready(Ok(9))).is_ready());
    assert_eq!(*tether.io_mut(), 9);
    assert!(tether.resolve_reconnected(Poll::Ready(())).is_ready());
    *tether.io_mut() = 10;
    assert!(goes_on(tether.poll_flush_inner(Poll::Ready(Err(boom())))));
    assert_eq!(tether.into_inner(), 10);
}

#[test]
fn resolver_is_as_the_latest_call_left_it() {
    let mut tether = tether();
    assert!(tether.resolver().0.is_empty());
    tether.poll_read_inner(Poll::Ready(Ok(())), 0, 0).is_ready();
    assert_eq!(tether.resolver().0.len(), 1);
    retry(&mut tether);
    assert_eq!(tether.resolver().0.len(), 1);
    assert!(tether.resolve_reconnecting(Poll::Ready(Ok(9))).is_ready());
    assert_eq!(tether.resolver().0.len(), 2);
    assert!(tether.resolve_reconnected(Poll::Ready(())).is_ready());
    assert_eq!(
        tether.resolver().0,
        [
            "disconnected 0 0 End of file detected",
            "reconnected 1 1 End of file detected",
        ]
    );
}

#[test]
fn waiting_hands_out_the_future_in_place() {
    let mut tether = tether();
    tether.poll_read_inner(Poll::Ready(Ok(())), 0, 0).is_ready();
    for answer in [true, false] {
        match tether.waits_for() {
            Awaited::Decision(deciding) => {
                let before = std::mem::replace(deciding, ready(!answer));
                assert_eq!(before.into_inner(), answer);
            }
            _ => panic!("not disconnected"),
        }
        assert!(is_disconnected(&mut tether));
    }
}
