//! What the operations do, in terms of what goes into a call and what comes out of it.
//!
//! Each law speaks of calls: of the values before and after them, their arguments and their
//! results. `earlier` is the tether before a call or several, and `later` the same tether after
//! them.
use crate::config::{Config, ErrorPropagation};
use crate::connect::{Attempt, Established, Progress, Unreached};
use crate::context::{Context, ContextView};
use crate::error::error_kind;
use crate::fs::{open_flags, FileConnector, OpenFlag};
use crate::reason::{retryable_kind, IoInto, Reason, Source};
use crate::resolver::{Action, Io, Resolver};
use crate::tcp::TcpConnector;
use crate::tether::{Awaited, State, Tether, TetherInner};
use crate::unix::UnixConnector;
use std::io::{Error, ErrorKind};
use std::ops::ControlFlow;
use std::task::Poll;
use vstd::prelude::*;

verus! {

/// A read returns exactly if it brought data, however much, and then leaves the tether as it was.
/// It goes on with the state machine exactly if the connection is lost: at the end of the file
/// where it brought no data, and with the very error where it failed. The resolver is asked then,
/// and the I/O object stays.
pub proof fn law_reads_return_exactly_with_data<C: Io, R: Resolver<C>>(
    earlier: Tether<C, R>,
    later: Tether<C, R>,
    polled: Poll<Result<(), Error>>,
    before: usize,
    after: usize,
    step: Poll<ControlFlow<Result<(), Error>>>,
)
    requires
        earlier.state() is Connected,
        exists|tether: &mut Tether<C, R>| #![auto]
            {
                &&& *tether == earlier
                &&& *final(tether) == later
                &&& call_ensures(
                    Tether::<C, R>::poll_read_inner,
                    (tether, polled, before, after),
                    step,
                )
            },
    ensures
        (step matches Poll::Ready(ControlFlow::Break(Ok(_)))) <==> {
            &&& polled matches Poll::Ready(Ok(_))
            &&& before < after
        },
        !(step matches Poll::Ready(ControlFlow::Break(Err(_)))),
        step is Pending <==> polled is Pending,
        (step matches Poll::Ready(ControlFlow::Continue(_))) <==> later.state() is Disconnected,
        later.state() is Disconnected || later == earlier,
        later.parts() == (TetherInner {
            context: later.parts().context,
            connector: later.parts().connector,
            resolver: later.parts().resolver,
            ..earlier.parts()
        }),
        later.state() matches State::Disconnected(deciding) ==> {
            exists|resolver: &mut R, connector: &mut C| #![auto]
                {
                    &&& *resolver == earlier.parts().resolver
                    &&& *connector == earlier.parts().connector
                    &&& *final(resolver) == later.parts().resolver
                    &&& *final(connector) == later.parts().connector
                    &&& call_ensures(
                        R::disconnected,
                        (resolver, &later.parts().context, connector),
                        deciding,
                    )
                }
        },
        after <= before ==> {
            polled matches Poll::Ready(Ok(_)) ==> later.parts().context@ == (ContextView {
                reason: Some((Reason::Eof, Source::Io)),
                ..earlier.parts().context@
            })
        },
        polled matches Poll::Ready(Err(error)) ==> later.parts().context@ == (ContextView {
            reason: Some((Reason::Error(error), Source::Io)),
            ..earlier.parts().context@
        }),
{
}

/// Whatever the configuration, a write that takes data returns the number of bytes that it took,
/// and leaves the tether as it was.
pub proof fn law_writes_return_what_was_taken<C: Io, R: Resolver<C>>(
    earlier: Tether<C, R>,
    later: Tether<C, R>,
    wrote: usize,
    len: usize,
    step: Poll<ControlFlow<Result<usize, Error>>>,
)
    requires
        wrote != 0,
        exists|tether: &mut Tether<C, R>| #![auto]
            {
                &&& *tether == earlier
                &&& *final(tether) == later
                &&& call_ensures(
                    Tether::<C, R>::poll_write_inner,
                    (tether, Poll::Ready(Ok(wrote)), len),
                    step,
                )
            },
    ensures
        step == Poll::Ready(ControlFlow::<Result<usize, Error>, ()>::Break(Ok(wrote))),
        later == earlier,
{
}

/// A write goes on with the state machine, and so is made again, exactly if it lost the connection:
/// it is never made again on the connection that it was made on. It waits exactly if the I/O object
/// does, and returns no error by itself.
pub proof fn law_writes_are_made_again_only_when_disconnected<C: Io, R: Resolver<C>>(
    earlier: Tether<C, R>,
    later: Tether<C, R>,
    polled: Poll<Result<usize, Error>>,
    len: usize,
    step: Poll<ControlFlow<Result<usize, Error>>>,
)
    requires
        earlier.state() is Connected,
        exists|tether: &mut Tether<C, R>| #![auto]
            {
                &&& *tether == earlier
                &&& *final(tether) == later
                &&& call_ensures(Tether::<C, R>::poll_write_inner, (tether, polled, len), step)
            },
    ensures
        (step matches Poll::Ready(ControlFlow::Continue(_))) <==> later.state() is Disconnected,
        !(step matches Poll::Ready(ControlFlow::Break(Err(_)))),
        step is Pending <==> polled is Pending,
        step is Pending ==> later == earlier,
{
}

/// Where its data is kept, a write that takes nothing loses the connection at the end of the file,
/// and one that fails loses it with its very error. The resolver is asked then, and the I/O object
/// stays.
pub proof fn law_failed_writes_of_kept_data_disconnect<C: Io, R: Resolver<C>>(
    earlier: Tether<C, R>,
    later: Tether<C, R>,
    polled: Result<usize, Error>,
    len: usize,
    reason: Reason,
    step: Poll<ControlFlow<Result<usize, Error>>>,
)
    requires
        earlier.parts().config.keep_data_on_failed_write,
        match reason {
            Reason::Eof => polled == Ok::<usize, Error>(0),
            Reason::Error(error) => polled == Err::<usize, Error>(error),
        },
        exists|tether: &mut Tether<C, R>| #![auto]
            {
                &&& *tether == earlier
                &&& *final(tether) == later
                &&& call_ensures(
                    Tether::<C, R>::poll_write_inner,
                    (tether, Poll::Ready(polled), len),
                    step,
                )
            },
    ensures
        step matches Poll::Ready(ControlFlow::Continue(_)),
        later.state() is Disconnected,
        later.parts() == (TetherInner {
            context: later.parts().context,
            connector: later.parts().connector,
            resolver: later.parts().resolver,
            ..earlier.parts()
        }),
        later.state() matches State::Disconnected(deciding) ==> {
            exists|resolver: &mut R, connector: &mut C| #![auto]
                {
                    &&& *resolver == earlier.parts().resolver
                    &&& *connector == earlier.parts().connector
                    &&& *final(resolver) == later.parts().resolver
                    &&& *final(connector) == later.parts().connector
                    &&& call_ensures(
                        R::disconnected,
                        (resolver, &later.parts().context, connector),
                        deciding,
                    )
                }
        },
        later.parts().context@ == (ContextView {
            reason: Some((reason, Source::Io)),
            ..earlier.parts().context@
        }),
{
}

/// Where its data is dropped, such a write is reported as done in full. The tether keeps its
/// failure for the next write, and changes in nothing else: the resolver is not asked.
pub proof fn law_failed_writes_of_dropped_data_are_remembered<C: Io, R: Resolver<C>>(
    earlier: Tether<C, R>,
    later: Tether<C, R>,
    polled: Result<usize, Error>,
    len: usize,
    reason: Reason,
    step: Poll<ControlFlow<Result<usize, Error>>>,
)
    requires
        !earlier.parts().config.keep_data_on_failed_write,
        match reason {
            Reason::Eof => polled == Ok::<usize, Error>(0),
            Reason::Error(error) => polled == Err::<usize, Error>(error),
        },
        exists|tether: &mut Tether<C, R>| #![auto]
            {
                &&& *tether == earlier
                &&& *final(tether) == later
                &&& call_ensures(
                    Tether::<C, R>::poll_write_inner,
                    (tether, Poll::Ready(polled), len),
                    step,
                )
            },
    ensures
        step == Poll::Ready(ControlFlow::<Result<usize, Error>, ()>::Break(Ok(len))),
        later.state() == earlier.state(),
        later.parts().context@ == earlier.parts().context@,
        later.parts() == (TetherInner {
            context: later.parts().context,
            last_write: Some(reason),
            ..earlier.parts()
        }),
{
}

/// The next write finds the failure of one whose data was dropped, and loses the connection with
/// it. It is found once, and where there is none, nothing changes.
pub proof fn law_remembered_failures_disconnect<C: Io, R: Resolver<C>>(
    earlier: Tether<C, R>,
    later: Tether<C, R>,
    raised: bool,
)
    requires
        earlier.state() is Connected,
        exists|tether: &mut Tether<C, R>| #![auto]
            {
                &&& *tether == earlier
                &&& *final(tether) == later
                &&& call_ensures(Tether::<C, R>::raise_failed_write, (tether,), raised)
            },
    ensures
        raised <==> earlier.parts().last_write is Some,
        raised <==> later.state() is Disconnected,
        !raised ==> later == earlier,
        later.parts().last_write is None,
        later.parts() == (TetherInner {
            context: later.parts().context,
            connector: later.parts().connector,
            resolver: later.parts().resolver,
            last_write: None,
            ..earlier.parts()
        }),
        later.state() matches State::Disconnected(deciding) ==> {
            exists|resolver: &mut R, connector: &mut C| #![auto]
                {
                    &&& *resolver == earlier.parts().resolver
                    &&& *connector == earlier.parts().connector
                    &&& *final(resolver) == later.parts().resolver
                    &&& *final(connector) == later.parts().connector
                    &&& call_ensures(
                        R::disconnected,
                        (resolver, &later.parts().context, connector),
                        deciding,
                    )
                }
        },
        earlier.parts().last_write matches Some(reason) ==> later.parts().context@ == (ContextView {
            reason: Some((reason, Source::Io)),
            ..earlier.parts().context@
        }),
{
}

/// Flushing or shutting a writer down, and preparing, flushing or closing a sink, is reported as
/// done exactly if it was done, and then leaves the tether as it was. It goes on with the state
/// machine exactly if the connection is lost, which it is with the very error where it failed. The
/// resolver is asked then, and the I/O object stays.
pub proof fn law_control_operations_return_exactly_when_done<C: Io, R: Resolver<C>>(
    earlier: Tether<C, R>,
    later: Tether<C, R>,
    polled: Poll<Result<(), Error>>,
    step: Poll<ControlFlow<Result<(), Error>>>,
)
    requires
        earlier.state() is Connected,
        exists|tether: &mut Tether<C, R>| #![auto]
            {
                &&& *tether == earlier
                &&& *final(tether) == later
                &&& {
                    ||| call_ensures(Tether::<C, R>::poll_flush_inner, (tether, polled), step)
                    ||| call_ensures(Tether::<C, R>::poll_shutdown_inner, (tether, polled), step)
                    ||| call_ensures(Tether::<C, R>::poll_sink_ready_inner, (tether, polled), step)
                    ||| call_ensures(Tether::<C, R>::poll_sink_flush_inner, (tether, polled), step)
                    ||| call_ensures(Tether::<C, R>::poll_sink_close_inner, (tether, polled), step)
                }
            },
    ensures
        (step matches Poll::Ready(ControlFlow::Break(Ok(_)))) <==> (polled matches Poll::Ready(
            Ok(_),
        )),
        !(step matches Poll::Ready(ControlFlow::Break(Err(_)))),
        step is Pending <==> polled is Pending,
        (step matches Poll::Ready(ControlFlow::Continue(_))) <==> later.state() is Disconnected,
        later.state() is Disconnected || later == earlier,
        later.parts() == (TetherInner {
            context: later.parts().context,
            connector: later.parts().connector,
            resolver: later.parts().resolver,
            ..earlier.parts()
        }),
        later.state() matches State::Disconnected(deciding) ==> {
            exists|resolver: &mut R, connector: &mut C| #![auto]
                {
                    &&& *resolver == earlier.parts().resolver
                    &&& *connector == earlier.parts().connector
                    &&& *final(resolver) == later.parts().resolver
                    &&& *final(connector) == later.parts().connector
                    &&& call_ensures(
                        R::disconnected,
                        (resolver, &later.parts().context, connector),
                        deciding,
                    )
                }
        },
        polled matches Poll::Ready(Err(error)) ==> later.parts().context@ == (ContextView {
            reason: Some((Reason::Error(error), Source::Io)),
            ..earlier.parts().context@
        }),
{
}

/// A stream hands on exactly the items that it gives, and then leaves the tether as it was. It goes
/// on with the state machine exactly if the connection is lost: at the end of the file where there
/// is no item, and with the very error where it failed. The resolver is asked then, and the I/O
/// object stays.
pub proof fn law_streams_hand_on_exactly_their_items<C: Io, R: Resolver<C>, T>(
    earlier: Tether<C, R>,
    later: Tether<C, R>,
    polled: Poll<Option<Result<T, Error>>>,
    step: Poll<ControlFlow<Option<Result<T, Error>>>>,
)
    requires
        earlier.state() is Connected,
        exists|tether: &mut Tether<C, R>| #![auto]
            {
                &&& *tether == earlier
                &&& *final(tether) == later
                &&& call_ensures(Tether::<C, R>::poll_stream_inner::<T>, (tether, polled), step)
            },
    ensures
        polled matches Poll::Ready(Some(Ok(item))) ==> step == Poll::Ready(
            ControlFlow::<Option<Result<T, Error>>, ()>::Break(Some(Ok(item))),
        ),
        step matches Poll::Ready(ControlFlow::Break(result)) ==> {
            &&& polled == Poll::Ready(result)
            &&& result matches Some(Ok(_))
        },
        step is Pending <==> polled is Pending,
        (step matches Poll::Ready(ControlFlow::Continue(_))) <==> later.state() is Disconnected,
        later.state() is Disconnected || later == earlier,
        later.parts() == (TetherInner {
            context: later.parts().context,
            connector: later.parts().connector,
            resolver: later.parts().resolver,
            ..earlier.parts()
        }),
        later.state() matches State::Disconnected(deciding) ==> {
            exists|resolver: &mut R, connector: &mut C| #![auto]
                {
                    &&& *resolver == earlier.parts().resolver
                    &&& *connector == earlier.parts().connector
                    &&& *final(resolver) == later.parts().resolver
                    &&& *final(connector) == later.parts().connector
                    &&& call_ensures(
                        R::disconnected,
                        (resolver, &later.parts().context, connector),
                        deciding,
                    )
                }
        },
        polled matches Poll::Ready(None) ==> later.parts().context@ == (ContextView {
            reason: Some((Reason::Eof, Source::Io)),
            ..earlier.parts().context@
        }),
        polled matches Poll::Ready(Some(Err(error))) ==> later.parts().context@ == (ContextView {
            reason: Some((Reason::Error(error), Source::Io)),
            ..earlier.parts().context@
        }),
{
}

/// As long as the resolver has not decided, nothing changes. A wanted reconnect is sought with the
/// connector, through [`Io::reconnect`]; an ignored disconnect goes on with the same I/O object;
/// and where no retry is wanted, the failure is taken out and the caller gets an answer. Nothing
/// else changes, and the resolver is left alone.
pub proof fn law_decisions_are_carried_out<C: Io, R: Resolver<C>, T>(
    earlier: Tether<C, R>,
    later: Tether<C, R>,
    decided: Poll<Action>,
    default: T,
    step: Poll<ControlFlow<T>>,
) where Reason: IoInto<T>
    requires
        earlier.state() is Disconnected,
        exists|tether: &mut Tether<C, R>| #![auto]
            {
                &&& *tether == earlier
                &&& *final(tether) == later
                &&& call_ensures(
                    Tether::<C, R>::resolve_disconnected::<T>,
                    (tether, decided, default),
                    step,
                )
            },
    ensures
        step is Pending <==> decided is Pending,
        (step matches Poll::Ready(ControlFlow::Break(_))) <==> decided == Poll::Ready(
            Action::Exhaust,
        ),
        decided is Pending ==> later == earlier,
        later.state() is Reconnecting <==> decided == Poll::Ready(Action::AttemptReconnect),
        later.state() is Connected <==> decided == Poll::Ready(Action::Ignore),
        later.state() is Disconnected ==> later.state() == earlier.state(),
        later.parts() == (TetherInner {
            context: later.parts().context,
            connector: later.parts().connector,
            ..earlier.parts()
        }),
        later.state() matches State::Reconnecting(connecting) ==> {
            exists|connector: &mut C| #![auto]
                {
                    &&& *connector == earlier.parts().connector
                    &&& *final(connector) == later.parts().connector
                    &&& call_ensures(C::reconnect, (connector,), connecting)
                }
        },
        !(later.state() is Reconnecting) ==> later.parts().connector == earlier.parts().connector,
        later.parts().context@.total == earlier.parts().context@.total,
        later.parts().context@.current == if decided == Poll::Ready(Action::Ignore) {
            0
        } else {
            earlier.parts().context@.current
        },
        later.parts().context@.reason == if decided == Poll::Ready(Action::Exhaust) {
            None
        } else {
            earlier.parts().context@.reason
        },
{
}

/// To the caller of a read, a flush or a shutdown, a failure that is propagated is its very error,
/// and success only the end of the file; one that is not propagated is `default`.
pub proof fn law_refused_operations_return_their_error<C: Io, R: Resolver<C>>(
    earlier: Tether<C, R>,
    later: Tether<C, R>,
    reason: Reason,
    source: Source,
    default: Result<(), Error>,
    step: Poll<ControlFlow<Result<(), Error>>>,
)
    requires
        earlier.parts().context@.reason == Some((reason, source)),
        exists|tether: &mut Tether<C, R>| #![auto]
            {
                &&& *tether == earlier
                &&& *final(tether) == later
                &&& call_ensures(
                    Tether::<C, R>::resolve_disconnected::<Result<(), Error>>,
                    (tether, Poll::Ready(Action::Exhaust), default),
                    step,
                )
            },
    ensures
        step matches Poll::Ready(ControlFlow::Break(answer)) && match (
            earlier.parts().config.error_propegation_on_no_retry,
            source,
            reason,
        ) {
            (ErrorPropagation::Never, _, _) => answer == default,
            (ErrorPropagation::IoOperations, Source::Reconnect, _) => answer == default,
            (_, _, Reason::Eof) => answer == Ok::<(), Error>(()),
            (_, _, Reason::Error(error)) => answer == Err::<(), Error>(error),
        },
{
}

/// To the caller of a write, a failure that is propagated is its very error, and the end of the
/// file is a write of nothing; one that is not propagated is `default`.
pub proof fn law_refused_writes_return_their_error<C: Io, R: Resolver<C>>(
    earlier: Tether<C, R>,
    later: Tether<C, R>,
    reason: Reason,
    source: Source,
    default: Result<usize, Error>,
    step: Poll<ControlFlow<Result<usize, Error>>>,
)
    requires
        earlier.parts().context@.reason == Some((reason, source)),
        exists|tether: &mut Tether<C, R>| #![auto]
            {
                &&& *tether == earlier
                &&& *final(tether) == later
                &&& call_ensures(
                    Tether::<C, R>::resolve_disconnected::<Result<usize, Error>>,
                    (tether, Poll::Ready(Action::Exhaust), default),
                    step,
                )
            },
    ensures
        step matches Poll::Ready(ControlFlow::Break(answer)) && match (
            earlier.parts().config.error_propegation_on_no_retry,
            source,
            reason,
        ) {
            (ErrorPropagation::Never, _, _) => answer == default,
            (ErrorPropagation::IoOperations, Source::Reconnect, _) => answer == default,
            (_, _, Reason::Eof) => answer == Ok::<usize, Error>(0),
            (_, _, Reason::Error(error)) => answer == Err::<usize, Error>(error),
        },
{
}

/// To the caller of a stream, a failure that is propagated is an item with its very error, and the
/// end of the file is the end of the stream; one that is not propagated is `default`.
pub proof fn law_refused_streams_return_their_error<C: Io, R: Resolver<C>, T>(
    earlier: Tether<C, R>,
    later: Tether<C, R>,
    reason: Reason,
    source: Source,
    default: Option<Result<T, Error>>,
    step: Poll<ControlFlow<Option<Result<T, Error>>>>,
)
    requires
        earlier.parts().context@.reason == Some((reason, source)),
        exists|tether: &mut Tether<C, R>| #![auto]
            {
                &&& *tether == earlier
                &&& *final(tether) == later
                &&& call_ensures(
                    Tether::<C, R>::resolve_disconnected::<Option<Result<T, Error>>>,
                    (tether, Poll::Ready(Action::Exhaust), default),
                    step,
                )
            },
    ensures
        step matches Poll::Ready(ControlFlow::Break(answer)) && match (
            earlier.parts().config.error_propegation_on_no_retry,
            source,
            reason,
        ) {
            (ErrorPropagation::Never, _, _) => answer == default,
            (ErrorPropagation::IoOperations, Source::Reconnect, _) => answer == default,
            (_, _, Reason::Eof) => answer == None::<Result<T, Error>>,
            (_, _, Reason::Error(error)) => answer == Some(Err::<T, Error>(error)),
        },
{
}

/// An attempt to reconnect that comes to its end is counted once, whatever its result. A new I/O
/// object is taken up, and the resolver is told of it; a failure is put to the resolver with its
/// very error. Until then nothing changes.
pub proof fn law_attempts_are_carried_out<C: Io, R: Resolver<C>>(
    earlier: Tether<C, R>,
    later: Tether<C, R>,
    connected: Poll<Result<C::Output, Error>>,
    step: Poll<()>,
)
    requires
        earlier.state() is Reconnecting,
        exists|tether: &mut Tether<C, R>| #![auto]
            {
                &&& *tether == earlier
                &&& *final(tether) == later
                &&& call_ensures(Tether::<C, R>::resolve_reconnecting, (tether, connected), step)
            },
    ensures
        step is Pending <==> connected is Pending,
        step is Pending ==> later == earlier,
        later.state() is Reconnected <==> (connected matches Poll::Ready(Ok(_))),
        later.state() is Disconnected <==> (connected matches Poll::Ready(Err(_))),
        later.parts().context@.total == earlier.parts().context@.total + if step is Ready {
            1nat
        } else {
            0nat
        },
        later.parts().context@.current == earlier.parts().context@.current + if step is Ready {
            1nat
        } else {
            0nat
        },
        match connected {
            Poll::Ready(Err(error)) => later.parts().context@.reason == Some(
                (Reason::Error(error), Source::Reconnect),
            ),
            _ => later.parts().context@.reason == earlier.parts().context@.reason,
        },
        match connected {
            Poll::Ready(Ok(io)) => later.parts().io == io,
            _ => later.parts().io == earlier.parts().io,
        },
        later.parts().config == earlier.parts().config,
        later.parts().last_write == earlier.parts().last_write,
        later.state() matches State::Disconnected(deciding) ==> {
            exists|resolver: &mut R, connector: &mut C| #![auto]
                {
                    &&& *resolver == earlier.parts().resolver
                    &&& *connector == earlier.parts().connector
                    &&& *final(resolver) == later.parts().resolver
                    &&& *final(connector) == later.parts().connector
                    &&& call_ensures(
                        R::disconnected,
                        (resolver, &later.parts().context, connector),
                        deciding,
                    )
                }
        },
        later.state() matches State::Reconnected(notifying) ==> {
            &&& later.parts().connector == earlier.parts().connector
            &&& exists|resolver: &mut R| #![auto]
                {
                    &&& *resolver == earlier.parts().resolver
                    &&& *final(resolver) == later.parts().resolver
                    &&& call_ensures(
                        R::reconnected,
                        (resolver, &later.parts().context),
                        notifying,
                    )
                }
        },
{
}

/// Once the resolver has taken note of a new connection, that connection is used, and the attempts
/// since the last one are counted anew. Until then nothing changes.
pub proof fn law_noted_connections_are_used<C: Io, R: Resolver<C>>(
    earlier: Tether<C, R>,
    later: Tether<C, R>,
    notified: Poll<()>,
    step: Poll<()>,
)
    requires
        earlier.state() is Reconnected,
        exists|tether: &mut Tether<C, R>| #![auto]
            {
                &&& *tether == earlier
                &&& *final(tether) == later
                &&& call_ensures(Tether::<C, R>::resolve_reconnected, (tether, notified), step)
            },
    ensures
        step is Pending <==> notified is Pending,
        step is Pending ==> later == earlier,
        step is Ready <==> later.state() is Connected,
        step is Ready ==> later.parts().context@ == (ContextView {
            current: 0,
            ..earlier.parts().context@
        }),
        later.parts() == (TetherInner { context: later.parts().context, ..earlier.parts() }),
{
}

/// Unless no failure is propagated, a read that fails and is not retried returns the very error
/// that the I/O object gave, and one that brings no data returns without data.
pub proof fn law_refused_reads_return_what_the_io_object_gave<C: Io, R: Resolver<C>>(
    earlier: Tether<C, R>,
    failed: Tether<C, R>,
    later: Tether<C, R>,
    polled: Result<(), Error>,
    before: usize,
    after: usize,
    default: Result<(), Error>,
    step: Poll<ControlFlow<Result<(), Error>>>,
    answered: Poll<ControlFlow<Result<(), Error>>>,
)
    requires
        earlier.state() is Connected,
        earlier.parts().config.error_propegation_on_no_retry != ErrorPropagation::Never,
        polled is Err || after <= before,
        exists|tether: &mut Tether<C, R>| #![auto]
            {
                &&& *tether == earlier
                &&& *final(tether) == failed
                &&& call_ensures(
                    Tether::<C, R>::poll_read_inner,
                    (tether, Poll::Ready(polled), before, after),
                    step,
                )
            },
        exists|tether: &mut Tether<C, R>| #![auto]
            {
                &&& *tether == failed
                &&& *final(tether) == later
                &&& call_ensures(
                    Tether::<C, R>::resolve_disconnected::<Result<(), Error>>,
                    (tether, Poll::Ready(Action::Exhaust), default),
                    answered,
                )
            },
    ensures
        answered == Poll::Ready(ControlFlow::<Result<(), Error>, ()>::Break(polled)),
{
    if let Ok(done) = polled {
        assert(done == ());
    }
}

/// Unless no failure is propagated, a flush, a shutdown or an operation of a sink that fails and is
/// not retried returns the very error that the I/O object gave.
pub proof fn law_refused_control_operations_return_what_the_io_object_gave<C: Io, R: Resolver<C>>(
    earlier: Tether<C, R>,
    failed: Tether<C, R>,
    later: Tether<C, R>,
    error: Error,
    default: Result<(), Error>,
    step: Poll<ControlFlow<Result<(), Error>>>,
    answered: Poll<ControlFlow<Result<(), Error>>>,
)
    requires
        earlier.state() is Connected,
        earlier.parts().config.error_propegation_on_no_retry != ErrorPropagation::Never,
        exists|tether: &mut Tether<C, R>| #![auto]
            {
                &&& *tether == earlier
                &&& *final(tether) == failed
                &&& {
                    ||| call_ensures(
                        Tether::<C, R>::poll_flush_inner,
                        (tether, Poll::Ready(Err(error))),
                        step,
                    )
                    ||| call_ensures(
                        Tether::<C, R>::poll_shutdown_inner,
                        (tether, Poll::Ready(Err(error))),
                        step,
                    )
                    ||| call_ensures(
                        Tether::<C, R>::poll_sink_ready_inner,
                        (tether, Poll::Ready(Err(error))),
                        step,
                    )
                    ||| call_ensures(
                        Tether::<C, R>::poll_sink_flush_inner,
                        (tether, Poll::Ready(Err(error))),
                        step,
                    )
                    ||| call_ensures(
                        Tether::<C, R>::poll_sink_close_inner,
                        (tether, Poll::Ready(Err(error))),
                        step,
                    )
                }
            },
        exists|tether: &mut Tether<C, R>| #![auto]
            {
                &&& *tether == failed
                &&& *final(tether) == later
                &&& call_ensures(
                    Tether::<C, R>::resolve_disconnected::<Result<(), Error>>,
                    (tether, Poll::Ready(Action::Exhaust), default),
                    answered,
                )
            },
    ensures
        answered == Poll::Ready(ControlFlow::<Result<(), Error>, ()>::Break(Err(error))),
{
}

/// Unless no failure is propagated, a write of kept data that fails, or that takes nothing, and is
/// not retried returns what the I/O object gave.
pub proof fn law_refused_writes_return_what_the_io_object_gave<C: Io, R: Resolver<C>>(
    earlier: Tether<C, R>,
    failed: Tether<C, R>,
    later: Tether<C, R>,
    polled: Result<usize, Error>,
    len: usize,
    default: Result<usize, Error>,
    step: Poll<ControlFlow<Result<usize, Error>>>,
    answered: Poll<ControlFlow<Result<usize, Error>>>,
)
    requires
        earlier.state() is Connected,
        earlier.parts().config.error_propegation_on_no_retry != ErrorPropagation::Never,
        earlier.parts().config.keep_data_on_failed_write,
        polled is Err || polled == Ok::<usize, Error>(0),
        exists|tether: &mut Tether<C, R>| #![auto]
            {
                &&& *tether == earlier
                &&& *final(tether) == failed
                &&& call_ensures(
                    Tether::<C, R>::poll_write_inner,
                    (tether, Poll::Ready(polled), len),
                    step,
                )
            },
        exists|tether: &mut Tether<C, R>| #![auto]
            {
                &&& *tether == failed
                &&& *final(tether) == later
                &&& call_ensures(
                    Tether::<C, R>::resolve_disconnected::<Result<usize, Error>>,
                    (tether, Poll::Ready(Action::Exhaust), default),
                    answered,
                )
            },
    ensures
        answered == Poll::Ready(ControlFlow::<Result<usize, Error>, ()>::Break(polled)),
{
}

/// Unless no failure is propagated, a stream that fails or ends and is not retried returns what the
/// I/O object gave.
pub proof fn law_refused_streams_return_what_the_io_object_gave<C: Io, R: Resolver<C>, T>(
    earlier: Tether<C, R>,
    failed: Tether<C, R>,
    later: Tether<C, R>,
    polled: Option<Result<T, Error>>,
    default: Option<Result<T, Error>>,
    step: Poll<ControlFlow<Option<Result<T, Error>>>>,
    answered: Poll<ControlFlow<Option<Result<T, Error>>>>,
)
    requires
        earlier.state() is Connected,
        earlier.parts().config.error_propegation_on_no_retry != ErrorPropagation::Never,
        !(polled matches Some(Ok(_))),
        exists|tether: &mut Tether<C, R>| #![auto]
            {
                &&& *tether == earlier
                &&& *final(tether) == failed
                &&& call_ensures(
                    Tether::<C, R>::poll_stream_inner::<T>,
                    (tether, Poll::Ready(polled)),
                    step,
                )
            },
        exists|tether: &mut Tether<C, R>| #![auto]
            {
                &&& *tether == failed
                &&& *final(tether) == later
                &&& call_ensures(
                    Tether::<C, R>::resolve_disconnected::<Option<Result<T, Error>>>,
                    (tether, Poll::Ready(Action::Exhaust), default),
                    answered,
                )
            },
    ensures
        answered == Poll::Ready(
            ControlFlow::<Option<Result<T, Error>>, ()>::Break(polled),
        ),
{
}

/// Connecting starts with one call of [`Io::connect`], leaves the resolver alone, and counts
/// nothing.
pub proof fn law_connecting_starts_with_one_connect<C: Io, R: Resolver<C>>(
    connector: C,
    resolver: R,
    attempt: Attempt<C, R>,
    connecting: C::Connecting,
)
    requires
        call_ensures(Attempt::<C, R>::start, (connector, resolver), (attempt, connecting)),
    ensures
        attempt.resolver == resolver,
        attempt.context@.total == 0,
        attempt.context@.current == 0,
        attempt.context@.reason is None,
        exists|called: &mut C| #![auto]
            {
                &&& *called == connector
                &&& *final(called) == attempt.connector
                &&& call_ensures(C::connect, (called,), connecting)
            },
{
}

/// A connection that is made is told to the resolver, and one that fails is put to it with the very
/// error; nothing else changes, and no attempt is counted yet.
pub proof fn law_initial_results_go_to_the_resolver<C: Io, R: Resolver<C>>(
    attempt: Attempt<C, R>,
    connected: Result<C::Output, Error>,
    progress: Progress<C, R>,
)
    requires
        call_ensures(Attempt::<C, R>::resolve, (attempt, connected), progress),
    ensures
        progress is Established <==> connected is Ok,
        progress matches Progress::Established(established, notifying) ==> {
            &&& connected == Ok::<C::Output, Error>(established.io)
            &&& established.context == attempt.context
            &&& established.connector == attempt.connector
            &&& exists|resolver: &mut R| #![auto]
                {
                    &&& *resolver == attempt.resolver
                    &&& *final(resolver) == established.resolver
                    &&& call_ensures(R::established, (resolver, &attempt.context), notifying)
                }
        },
        progress matches Progress::Unreached(unreached, deciding) ==> {
            &&& unreached.context@.total == attempt.context@.total
            &&& unreached.context@.current == attempt.context@.current
            &&& unreached.context@.reason matches Some((Reason::Error(error), source))
            &&& source == Source::Reconnect
            &&& connected == Err::<C::Output, Error>(error)
            &&& exists|resolver: &mut R, connector: &mut C| #![auto]
                {
                    &&& *resolver == attempt.resolver
                    &&& *connector == attempt.connector
                    &&& *final(resolver) == unreached.resolver
                    &&& *final(connector) == unreached.connector
                    &&& call_ensures(
                        R::unreachable,
                        (resolver, &unreached.context, connector),
                        deciding,
                    )
                }
        },
{
}

/// A connection that fails, and about which the resolver wants no retry, is answered with the very
/// error that the connector gave; connector and resolver are as the resolver left them.
pub proof fn law_refused_connections_return_what_the_connector_gave<C: Io, R: Resolver<C>>(
    attempt: Attempt<C, R>,
    error: Error,
    unreached: Unreached<C, R>,
    deciding: R::Deciding,
    answered: Result<(Attempt<C, R>, C::Connecting), (C, R, Error)>,
)
    requires
        call_ensures(
            Attempt::<C, R>::resolve,
            (attempt, Err(error)),
            Progress::Unreached(unreached, deciding),
        ),
        call_ensures(Unreached::<C, R>::resolve, (unreached, false), answered),
    ensures
        answered matches Err((connector, resolver, returned)) && {
            &&& returned == error
            &&& connector == unreached.connector
            &&& resolver == unreached.resolver
        },
{
}

/// A wanted retry is one more call of [`Io::connect`], counted once; the resolver is left alone.
pub proof fn law_wanted_connections_are_sought_again<C: Io, R: Resolver<C>>(
    unreached: Unreached<C, R>,
    sought: Result<(Attempt<C, R>, C::Connecting), (C, R, Error)>,
)
    requires
        call_ensures(Unreached::<C, R>::resolve, (unreached, true), sought),
    ensures
        sought matches Ok((attempt, connecting)) && {
            &&& attempt.resolver == unreached.resolver
            &&& attempt.context@.total == unreached.context@.total + 1
            &&& attempt.context@.current == unreached.context@.current + 1
            &&& attempt.context@.reason == unreached.context@.reason
            &&& exists|connector: &mut C| #![auto]
                {
                    &&& *connector == unreached.connector
                    &&& *final(connector) == attempt.connector
                    &&& call_ensures(C::connect, (connector,), connecting)
                }
        },
{
}

/// Without retries, a connection that fails is answered with the very error that the connector
/// gave, and changes nothing; one that is made is told to the resolver.
pub proof fn law_connecting_without_retry_returns_what_the_connector_gave<C: Io, R: Resolver<C>>(
    attempt: Attempt<C, R>,
    connected: Result<C::Output, Error>,
    answered: Result<(Established<C, R>, Option<R::Notifying>), (Attempt<C, R>, Error)>,
)
    requires
        call_ensures(Attempt::<C, R>::resolve_without_retry, (attempt, connected), answered),
    ensures
        match answered {
            Err((same, error)) => {
                &&& connected == Err::<C::Output, Error>(error)
                &&& same == attempt
            },
            Ok((established, notifying)) => {
                &&& connected == Ok::<C::Output, Error>(established.io)
                &&& established.context == attempt.context
                &&& established.connector == attempt.connector
                &&& exists|resolver: &mut R| #![auto]
                    {
                        &&& *resolver == attempt.resolver
                        &&& *final(resolver) == established.resolver
                        &&& call_ensures(R::established, (resolver, &attempt.context), notifying)
                    }
            },
        },
{
}

/// The tether that is handed out holds the connection that was made, counts on from the attempts
/// that it took, and has none since.
pub proof fn law_established_connections_are_handed_out<C: Io, R: Resolver<C>>(
    established: Established<C, R>,
    tether: Tether<C, R>,
)
    requires
        call_ensures(Established::<C, R>::finish, (established,), tether),
    ensures
        tether.state() is Connected,
        tether.parts().io == established.io,
        tether.parts().connector == established.connector,
        tether.parts().resolver == established.resolver,
        tether.parts().context@.total == established.context@.total,
        tether.parts().context@.current == 0,
        tether.parts().context@.reason == established.context@.reason,
        tether.parts().last_write is None,
        tether.parts().config.keep_data_on_failed_write,
        tether.parts().config.error_propegation_on_no_retry == ErrorPropagation::All,
{
}

/// A tether holds what it is made of, keeps the data of failed writes and propagates all failures.
pub proof fn law_tethers_hold_what_they_are_made_of<C: Io, R: Resolver<C>>(
    connector: C,
    io: C::Output,
    resolver: R,
    tether: Tether<C, R>,
)
    requires
        call_ensures(Tether::<C, R>::new, (connector, io, resolver), tether),
    ensures
        tether.state() is Connected,
        tether.parts().io == io,
        tether.parts().connector == connector,
        tether.parts().resolver == resolver,
        tether.parts().context@ == (ContextView { total: 0, current: 0, reason: None }),
        tether.parts().last_write is None,
        tether.parts().config.keep_data_on_failed_write,
        tether.parts().config.error_propegation_on_no_retry == ErrorPropagation::All,
        forall|inner: C::Output|
            call_ensures(Tether::<C, R>::into_inner, (tether,), inner) ==> inner == io,
        forall|held: &R|
            call_ensures(Tether::<C, R>::resolver, (&tether,), held) ==> *held == resolver,
        forall|held: &C|
            call_ensures(Tether::<C, R>::connector, (&tether,), held) ==> *held == connector,
{
}

/// Another configuration, whichever it is, is taken over as it is, and changes nothing else.
pub proof fn law_configurations_are_taken_over<C: Io, R: Resolver<C>>(
    earlier: Tether<C, R>,
    config: Config,
    later: Tether<C, R>,
)
    requires
        call_ensures(Tether::<C, R>::with_config, (earlier, config), later),
    ensures
        later.state() == earlier.state(),
        later.parts() == (TetherInner { config, ..earlier.parts() }),
{
}

/// A tether is exhausted exactly once a failure was handed to a caller: after no other decision,
/// and after no operation.
pub proof fn law_exhausted_exactly_after_an_answer<C: Io, R: Resolver<C>, T>(
    earlier: Tether<C, R>,
    later: Tether<C, R>,
    decided: Poll<Action>,
    default: T,
    step: Poll<ControlFlow<T>>,
    exhausted: bool,
) where Reason: IoInto<T>
    requires
        earlier.state() is Disconnected,
        earlier.parts().context@.reason is Some,
        exists|tether: &mut Tether<C, R>| #![auto]
            {
                &&& *tether == earlier
                &&& *final(tether) == later
                &&& call_ensures(
                    Tether::<C, R>::resolve_disconnected::<T>,
                    (tether, decided, default),
                    step,
                )
            },
        call_ensures(Tether::<C, R>::is_exhausted, (&later,), exhausted),
    ensures
        exhausted <==> (step matches Poll::Ready(ControlFlow::Break(_))),
        exhausted <==> decided == Poll::Ready(Action::Exhaust),
{
}

/// The result of an operation that stands for a failure is its very error, and only the end of the
/// file is a result without data.
pub proof fn law_results_carry_the_error<T>(
    reason: Reason,
    done: Result<(), Error>,
    wrote: Result<usize, Error>,
    item: Option<Result<T, Error>>,
)
    requires
        call_ensures(<Reason as IoInto<Result<(), Error>>>::io_into, (reason,), done),
        call_ensures(<Reason as IoInto<Result<usize, Error>>>::io_into, (reason,), wrote),
        call_ensures(<Reason as IoInto<Option<Result<T, Error>>>>::io_into, (reason,), item),
    ensures
        reason is Eof <==> done is Ok,
        reason is Eof <==> wrote == Ok::<usize, Error>(0),
        reason is Eof <==> wrote is Ok,
        reason is Eof <==> item is None,
        reason matches Reason::Error(error) ==> {
            &&& done == Err::<(), Error>(error)
            &&& wrote == Err::<usize, Error>(error)
            &&& item == Some(Err::<T, Error>(error))
        },
{
}

/// The error that stands for a reason is the reason's own, whatever it is; only the end of the file
/// has one made for it, which is of kind `UnexpectedEof`.
pub proof fn law_errors_of_reasons_are_their_own(reason: Reason, error: Error)
    requires
        call_ensures(<Error as From<Reason>>::from, (reason,), error),
    ensures
        match reason {
            Reason::Error(own) => error == own,
            Reason::Eof => {
                &&& error_kind(error) == ErrorKind::UnexpectedEof
                &&& error == crate::error::custom_error(ErrorKind::UnexpectedEof, "Eof error"@)
            },
        },
{
}

/// Connecting again can help after these kinds of error and after no others. A reason is judged by
/// the kind of its error, and the end of the file as an error of kind `UnexpectedEof` is.
pub proof fn law_retryable_kinds(kind: ErrorKind, reason: Reason, helps: bool, retryable: bool)
    requires
        call_ensures(retryable_kind, (kind,), helps),
        call_ensures(Reason::retryable, (&reason,), retryable),
        match reason {
            Reason::Eof => kind == ErrorKind::UnexpectedEof,
            Reason::Error(error) => kind == error_kind(error),
        },
    ensures
        retryable == helps,
        helps <==> seq![
            ErrorKind::NotFound,
            ErrorKind::PermissionDenied,
            ErrorKind::ConnectionRefused,
            ErrorKind::ConnectionAborted,
            ErrorKind::ConnectionReset,
            ErrorKind::NotConnected,
            ErrorKind::AlreadyExists,
            ErrorKind::HostUnreachable,
            ErrorKind::AddrNotAvailable,
            ErrorKind::NetworkDown,
            ErrorKind::BrokenPipe,
            ErrorKind::TimedOut,
            ErrorKind::UnexpectedEof,
            ErrorKind::NetworkUnreachable,
            ErrorKind::AddrInUse,
        ].contains(kind),
{
}

/// The text of a reason is that of its error, whatever that is; only the end of the file has its
/// own.
pub proof fn law_texts_of_reasons(reason: Reason, error: String, text: String)
    requires
        call_ensures(Reason::text_with, (&reason, error), text),
    ensures
        reason is Error ==> text@ == error@,
        reason is Eof ==> text@ == "End of file detected"@,
{
}

/// A resolver's answer `true` is a wanted reconnect, and its answer `false` a refused one.
pub proof fn law_answers_are_decisions(retry: bool, action: Action)
    requires
        call_ensures(<Action as From<bool>>::from, (retry,), action),
    ensures
        retry <==> action == Action::AttemptReconnect,
        !retry <==> action == Action::Exhaust,
{
}

/// An attempt adds one to both counts, and an established connection clears only that of the
/// attempts since the last one.
pub proof fn law_attempts_are_counted(earlier: Context, later: Context)
    ensures
        forall|context: &mut Context| #![auto]
            {
                &&& *context == earlier
                &&& *final(context) == later
                &&& call_ensures(Context::increment_attempts, (context,), ())
            } ==> {
                &&& later@.total == earlier@.total + 1
                &&& later@.current == earlier@.current + 1
                &&& later@.reason == earlier@.reason
            },
        forall|context: &mut Context| #![auto]
            {
                &&& *context == earlier
                &&& *final(context) == later
                &&& call_ensures(Context::reset, (context,), ())
            } ==> {
                &&& later@.total == earlier@.total
                &&& later@.current == 0
                &&& later@.reason == earlier@.reason
            },
{
}

/// What a resolver reads from the context is what is counted and recorded there, however much it
/// is.
pub proof fn law_contexts_tell_what_they_hold(
    context: Context,
    total: usize,
    current: usize,
    has: bool,
    reason: &Reason,
)
    requires
        call_ensures(Context::total_reconnect_attempts, (&context,), total),
        call_ensures(Context::current_reconnect_attempts, (&context,), current),
        call_ensures(Context::has_reason, (&context,), has),
        call_ensures(Context::reason, (&context,), reason),
    ensures
        total == context@.total,
        current == context@.current,
        has <==> context@.reason is Some,
        context@.reason matches Some((held, _)) ==> *reason == held,
{
}

/// The default configuration keeps the data of failed writes, and propagates the failures of I/O
/// operations: whether a failure is propagated depends on where it was met, and on nothing else.
pub proof fn law_propagation(
    propagation: ErrorPropagation,
    source: Source,
    propagates: bool,
    default: Config,
)
    requires
        call_ensures(ErrorPropagation::propagates, (&propagation, source), propagates),
        call_ensures(<Config as Default>::default, (), default),
    ensures
        propagates <==> (propagation == ErrorPropagation::All || propagation
            == ErrorPropagation::IoOperations && source == Source::Io),
        default.keep_data_on_failed_write,
        default.error_propegation_on_no_retry == ErrorPropagation::IoOperations,
{
}

/// What is polled is the future that the tether waits for, and however polling leaves that future,
/// the tether waits for it still, unchanged in everything else.
pub proof fn law_futures_are_polled_in_place<'a, C: Io, R: Resolver<C>>(
    earlier: Tether<C, R>,
    later: Tether<C, R>,
    awaited: Awaited<'a, C, R>,
)
    requires
        exists|tether: &'a mut Tether<C, R>| #![auto]
            {
                &&& *tether == earlier
                &&& *final(tether) == later
                &&& call_ensures(Tether::<C, R>::waits_for, (tether,), awaited)
            },
    ensures
        later.parts() == earlier.parts(),
        awaited is Operation <==> earlier.state() is Connected,
        match awaited {
            Awaited::Operation => later.state() == earlier.state(),
            Awaited::Decision(deciding) => {
                &&& earlier.state() == State::<C, R>::Disconnected(*deciding)
                &&& later.state() == State::<C, R>::Disconnected(*final(deciding))
            },
            Awaited::Connection(connecting) => {
                &&& earlier.state() == State::<C, R>::Reconnecting(*connecting)
                &&& later.state() == State::<C, R>::Reconnecting(*final(connecting))
            },
            Awaited::Notice(notifying) => {
                &&& earlier.state() == State::<C, R>::Reconnected(*notifying)
                &&& later.state() == State::<C, R>::Reconnected(*final(notifying))
            },
        },
{
}

/// A tether made with a context takes it over as it is, and holds what it is made of besides.
pub proof fn law_contexts_are_taken_over<C: Io, R: Resolver<C>>(
    connector: C,
    io: C::Output,
    resolver: R,
    context: Context,
    tether: Tether<C, R>,
)
    requires
        call_ensures(
            Tether::<C, R>::new_with_context,
            (connector, io, resolver, context),
            tether,
        ),
    ensures
        tether.state() is Connected,
        tether.parts().context == context,
        tether.parts().io == io,
        tether.parts().connector == connector,
        tether.parts().resolver == resolver,
        tether.parts().last_write is None,
        tether.parts().config.keep_data_on_failed_write,
        tether.parts().config.error_propegation_on_no_retry == ErrorPropagation::All,
        forall|held: &Context|
            call_ensures(Tether::<C, R>::context, (&tether,), held) ==> *held == context,
{
}

/// The I/O object is used in place: what is done to it is done to the tether's, and to nothing
/// else.
pub proof fn law_io_objects_are_used_in_place<C: Io, R: Resolver<C>>(
    earlier: Tether<C, R>,
    later: Tether<C, R>,
    found: C::Output,
    left: C::Output,
)
    requires
        exists|tether: &mut Tether<C, R>, io: &mut C::Output| #![auto]
            {
                &&& *tether == earlier
                &&& *final(tether) == later
                &&& *io == found
                &&& *final(io) == left
                &&& call_ensures(Tether::<C, R>::io_mut, (tether,), io)
            },
    ensures
        found == earlier.parts().io,
        later.parts() == (TetherInner { io: left, ..earlier.parts() }),
        later.state() == earlier.state(),
{
}

/// Entering the connected state clears the count of attempts since the last connection, and
/// entering one of the others counts nothing. A failure is recorded as it is given, and a new I/O
/// object is taken up as it is given; what else the tether holds stays, but for the resolver and
/// the connector where they are called.
pub proof fn law_states_are_entered<C: Io, R: Resolver<C>>(
    earlier: Tether<C, R>,
    later: Tether<C, R>,
    io: C::Output,
    reason: Reason,
    source: Source,
)
    ensures
        forall|tether: &mut Tether<C, R>| #![auto]
            {
                &&& *tether == earlier
                &&& *final(tether) == later
                &&& call_ensures(Tether::<C, R>::set_connected, (tether,), ())
            } ==> {
                &&& later.state() is Connected
                &&& later.parts().context@ == (ContextView {
                    current: 0,
                    ..earlier.parts().context@
                })
                &&& later.parts() == (TetherInner {
                    context: later.parts().context,
                    ..earlier.parts()
                })
            },
        forall|tether: &mut Tether<C, R>| #![auto]
            {
                &&& *tether == earlier
                &&& *final(tether) == later
                &&& call_ensures(Tether::<C, R>::set_reconnecting, (tether,), ())
            } ==> {
                &&& later.state() is Reconnecting
                &&& later.parts() == (TetherInner {
                    connector: later.parts().connector,
                    ..earlier.parts()
                })
            },
        forall|tether: &mut Tether<C, R>| #![auto]
            {
                &&& *tether == earlier
                &&& *final(tether) == later
                &&& call_ensures(Tether::<C, R>::set_reconnected, (tether, io), ())
            } ==> {
                &&& later.state() is Reconnected
                &&& later.parts() == (TetherInner {
                    io,
                    resolver: later.parts().resolver,
                    ..earlier.parts()
                })
            },
        forall|tether: &mut Tether<C, R>| #![auto]
            {
                &&& *tether == earlier
                &&& *final(tether) == later
                &&& call_ensures(Tether::<C, R>::set_disconnected, (tether, reason, source), ())
            } ==> {
                &&& later.state() is Disconnected
                &&& later.parts().context@ == (ContextView {
                    reason: Some((reason, source)),
                    ..earlier.parts().context@
                })
                &&& later.parts() == (TetherInner {
                    context: later.parts().context,
                    connector: later.parts().connector,
                    resolver: later.parts().resolver,
                    ..earlier.parts()
                })
            },
{
}

/// An address that a connector was made for, or was given since, is the one that is read from it.
pub proof fn law_connectors_give_back_their_address<A>(
    address: A,
    changed: A,
    tcp: TcpConnector<A>,
    unix: UnixConnector<A>,
)
    requires
        call_ensures(TcpConnector::<A>::new, (address,), tcp),
        call_ensures(UnixConnector::<A>::new, (address,), unix),
    ensures
        forall|read: &A|
            call_ensures(TcpConnector::<A>::get_addr, (&tcp,), read) ==> *read == address,
        forall|read: &A|
            call_ensures(UnixConnector::<A>::get_path, (&unix,), read) ==> *read == address,
        forall|connector: &mut TcpConnector<A>, place: &mut A, read: &A| #![auto]
            {
                &&& *connector == tcp
                &&& *final(place) == changed
                &&& call_ensures(TcpConnector::<A>::get_addr_mut, (connector,), place)
                &&& call_ensures(TcpConnector::<A>::get_addr, (&*final(connector),), read)
            } ==> *place == address && *read == changed,
        forall|connector: &mut UnixConnector<A>, place: &mut A, read: &A| #![auto]
            {
                &&& *connector == unix
                &&& *final(place) == changed
                &&& call_ensures(UnixConnector::<A>::get_path_mut, (connector,), place)
                &&& call_ensures(UnixConnector::<A>::get_path, (&*final(connector),), read)
            } ==> *place == address && *read == changed,
{
}

/// A file is opened for reading alone, created to be written from its start, or created as a new
/// one to be read and written; the path is kept.
pub proof fn law_files_are_opened_as_asked<P>(
    path: P,
    opened: FileConnector<P>,
    created: FileConnector<P>,
    made: FileConnector<P>,
)
    requires
        call_ensures(FileConnector::<P>::open, (path,), opened),
        call_ensures(FileConnector::<P>::create, (path,), created),
        call_ensures(FileConnector::<P>::create_new, (path,), made),
    ensures
        opened.path == path,
        created.path == path,
        made.path == path,
        forall|flag: OpenFlag| #[trigger]
            open_flags(opened.options).contains(flag) <==> flag is Read,
        forall|flag: OpenFlag| #[trigger]
            open_flags(created.options).contains(flag) <==> flag is Write || flag is Create
                || flag is Truncate,
        forall|flag: OpenFlag| #[trigger]
            open_flags(made.options).contains(flag) <==> flag is Read || flag is Write
                || flag is CreateNew,
{
}

} // verus!
