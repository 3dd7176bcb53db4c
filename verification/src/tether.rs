//! The tether and its state machine.
use crate::config::{Config, ErrorPropagation};
use crate::context::Context;
use crate::link::{Link, Phase};
use crate::reason::{IoInto, Reason, Source};
use crate::resolver::{Action, Io, Resolver};
use std::io::Error;
use std::ops::ControlFlow;
use std::task::Poll;
use vstd::prelude::*;

verus! {

/// `std::task::Poll`, with its two variants.
#[verifier::external_type_specification]
#[verifier::reject_recursive_types(T)]
pub struct ExPoll<T>(std::task::Poll<T>);

/// The state machine which drives the connection and reconnect logic. Each state but the first
/// holds the future that has to complete before the machine goes on.
pub enum State<C: Io, R: Resolver<C>> {
    Connected,
    Disconnected(R::Deciding),
    Reconnecting(C::Connecting),
    Reconnected(Option<R::Notifying>),
}

impl<C: Io, R: Resolver<C>> State<C, R> {
    /// What the state waits for.
    pub open spec fn phase(self) -> Phase {
        match self {
            State::Connected => Phase::Connected,
            State::Disconnected(_) => Phase::Disconnected,
            State::Reconnecting(_) => Phase::Reconnecting,
            State::Reconnected(_) => Phase::Reconnected,
        }
    }
}

impl<C: Io, R: Resolver<C>> Default for State<C, R> {
    fn default() -> (state: Self)
        ensures
            state is Connected,
    {
        State::Connected
    }
}

/// What a tether waits for: an operation of the caller, or a future that is to be polled in place.
pub enum Awaited<'a, C: Io, R: Resolver<C>> {
    Operation,
    Decision(&'a mut R::Deciding),
    Connection(&'a mut C::Connecting),
    Notice(&'a mut Option<R::Notifying>),
}

/// What a tether holds besides its state.
pub struct TetherInner<C: Io, R: Resolver<C>> {
    pub context: Context,
    pub connector: C,
    pub io: C::Output,
    pub resolver: R,
    pub config: Config,
    pub last_write: Option<Reason>,
}

impl<C: Io, R: Resolver<C>> TetherInner<C, R> {
    /// `other` differs from `self` at most in the connector and the resolver.
    pub open spec fn same_link(self, other: Self) -> bool {
        &&& self.context == other.context
        &&& self.io == other.io
        &&& self.config == other.config
        &&& self.last_write == other.last_write
    }

    /// Asks the resolver about the disconnect that the context tells of.
    pub fn disconnected(&mut self) -> (deciding: R::Deciding)
        requires
            old(self).context@.wf(),
            old(self).context@.reason is Some,
        ensures
            final(self).same_link(*old(self)),
            exists|resolver: &mut R, connector: &mut C| #![auto]
                {
                    &&& *resolver == old(self).resolver
                    &&& *connector == old(self).connector
                    &&& *final(resolver) == final(self).resolver
                    &&& *final(connector) == final(self).connector
                    &&& call_ensures(
                        R::disconnected,
                        (resolver, &old(self).context, connector),
                        deciding,
                    )
                },
    {
        self.resolver.disconnected(&self.context, &mut self.connector)
    }

    /// Tells the resolver of the new connection.
    pub fn reconnected(&mut self) -> (notifying: Option<R::Notifying>)
        requires
            old(self).context@.wf(),
        ensures
            final(self).same_link(*old(self)),
            final(self).connector == old(self).connector,
            exists|resolver: &mut R| #![auto]
                {
                    &&& *resolver == old(self).resolver
                    &&& *final(resolver) == final(self).resolver
                    &&& call_ensures(R::reconnected, (resolver, &old(self).context), notifying)
                },
    {
        self.resolver.reconnected(&self.context)
    }
}

/// A wrapper which contains the underlying I/O object, its connector, and the resolver.
///
/// Whenever an operation on the I/O object fails, the resolver is asked whether to reconnect.
/// There is no way to obtain the resolver or the connector for writing; the I/O object is reclaimed
/// with [`Tether::into_inner`].
pub struct Tether<C: Io, R: Resolver<C>> {
    state: State<C, R>,
    inner: TetherInner<C, R>,
}

impl<C: Io, R: Resolver<C>> Tether<C, R> {
    /// The state of the machine.
    pub closed spec fn state(self) -> State<C, R> {
        self.state
    }

    /// What the tether holds besides its state.
    pub closed spec fn parts(self) -> TetherInner<C, R> {
        self.inner
    }

    /// The model of the tether.
    pub open spec fn link(self) -> Link<C::Output> {
        Link {
            phase: self.state().phase(),
            context: self.parts().context@,
            io: self.parts().io,
            config: self.parts().config,
            last_write: self.parts().last_write,
        }
    }

    /// From here to `after`, the resolver is asked about the disconnect that the context of `after`
    /// tells of, through these references to resolver and connector, and its answer is awaited.
    #[verifier::inline]
    pub open spec fn asks(self, after: Self, resolver: &mut R, connector: &mut C) -> bool {
        &&& *resolver == self.parts().resolver
        &&& *connector == self.parts().connector
        &&& after.state() is Disconnected
        &&& call_ensures(
            R::disconnected,
            (resolver, &after.parts().context, connector),
            after.state()->Disconnected_0,
        )
    }

    /// From here to `after`, the connector seeks a new connection, through this reference to it,
    /// and its result is awaited.
    #[verifier::inline]
    pub open spec fn seeks(self, after: Self, connector: &mut C) -> bool {
        &&& *connector == self.parts().connector
        &&& after.state() is Reconnecting
        &&& call_ensures(C::reconnect, (connector,), after.state()->Reconnecting_0)
    }

    /// From here to `after`, the resolver is told of the new connection, through this reference to
    /// it, and is given the time to take note.
    #[verifier::inline]
    pub open spec fn tells(self, after: Self, resolver: &mut R) -> bool {
        &&& *resolver == self.parts().resolver
        &&& after.state() is Reconnected
        &&& call_ensures(
            R::reconnected,
            (resolver, &after.parts().context),
            after.state()->Reconnected_0,
        )
    }

    /// The tether can take part in further operations.
    pub open spec fn wf(self) -> bool {
        self.link().wf()
    }

    /// Returns a reference to the inner resolver.
    pub fn resolver(&self) -> (resolver: &R)
        ensures
            *resolver == self.parts().resolver,
    {
        &self.inner.resolver
    }

    /// Returns a reference to the inner connector.
    pub fn connector(&self) -> (connector: &C)
        ensures
            *connector == self.parts().connector,
    {
        &self.inner.connector
    }

    /// The context that the resolver is told of.
    pub fn context(&self) -> (context: &Context)
        ensures
            *context == self.parts().context,
    {
        &self.inner.context
    }

    /// What the tether waits for, for the code that polls the future. However that leaves the
    /// future, the tether waits for the same thing afterwards.
    pub fn waits_for(&mut self) -> (awaited: Awaited<'_, C, R>)
        ensures
            final(self).parts() == old(self).parts(),
            final(self).link() == old(self).link(),
            match (old(self).state(), awaited) {
                (State::Connected, Awaited::Operation) => final(self).state() is Connected,
                (State::Disconnected(before), Awaited::Decision(deciding)) => {
                    &&& *deciding == before
                    &&& final(self).state() == State::<C, R>::Disconnected(*final(deciding))
                },
                (State::Reconnecting(before), Awaited::Connection(connecting)) => {
                    &&& *connecting == before
                    &&& final(self).state() == State::<C, R>::Reconnecting(*final(connecting))
                },
                (State::Reconnected(before), Awaited::Notice(notifying)) => {
                    &&& *notifying == before
                    &&& final(self).state() == State::<C, R>::Reconnected(*final(notifying))
                },
                _ => false,
            },
    {
        match &mut self.state {
            State::Connected => Awaited::Operation,
            State::Disconnected(deciding) => Awaited::Decision(deciding),
            State::Reconnecting(connecting) => Awaited::Connection(connecting),
            State::Reconnected(notifying) => Awaited::Notice(notifying),
        }
    }

    /// The I/O object, for the code that performs operations on it.
    pub fn io_mut(&mut self) -> (io: &mut C::Output)
        ensures
            *io == old(self).parts().io,
            final(self).state() == old(self).state(),
            final(self).parts() == (TetherInner { io: *final(io), ..old(self).parts() }),
    {
        &mut self.inner.io
    }

    /// Constructs a tether from an existing I/O source.
    ///
    /// Data of failed writes is kept, and a failure that is not retried is returned to the caller,
    /// whichever operation met it; see [`Tether::with_config`] for other choices.
    ///
    /// # Warning
    ///
    /// The resolver's `established` method is not invoked.
    pub fn new(connector: C, io: C::Output, resolver: R) -> (tether: Self)
        ensures
            tether.wf(),
            tether.state() is Connected,
            tether.parts().connector == connector,
            tether.parts().resolver == resolver,
            tether.link() == Link::fresh(io),
    {
        Self::new_with_context(connector, io, resolver, Context::default())
    }

    /// Constructs a tether whose connection was established after the attempts that `context`
    /// counts in all; none of them is pending.
    pub fn new_with_context(connector: C, io: C::Output, resolver: R, context: Context) -> (tether:
        Self)
        requires
            context@.wf(),
            context@.current == 0,
        ensures
            tether.wf(),
            tether.state() is Connected,
            tether.parts().connector == connector,
            tether.parts().resolver == resolver,
            tether.parts().context == context,
            tether.link() == (Link { context: context@, ..Link::fresh(io) }),
    {
        Self {
            state: State::default(),
            inner: TetherInner {
                context,
                io,
                resolver,
                connector,
                config: Config {
                    keep_data_on_failed_write: true,
                    error_propegation_on_no_retry: ErrorPropagation::All,
                },
                last_write: None,
            },
        }
    }

    /// The same tether under another configuration.
    pub fn with_config(self, config: Config) -> (tether: Self)
        requires
            self.wf(),
            self.parts().last_write is None,
        ensures
            tether.wf(),
            tether.state() == self.state(),
            tether.parts() == (TetherInner { config, ..self.parts() }),
    {
        Self { state: self.state, inner: TetherInner { config, ..self.inner } }
    }

    /// Consumes the tether, and returns the underlying I/O object.
    #[inline]
    pub fn into_inner(self) -> (io: C::Output)
        ensures
            io == self.parts().io,
    {
        self.inner.io
    }

    /// Enters the state in which the I/O object is used.
    pub fn set_connected(&mut self)
        requires
            old(self).wf(),
        ensures
            final(self).wf(),
            final(self).link() == old(self).link().connected(),
            final(self).parts().connector == old(self).parts().connector,
            final(self).parts().resolver == old(self).parts().resolver,
    {
        self.state = State::Connected;
        self.inner.context.reset();
    }

    /// Takes up the new I/O object, and tells the resolver of it.
    pub fn set_reconnected(&mut self, io: C::Output)
        requires
            old(self).wf(),
        ensures
            final(self).wf(),
            final(self).link() == (Link { phase: Phase::Reconnected, io, ..old(self).link() }),
            final(self).parts().context == old(self).parts().context,
            final(self).parts().connector == old(self).parts().connector,
            exists|resolver: &mut R| #![auto]
                {
                    &&& old(self).tells(*final(self), resolver)
                    &&& *final(resolver) == final(self).parts().resolver
                },
    {
        self.inner.io = io;
        let notifying = self.inner.reconnected();
        self.state = State::Reconnected(notifying);
    }

    /// Has the connector seek a new connection.
    pub fn set_reconnecting(&mut self)
        requires
            old(self).wf(),
        ensures
            final(self).wf(),
            final(self).link() == old(self).link().reconnecting(),
            final(self).parts().context == old(self).parts().context,
            final(self).parts().resolver == old(self).parts().resolver,
            exists|connector: &mut C| #![auto]
                {
                    &&& old(self).seeks(*final(self), connector)
                    &&& *final(connector) == final(self).parts().connector
                },
    {
        let connecting = self.inner.connector.reconnect();
        self.state = State::Reconnecting(connecting);
    }

    /// Records a failure, and asks the resolver about it.
    pub fn set_disconnected(&mut self, reason: Reason, source: Source)
        requires
            old(self).wf(),
        ensures
            final(self).wf(),
            final(self).link() == old(self).link().failed(reason, source),
            exists|resolver: &mut R, connector: &mut C| #![auto]
                {
                    &&& old(self).asks(*final(self), resolver, connector)
                    &&& *final(resolver) == final(self).parts().resolver
                    &&& *final(connector) == final(self).parts().connector
                },
    {
        self.inner.context.set_reason(reason, source);
        let deciding = self.inner.disconnected();
        let ghost answer = deciding;
        self.state = State::Disconnected(deciding);
        assert(self.state()->Disconnected_0 == answer);
    }

    /// Whether the data of a failed write is kept.
    pub(crate) fn keeps_data(&self) -> (keeps: bool)
        ensures
            keeps == self.parts().config.keep_data_on_failed_write,
    {
        self.inner.config.keep_data_on_failed_write
    }

    /// Takes the failure of a write whose data was dropped out of the tether.
    pub(crate) fn take_last_write(&mut self) -> (reason: Option<Reason>)
        ensures
            reason == old(self).parts().last_write,
            final(self).state() == old(self).state(),
            final(self).parts() == (TetherInner { last_write: None, ..old(self).parts() }),
            reason is None ==> *final(self) == *old(self),
    {
        self.inner.last_write.take()
    }

    /// Keeps the failure of a write whose data is dropped.
    pub(crate) fn set_last_write(&mut self, reason: Reason)
        ensures
            final(self).state() == old(self).state(),
            final(self).parts() == (TetherInner { last_write: Some(reason), ..old(self).parts() }),
    {
        self.inner.last_write = Some(reason);
    }

    /// Whether a failure was handed to a caller, which ends the tether's use: nobody can be told
    /// again why the connection was lost, and the future that decided is used up.
    pub fn is_exhausted(&self) -> (exhausted: bool)
        ensures
            exhausted == (self.state() is Disconnected && self.link().context.reason is None),
    {
        match self.state {
            State::Disconnected(_) => !self.inner.context.has_reason(),
            _ => false,
        }
    }

    /// Goes on from a disconnect with what the resolver decided about it.
    ///
    /// `default` is the answer to a caller who is not told of the failure.
    pub fn resolve_disconnected<T>(&mut self, decided: Poll<Action>, default: T) -> (step: Poll<
        ControlFlow<T>,
    >) where Reason: IoInto<T>
        requires
            old(self).wf(),
            old(self).state() is Disconnected,
        ensures
            step == match decided {
                Poll::Pending => Poll::Pending,
                Poll::Ready(Action::Exhaust) => Poll::Ready(
                    ControlFlow::Break(old(self).link().answer(default)),
                ),
                Poll::Ready(_) => Poll::Ready(ControlFlow::Continue(())),
            },
            final(self).link() == match decided {
                Poll::Pending => old(self).link(),
                Poll::Ready(Action::AttemptReconnect) => old(self).link().reconnecting(),
                Poll::Ready(Action::Exhaust) => old(self).link().exhausted(),
                Poll::Ready(Action::Ignore) => old(self).link().connected(),
            },
            decided != Poll::Ready(Action::Exhaust) ==> final(self).wf(),
            decided == Poll::<Action>::Pending ==> *final(self) == *old(self),
            decided == Poll::Ready(Action::Exhaust) ==> final(self).state() == old(self).state(),
            decided != Poll::Ready(Action::AttemptReconnect) ==> final(self).parts().connector
                == old(self).parts().connector,
            final(self).parts().resolver == old(self).parts().resolver,
            decided == Poll::Ready(Action::AttemptReconnect) ==> exists|connector: &mut C| #![auto]
                {
                    &&& old(self).seeks(*final(self), connector)
                    &&& *final(connector) == final(self).parts().connector
                },
    {
        match decided {
            Poll::Pending => Poll::Pending,
            Poll::Ready(Action::AttemptReconnect) => {
                self.set_reconnecting();
                Poll::Ready(ControlFlow::Continue(()))
            },
            Poll::Ready(Action::Exhaust) => {
                let (reason, source) = self.inner.context.take_reason();
                let answer = if self.inner.config.error_propegation_on_no_retry.propagates(source) {
                    reason.io_into()
                } else {
                    default
                };
                Poll::Ready(ControlFlow::Break(answer))
            },
            Poll::Ready(Action::Ignore) => {
                self.set_connected();
                Poll::Ready(ControlFlow::Continue(()))
            },
        }
    }

    /// Goes on from an attempt to reconnect with its result.
    pub fn resolve_reconnecting(&mut self, connected: Poll<Result<C::Output, Error>>) -> (step:
        Poll<()>)
        requires
            old(self).wf(),
            old(self).state() is Reconnecting,
            connected is Ready ==> old(self).link().context.total < usize::MAX,
        ensures
            final(self).wf(),
            step == match connected {
                Poll::Pending => Poll::Pending,
                Poll::Ready(_) => Poll::Ready(()),
            },
            final(self).link() == match connected {
                Poll::Pending => old(self).link(),
                Poll::Ready(result) => old(self).link().attempted(result),
            },
            match connected {
                Poll::Pending => *final(self) == *old(self),
                Poll::Ready(Ok(_)) => {
                    &&& final(self).parts().connector == old(self).parts().connector
                    &&& exists|resolver: &mut R| #![auto]
                        {
                            &&& old(self).tells(*final(self), resolver)
                            &&& *final(resolver) == final(self).parts().resolver
                        }
                },
                Poll::Ready(Err(_)) => {
                    exists|resolver: &mut R, connector: &mut C| #![auto]
                        {
                            &&& old(self).asks(*final(self), resolver, connector)
                            &&& *final(resolver) == final(self).parts().resolver
                            &&& *final(connector) == final(self).parts().connector
                        }
                },
            },
    {
        match connected {
            Poll::Pending => Poll::Pending,
            Poll::Ready(result) => {
                self.inner.context.increment_attempts();
                match result {
                    Ok(io) => self.set_reconnected(io),
                    Err(error) => self.set_disconnected(Reason::Error(error), Source::Reconnect),
                }
                Poll::Ready(())
            },
        }
    }

    /// Goes on once the resolver has taken note of the new connection.
    pub fn resolve_reconnected(&mut self, notified: Poll<()>) -> (step: Poll<()>)
        requires
            old(self).wf(),
            old(self).state() is Reconnected,
        ensures
            final(self).wf(),
            step == notified,
            final(self).link() == match notified {
                Poll::Pending => old(self).link(),
                Poll::Ready(_) => old(self).link().connected(),
            },
            final(self).parts().connector == old(self).parts().connector,
            final(self).parts().resolver == old(self).parts().resolver,
            notified == Poll::<()>::Pending ==> *final(self) == *old(self),
    {
        match notified {
            Poll::Pending => Poll::Pending,
            Poll::Ready(done) => {
                self.set_connected();
                Poll::Ready(done)
            },
        }
    }
}

} // verus!
