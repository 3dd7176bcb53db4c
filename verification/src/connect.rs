//! The initial connection: connecting, asking the resolver about failures, and handing out the
//! tether.
//!
//! Each type is a point at which a future has to be awaited. Its method takes what the future
//! yielded, and leads to the next point.
use crate::context::{Context, ContextView};
use crate::link::Link;
use crate::reason::{Reason, Source};
use crate::resolver::{Io, Resolver};
use crate::tether::Tether;
use std::io::Error;
use vstd::prelude::*;
use vstd::std_specs::convert::FromSpec;

verus! {

/// Connecting: the connector's future has to be awaited.
pub struct Attempt<C: Io, R: Resolver<C>> {
    pub connector: C,
    pub resolver: R,
    pub context: Context,
}

/// The connection failed: the resolver's decision has to be awaited.
pub struct Unreached<C: Io, R: Resolver<C>> {
    pub connector: C,
    pub resolver: R,
    pub context: Context,
}

/// The connection was made: the resolver has to take note of it.
pub struct Established<C: Io, R: Resolver<C>> {
    pub connector: C,
    pub resolver: R,
    pub context: Context,
    pub io: C::Output,
}

/// Where an attempt to connect leads, with the future to await there.
pub enum Progress<C: Io, R: Resolver<C>> {
    Established(Established<C, R>, Option<R::Notifying>),
    Unreached(Unreached<C, R>, R::Deciding),
}

impl<C: Io, R: Resolver<C>> Attempt<C, R> {
    /// The attempts are counted consistently.
    pub open spec fn wf(self) -> bool {
        self.context@.wf()
    }

    /// From here to `after`, the resolver is told of the connection `io`, through this reference to
    /// it, and nothing else changes.
    #[verifier::inline]
    pub open spec fn tells(
        self,
        after: Established<C, R>,
        io: C::Output,
        notifying: Option<R::Notifying>,
        resolver: &mut R,
    ) -> bool {
        &&& after.io == io
        &&& after.context == self.context
        &&& after.connector == self.connector
        &&& *resolver == self.resolver
        &&& call_ensures(R::established, (resolver, &self.context), notifying)
    }

    /// Starts to connect.
    pub fn start(connector: C, resolver: R) -> (started: (Self, C::Connecting))
        ensures
            started.0.wf(),
            started.0.resolver == resolver,
            started.0.context@ == ContextView::fresh(),
            exists|called: &mut C| #![auto]
                {
                    &&& *called == connector
                    &&& *final(called) == started.0.connector
                    &&& call_ensures(C::connect, (called,), started.1)
                },
    {
        let mut connector = connector;
        let connecting = connector.connect();
        (Attempt { connector, resolver, context: Context::default() }, connecting)
    }

    /// Goes on with the result of connecting. A failure is put to the resolver.
    pub fn resolve(self, connected: Result<C::Output, Error>) -> (progress: Progress<C, R>)
        requires
            self.wf(),
        ensures
            connected matches Ok(io) ==> {
                &&& progress matches Progress::Established(established, notifying)
                &&& established.wf()
                &&& exists|resolver: &mut R| #![auto]
                    {
                        &&& self.tells(established, io, notifying, resolver)
                        &&& *final(resolver) == established.resolver
                    }
            },
            connected matches Err(error) ==> {
                &&& progress matches Progress::Unreached(unreached, deciding)
                &&& unreached.wf()
                &&& unreached.context@ == self.context@.failed(
                    Reason::Error(error),
                    Source::Reconnect,
                )
                &&& exists|resolver: &mut R, connector: &mut C, answer: R::Deciding| #![auto]
                    {
                        &&& *resolver == self.resolver
                        &&& *connector == self.connector
                        &&& *final(resolver) == unreached.resolver
                        &&& *final(connector) == unreached.connector
                        &&& deciding == answer
                        &&& call_ensures(
                            R::unreachable,
                            (resolver, &unreached.context, connector),
                            answer,
                        )
                    }
            },
    {
        match connected {
            Ok(io) => {
                let (established, notifying) = self.establish(io);
                Progress::Established(established, notifying)
            },
            Err(error) => {
                let (unreached, deciding) = self.fail(error);
                Progress::Unreached(unreached, deciding)
            },
        }
    }

    /// Goes on with the result of connecting. A failure is returned to the caller along with the
    /// attempt as it was: nobody is asked about it, and nothing is connected again.
    pub fn resolve_without_retry(self, connected: Result<C::Output, Error>) -> (established: Result<
        (Established<C, R>, Option<R::Notifying>),
        (Self, Error),
    >)
        requires
            self.wf(),
        ensures
            match (connected, established) {
                (Ok(io), Ok((established, notifying))) => {
                    &&& established.wf()
                    &&& exists|resolver: &mut R| #![auto]
                        {
                            &&& self.tells(established, io, notifying, resolver)
                            &&& *final(resolver) == established.resolver
                        }
                },
                (Err(error), Err((attempt, returned))) => {
                    &&& attempt == self
                    &&& returned == error
                },
                _ => false,
            },
    {
        match connected {
            Ok(io) => Ok(self.establish(io)),
            Err(error) => Err((self, error)),
        }
    }

    /// Asks the resolver about a failure to connect.
    fn fail(self, error: Error) -> (unreached: (Unreached<C, R>, R::Deciding))
        requires
            self.wf(),
        ensures
            unreached.0.wf(),
            unreached.0.context@ == self.context@.failed(Reason::Error(error), Source::Reconnect),
            exists|resolver: &mut R, connector: &mut C, deciding: R::Deciding| #![auto]
                {
                    &&& *resolver == self.resolver
                    &&& *connector == self.connector
                    &&& *final(resolver) == unreached.0.resolver
                    &&& *final(connector) == unreached.0.connector
                    &&& unreached.1 == deciding
                    &&& call_ensures(
                        R::unreachable,
                        (resolver, &unreached.0.context, connector),
                        deciding,
                    )
                },
    {
        let Attempt { mut connector, mut resolver, mut context } = self;
        context.set_reason(Reason::Error(error), Source::Reconnect);
        let deciding = resolver.unreachable(&context, &mut connector);
        (Unreached { connector, resolver, context }, deciding)
    }

    /// Tells the resolver that the connection was made.
    fn establish(self, io: C::Output) -> (established: (Established<C, R>, Option<R::Notifying>))
        requires
            self.wf(),
        ensures
            established.0.wf(),
            exists|resolver: &mut R| #![auto]
                {
                    &&& self.tells(established.0, io, established.1, resolver)
                    &&& *final(resolver) == established.0.resolver
                },
    {
        let Attempt { connector, mut resolver, context } = self;
        let notifying = resolver.established(&context);
        (Established { connector, resolver, context, io }, notifying)
    }
}

impl<C: Io, R: Resolver<C>> Unreached<C, R> {
    /// The resolver can be told what failed.
    pub open spec fn wf(self) -> bool {
        &&& self.context@.wf()
        &&& self.context@.reason is Some
    }

    /// Goes on with the resolver's decision: connects again, or returns what failed along with the
    /// connector and the resolver, on which nothing more is called.
    pub fn resolve(self, retry: bool) -> (connecting: Result<
        (Attempt<C, R>, C::Connecting),
        (C, R, Error),
    >)
        requires
            self.wf(),
            retry ==> self.context@.total < usize::MAX,
        ensures
            match connecting {
                Ok((attempt, connecting)) => {
                    &&& retry
                    &&& attempt.wf()
                    &&& attempt.context@ == self.context@.attempted()
                    &&& attempt.resolver == self.resolver
                    &&& exists|connector: &mut C| #![auto]
                        {
                            &&& *connector == self.connector
                            &&& *final(connector) == attempt.connector
                            &&& call_ensures(C::connect, (connector,), connecting)
                        }
                },
                Err((connector, resolver, error)) => {
                    &&& !retry
                    &&& connector == self.connector
                    &&& resolver == self.resolver
                    &&& error == Error::from_spec((self.context@.reason->0).0)
                    &&& self.context@.reason matches Some((Reason::Error(own), _)) ==> error == own
                },
            },
    {
        let Unreached { mut connector, resolver, mut context } = self;
        if !retry {
            let (reason, _) = context.take_reason();
            return Err((connector, resolver, Error::from(reason)));
        }
        context.increment_attempts();
        let connecting = connector.connect();
        Ok((Attempt { connector, resolver, context }, connecting))
    }
}

impl<C: Io, R: Resolver<C>> Established<C, R> {
    /// The attempts are counted consistently.
    pub open spec fn wf(self) -> bool {
        self.context@.wf()
    }

    /// Hands out the tether, once the resolver has taken note of the connection.
    pub fn finish(self) -> (tether: Tether<C, R>)
        requires
            self.wf(),
        ensures
            tether.wf(),
            tether.state() is Connected,
            tether.parts().connector == self.connector,
            tether.parts().resolver == self.resolver,
            tether.link() == (Link {
                context: self.context@.established(),
                ..Link::fresh(self.io)
            }),
    {
        let Established { connector, resolver, mut context, io } = self;
        context.reset();
        Tether::new_with_context(connector, io, resolver, context)
    }
}

} // verus!
