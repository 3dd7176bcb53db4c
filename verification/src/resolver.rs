//! The traits that users of the crate implement: where connections come from, and who decides
//! whether a lost one is sought again.
use crate::context::Context;
use std::future::Future;
use std::io::Error;
use vstd::prelude::*;

verus! {

/// An I/O source capable of reconnecting.
pub trait Io: Sized {
    /// The connected object.
    type Output;

    /// The future that yields a connected object, or the error that prevented it.
    type Connecting: Future<Output = Result<Self::Output, Error>>;

    /// Initializes the connection to the I/O source.
    fn connect(&mut self) -> Self::Connecting;

    /// Re-establishes the connection to the I/O source.
    ///
    /// Defaults to invoking [`Self::connect`].
    fn reconnect(&mut self) -> (connecting: Self::Connecting)
        default_ensures
            exists|io: &mut Self| #![auto]
                {
                    &&& *io == *old(self)
                    &&& *final(io) == *final(self)
                    &&& call_ensures(Self::connect, (io,), connecting)
                },
    {
        self.connect()
    }
}

/// A type which drives reconnects.
///
/// The futures are the implementor's own: they are awaited by the code that polls the tether, so
/// sleeping or sending a message from within them is fine. The methods are invoked each time the
/// I/O fails to establish a connection.
pub trait Resolver<C>: Sized {
    /// The future that answers whether to retry.
    type Deciding: Future<Output = bool>;

    /// The future that completes when an established connection has been taken note of.
    type Notifying: Future<Output = ()>;

    /// Invoked when an error or a disconnect is encountered.
    ///
    /// The answer `true` results in a reconnect being attempted with [`Io::reconnect`], the answer
    /// `false` in the error being returned from the originating call.
    ///
    /// The context tells the reason.
    fn disconnected(&mut self, context: &Context, connector: &mut C) -> Self::Deciding
        requires
            context@.wf(),
            context@.reason is Some,
    ;

    /// Invoked when the initial attempt to connect fails; the answer determines whether it is
    /// retried.
    ///
    /// Defaults to invoking [`Self::disconnected`].
    fn unreachable(&mut self, context: &Context, connector: &mut C) -> (deciding: Self::Deciding)
        requires
            context@.wf(),
            context@.reason is Some,
        default_ensures
            exists|resolver: &mut Self, same: &mut C| #![auto]
                {
                    &&& *resolver == *old(self)
                    &&& *same == *old(connector)
                    &&& *final(resolver) == *final(self)
                    &&& *final(same) == *final(connector)
                    &&& call_ensures(Self::disconnected, (resolver, context, same), deciding)
                },
    {
        self.disconnected(context, connector)
    }

    /// Invoked when the initial attempt to connect succeeds. `None` means that there is nothing to
    /// wait for.
    ///
    /// Defaults to invoking [`Self::reconnected`].
    fn established(&mut self, context: &Context) -> (notifying: Option<Self::Notifying>)
        requires
            context@.wf(),
        default_ensures
            exists|resolver: &mut Self| #![auto]
                {
                    &&& *resolver == *old(self)
                    &&& *final(resolver) == *final(self)
                    &&& call_ensures(Self::reconnected, (resolver, context), notifying)
                },
    {
        self.reconnected(context)
    }

    /// Invoked whenever the connection to the underlying I/O source has been re-established.
    /// `None` means that there is nothing to wait for.
    ///
    /// Defaults to leaving the resolver as it is and waiting for nothing.
    fn reconnected(&mut self, _context: &Context) -> (notifying: Option<Self::Notifying>)
        requires
            _context@.wf(),
        default_ensures
            notifying is None,
            *final(self) == *old(self),
    {
        None
    }
}

/// What to do about a disconnect.
#[derive(Debug, Clone, Copy, PartialEq, Eq, Structural)]
pub enum Action {
    /// Seek a new connection.
    AttemptReconnect,
    /// Give up, and answer the caller.
    Exhaust,
    /// Go on with the I/O object as it is.
    Ignore,
}

/// A resolver's `true` asks for a reconnect, its `false` for giving up.
impl From<bool> for Action {
    fn from(retry: bool) -> (action: Self) {
        if retry {
            Action::AttemptReconnect
        } else {
            Action::Exhaust
        }
    }
}

impl vstd::std_specs::convert::FromSpecImpl<bool> for Action {
    open spec fn obeys_from_spec() -> bool {
        true
    }

    open spec fn from_spec(retry: bool) -> Self {
        if retry {
            Action::AttemptReconnect
        } else {
            Action::Exhaust
        }
    }
}

} // verus!
