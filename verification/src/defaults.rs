//! What the methods with a default do where they are left to it.
use crate::context::Context;
use crate::resolver::{Io, Resolver};
use vstd::prelude::*;

verus! {

/// A connector or a resolver that is left to the defaults: what has none is done by the one inside.
pub struct Defaults<T>(pub T);

impl<C: Io> Io for Defaults<C> {
    type Output = C::Output;

    type Connecting = C::Connecting;

    fn connect(&mut self) -> (connecting: C::Connecting)
        ensures
            exists|inside: &mut C| #![auto]
                {
                    &&& *inside == old(self).0
                    &&& *final(inside) == final(self).0
                    &&& call_ensures(C::connect, (inside,), connecting)
                },
    {
        self.0.connect()
    }
}

impl<C, R: Resolver<C>> Resolver<C> for Defaults<R> {
    type Deciding = R::Deciding;

    type Notifying = R::Notifying;

    fn disconnected(&mut self, context: &Context, connector: &mut C) -> (deciding: R::Deciding)
        ensures
            exists|inside: &mut R, same: &mut C| #![auto]
                {
                    &&& *inside == old(self).0
                    &&& *same == *old(connector)
                    &&& *final(inside) == final(self).0
                    &&& *final(same) == *final(connector)
                    &&& call_ensures(R::disconnected, (inside, context, same), deciding)
                },
    {
        self.0.disconnected(context, connector)
    }
}

/// By default, reconnecting is connecting, once.
pub proof fn law_reconnecting_is_connecting_by_default<C: Io>(
    earlier: Defaults<C>,
    later: Defaults<C>,
    connecting: C::Connecting,
)
    requires
        exists|io: &mut Defaults<C>| #![auto]
            {
                &&& *io == earlier
                &&& *final(io) == later
                &&& call_ensures(<Defaults<C> as Io>::reconnect, (io,), connecting)
            },
    ensures
        exists|inside: &mut C| #![auto]
            {
                &&& *inside == earlier.0
                &&& *final(inside) == later.0
                &&& call_ensures(C::connect, (inside,), connecting)
            },
{
}

/// By default, a failure to connect is put to the resolver as a disconnect is, once and with the
/// same context and connector.
pub proof fn law_unreachable_is_disconnected_by_default<C, R: Resolver<C>>(
    earlier: Defaults<R>,
    later: Defaults<R>,
    context: &Context,
    given: C,
    left: C,
    deciding: R::Deciding,
)
    requires
        exists|resolver: &mut Defaults<R>, connector: &mut C| #![auto]
            {
                &&& *resolver == earlier
                &&& *final(resolver) == later
                &&& *connector == given
                &&& *final(connector) == left
                &&& call_ensures(
                    <Defaults<R> as Resolver<C>>::unreachable,
                    (resolver, context, connector),
                    deciding,
                )
            },
    ensures
        exists|inside: &mut R, connector: &mut C| #![auto]
            {
                &&& *inside == earlier.0
                &&& *final(inside) == later.0
                &&& *connector == given
                &&& *final(connector) == left
                &&& call_ensures(R::disconnected, (inside, context, connector), deciding)
            },
{
}

/// By default, nothing is done about a connection that is made or made again: the resolver stays as
/// it is, and there is nothing to wait for.
pub proof fn law_connections_are_not_noted_by_default<C, R: Resolver<C>>(
    earlier: Defaults<R>,
    later: Defaults<R>,
    context: &Context,
    notifying: Option<R::Notifying>,
)
    requires
        exists|resolver: &mut Defaults<R>| #![auto]
            {
                &&& *resolver == earlier
                &&& *final(resolver) == later
                &&& {
                    ||| call_ensures(
                        <Defaults<R> as Resolver<C>>::established,
                        (resolver, context),
                        notifying,
                    )
                    ||| call_ensures(
                        <Defaults<R> as Resolver<C>>::reconnected,
                        (resolver, context),
                        notifying,
                    )
                }
            },
    ensures
        notifying is None,
        later == earlier,
{
}

} // verus!
