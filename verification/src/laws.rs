//! What holds of a tether over any number of events.
use crate::config::ErrorPropagation;
use crate::context::ContextView;
use crate::implementations::{read_outcome, step_on, write_outcome, write_step_on};
use crate::link::{asked, attempts, Event, Link};
use crate::reason::{IoInto, Reason, Source};
use crate::resolver::{Action, Io, Resolver};
use crate::tether::Tether;
use std::io::Error;
use std::ops::ControlFlow;
use std::task::Poll;
use vstd::prelude::*;

verus! {

/// Whatever happens, a well-formed link stays well-formed until a failure is handed to a caller
/// because no retry is wanted.
pub proof fn law_links_stay_well_formed<T>(link: Link<T>, events: Seq<Event<T>>)
    requires
        link.wf(),
        link.admits(events),
        events.len() > 0 ==> events.last() != Event::<T>::Decided(Action::Exhaust),
    ensures
        link.run(events).wf(),
    decreases events.len(),
{
    if events.len() > 0 {
        let before = events.drop_last();
        if before.len() > 0 && before.last() == Event::<T>::Decided(Action::Exhaust) {
            law_exhausted_links_are_done(link, before, events.last());
        }
        law_links_stay_well_formed(link, before);
    }
}

/// Once a failure was handed to a caller because no retry is wanted, nothing more can happen.
pub proof fn law_exhausted_links_are_done<T>(link: Link<T>, events: Seq<Event<T>>, next: Event<T>)
    requires
        link.admits(events),
        events.len() > 0,
        events.last() == Event::<T>::Decided(Action::Exhaust),
    ensures
        !link.run(events).enabled(next),
{
}

/// The total number of attempts grows by one with each attempt to reconnect, and by nothing else.
pub proof fn law_total_counts_attempts<T>(link: Link<T>, events: Seq<Event<T>>)
    ensures
        link.run(events).context.total == link.context.total + attempts(events),
    decreases events.len(),
{
    if events.len() > 0 {
        law_total_counts_attempts(link, events.drop_last());
    }
}

/// The number of attempts since the last connection starts anew each time the connection is
/// established.
pub proof fn law_current_counts_attempts_since_established<T>(
    link: Link<T>,
    before: Seq<Event<T>>,
    established: Event<T>,
    after: Seq<Event<T>>,
)
    requires
        established.establishes(),
        forall|i: int| 0 <= i < after.len() ==> !(#[trigger] after[i]).establishes(),
    ensures
        link.run(before.push(established) + after).context.current == attempts(after),
    decreases after.len(),
{
    let all = before.push(established) + after;
    if after.len() == 0 {
        assert(all =~= before.push(established));
        assert(all.drop_last() =~= before);
    } else {
        assert(all.drop_last() =~= before.push(established) + after.drop_last());
        assert(all.last() == after.last());
        law_current_counts_attempts_since_established(
            link,
            before,
            established,
            after.drop_last(),
        );
    }
}

/// The I/O object is the one that the latest successful attempt brought, as it was last used since
/// then: whichever of the two came last says what it is, and nothing else changes it.
pub proof fn law_io_object_is_the_latest<T>(
    link: Link<T>,
    before: Seq<Event<T>>,
    latest: Event<T>,
    after: Seq<Event<T>>,
)
    requires
        latest.leaves() is Some,
        forall|i: int| 0 <= i < after.len() ==> (#[trigger] after[i]).leaves() is None,
    ensures
        Some(link.run(before.push(latest) + after).io) == latest.leaves(),
{
    law_io_object_is_kept(link.run(before.push(latest)), after);
    lemma_run_in_two_parts(link, before.push(latest), after);
    assert(before.push(latest).drop_last() =~= before);
}

/// Without a successful attempt and without being used, the I/O object stays as it is.
pub proof fn law_io_object_is_kept<T>(link: Link<T>, events: Seq<Event<T>>)
    requires
        forall|i: int| 0 <= i < events.len() ==> (#[trigger] events[i]).leaves() is None,
    ensures
        link.run(events).io == link.io,
    decreases events.len(),
{
    if events.len() > 0 {
        law_io_object_is_kept(link, events.drop_last());
        assert(events[events.len() - 1].leaves() is None);
    }
}

/// Running through events one part after the other makes no difference.
proof fn lemma_run_in_two_parts<T>(link: Link<T>, first: Seq<Event<T>>, second: Seq<Event<T>>)
    ensures
        link.run(first + second) == link.run(first).run(second),
    decreases second.len(),
{
    let all = first + second;
    if second.len() == 0 {
        assert(all =~= first);
    } else {
        assert(all.drop_last() =~= first + second.drop_last());
        lemma_run_in_two_parts(link, first, second.drop_last());
    }
}

/// Where the resolver is asked, it is told what just failed.
pub proof fn law_resolver_is_told_the_reason<T>(link: Link<T>, event: Event<T>)
    requires
        link.enabled(event),
        event.asks(),
    ensures
        link.step(event).context.reason == match event {
            Event::Failed(reason) => Some((reason, Source::Io)),
            Event::Attempted(Err(error)) => Some((Reason::Error(error), Source::Reconnect)),
            _ => Some((link.last_write->0, Source::Io)),
        },
{
}

/// Each time the resolver is asked, the total number of attempts that it is told is the one at the
/// start plus the number of times it was asked before: the first time it is the one at the start,
/// and each subsequent time it is one more. This is so as long as no disconnect is ignored, since
/// an ignored one leads to no attempt.
pub proof fn law_resolver_is_told_one_more_each_time<T>(link: Link<T>, events: Seq<Event<T>>)
    requires
        link.phase is Connected,
        link.admits(events),
        events.len() > 0,
        events.last().asks(),
        forall|i: int|
            0 <= i < events.len() ==> #[trigger] events[i] != Event::<T>::Decided(Action::Ignore),
    ensures
        link.run(events).context.total == link.context.total + asked(events.drop_last()),
{
    lemma_total_follows_asked(link, events.drop_last());
}

/// Between the question and the end of the attempt that it leads to, the total is one behind.
proof fn lemma_total_follows_asked<T>(link: Link<T>, events: Seq<Event<T>>)
    requires
        link.phase is Connected,
        link.admits(events),
        forall|i: int|
            0 <= i < events.len() ==> #[trigger] events[i] != Event::<T>::Decided(Action::Ignore),
    ensures
        ({
            let now = link.run(events);
            let behind: nat = if now.phase is Disconnected || now.phase is Reconnecting {
                1
            } else {
                0
            };
            now.context.total + behind == link.context.total + asked(events)
        }),
    decreases events.len(),
{
    if events.len() > 0 {
        lemma_total_follows_asked(link, events.drop_last());
        assert(events.last() == events[events.len() - 1]);
    }
}

/// Attempts to reconnect that end with the given errors, each wanted by the resolver.
pub open spec fn failed_attempts<T>(errors: Seq<Error>) -> Seq<Event<T>>
    decreases errors.len(),
{
    if errors.len() == 0 {
        Seq::empty()
    } else {
        failed_attempts(errors.drop_last()).push(Event::Decided(Action::AttemptReconnect)).push(
            Event::Attempted(Err(errors.last())),
        )
    }
}

/// Attempts to reconnect that fail leave the link disconnected, with the latest error as the
/// reason, and change nothing but the counts besides.
pub proof fn law_failed_attempts_leave_the_latest_error<T>(link: Link<T>, errors: Seq<Error>)
    requires
        link.phase is Disconnected,
        link.context.reason is Some,
    ensures
        link.admits(failed_attempts(errors)),
        link.run(failed_attempts(errors)) == (Link {
            context: ContextView {
                total: link.context.total + errors.len(),
                current: link.context.current + errors.len(),
                reason: if errors.len() == 0 {
                    link.context.reason
                } else {
                    Some((Reason::Error(errors.last()), Source::Reconnect))
                },
            },
            ..link
        }),
    decreases errors.len(),
{
    if errors.len() > 0 {
        law_failed_attempts_leave_the_latest_error(link, errors.drop_last());
        let earlier = failed_attempts::<T>(errors.drop_last());
        let wanted = earlier.push(Event::Decided(Action::AttemptReconnect));
        let all = failed_attempts::<T>(errors);
        assert(all.drop_last() =~= wanted);
        assert(wanted.drop_last() =~= earlier);
        assert(link.admits(wanted));
        assert(link.run(wanted) == link.run(earlier).reconnecting());
    }
}

/// A resolver that keeps wanting a reconnect gets the connection back as soon as an attempt
/// succeeds, whatever failed before: the new I/O object is in use, no attempt is pending, each
/// attempt was counted, and the configuration is the same.
pub proof fn law_reconnecting_restores_the_link<T>(link: Link<T>, errors: Seq<Error>, io: T)
    requires
        link.phase is Disconnected,
        link.context.reason is Some,
    ensures
        ({
            let events = failed_attempts(errors).push(
                Event::Decided(Action::AttemptReconnect),
            ).push(Event::Attempted(Ok(io))).push(Event::Notified);
            let now = link.run(events);
            &&& link.admits(events)
            &&& now.phase is Connected
            &&& now.io == io
            &&& now.context.total == link.context.total + errors.len() + 1
            &&& now.context.current == 0
            &&& now.config == link.config
            &&& now.last_write == link.last_write
        }),
{
    law_failed_attempts_leave_the_latest_error(link, errors);
    let failed = failed_attempts::<T>(errors);
    let wanted = failed.push(Event::Decided(Action::AttemptReconnect));
    let attempted = wanted.push(Event::Attempted(Ok(io)));
    let events = attempted.push(Event::Notified);
    assert(events.drop_last() =~= attempted);
    assert(attempted.drop_last() =~= wanted);
    assert(wanted.drop_last() =~= failed);
    assert(link.admits(wanted));
    assert(link.run(wanted) == link.run(failed).reconnecting());
    assert(link.admits(attempted));
}

/// The connector that the resolver was given, as the resolver left it, is the one that seeks the
/// new connection; and as that leaves it, it is the connector of the tether from then on, as long
/// as the connector is kept. So a resolver can have the next attempt made elsewhere.
pub proof fn law_resolver_changes_the_connector_that_reconnects<C: Io, R: Resolver<C>>(
    connected: Tether<C, R>,
    disconnected: Tether<C, R>,
    reconnecting: Tether<C, R>,
    restored: Tether<C, R>,
)
    requires
        restored.parts().connector == reconnecting.parts().connector,
    ensures
        forall|resolver: &mut R, given: &mut C, used: &mut C| #![auto]
            {
                &&& connected.asks(disconnected, resolver, given)
                &&& *final(given) == disconnected.parts().connector
                &&& disconnected.seeks(reconnecting, used)
                &&& *final(used) == reconnecting.parts().connector
            } ==> {
                &&& *used == *final(given)
                &&& restored.parts().connector == *final(used)
            },
{
}

/// The resolver of a tether is the very one that was called: as the latest call left it, or, as
/// long as there was no call, as it was at the start. Here step `i` leads from `tethers[i]` to
/// `tethers[i + 1]`, and `calls[i]` is the reference through which the resolver was called in it.
/// So each call finds the resolver as the call before left it.
pub proof fn law_resolver_is_as_the_latest_call_left_it<C: Io, R: Resolver<C>>(
    tethers: Seq<Tether<C, R>>,
    calls: Seq<Option<&mut R>>,
    now: int,
)
    requires
        tethers.len() == calls.len() + 1,
        0 <= now < tethers.len(),
        forall|i: int| #![trigger calls[i]]
            0 <= i < calls.len() && calls[i] is None ==> tethers[i + 1].parts().resolver
                == tethers[i].parts().resolver,
        forall|i: int| #![trigger calls[i]]
            0 <= i < calls.len() && calls[i] is Some ==> {
                let resolver = calls[i]->0;
                let after = tethers[i + 1];
                &&& {
                    ||| tethers[i].tells(after, resolver)
                    ||| exists|connector: &mut C| #![auto]
                        tethers[i].asks(after, resolver, connector)
                }
                &&& *final(resolver) == after.parts().resolver
            },
    ensures
        (forall|i: int| 0 <= i < now ==> #[trigger] calls[i] is None)
            ==> tethers[now].parts().resolver == tethers[0].parts().resolver,
        forall|latest: int|
            {
                &&& 0 <= latest < now
                &&& #[trigger] calls[latest] is Some
                &&& forall|i: int| latest < i < now ==> #[trigger] calls[i] is None
            } ==> tethers[now].parts().resolver == *final(calls[latest]->0),
        now < calls.len() && calls[now] is Some ==> *(calls[now]->0)
            == tethers[now].parts().resolver,
    decreases now,
{
    if now > 0 {
        law_resolver_is_as_the_latest_call_left_it(tethers, calls, now - 1);
    }
}

/// Ignoring a disconnect goes on with the same I/O object, and makes no attempt.
pub proof fn law_ignoring_keeps_the_io_object<T>(link: Link<T>, reason: Reason)
    requires
        link.wf(),
        link.phase is Connected,
    ensures
        ({
            let now = link.step(Event::Failed(reason)).step(Event::Decided(Action::Ignore));
            &&& now.phase is Connected
            &&& now.io == link.io
            &&& now.context.total == link.context.total
        }),
{
}

/// When the resolver answers that it wants no retry, the failure is returned from the originating
/// call, whichever operation met it, on a link that propagates all failures.
pub proof fn law_refused_retry_returns_the_failure<T, V>(
    link: Link<T>,
    reason: Reason,
    source: Source,
    default: V,
) where Reason: IoInto<V>
    requires
        link.config.error_propegation_on_no_retry == ErrorPropagation::All,
    ensures
        link.failed(reason, source).answer(default) == <Reason as IoInto<V>>::as_io(reason),
{
}

/// A link that propagates the failures of I/O operations returns such a failure, and keeps a
/// failure to reconnect from the caller.
pub proof fn law_io_propagation_hides_reconnect_failures<T, V>(
    link: Link<T>,
    reason: Reason,
    default: V,
) where Reason: IoInto<V>
    requires
        link.config.error_propegation_on_no_retry == ErrorPropagation::IoOperations,
    ensures
        link.failed(reason, Source::Io).answer(default) == <Reason as IoInto<V>>::as_io(reason),
        link.failed(reason, Source::Reconnect).answer(default) == default,
{
}

/// A link that propagates nothing never returns a failure.
pub proof fn law_no_propagation_hides_every_failure<T, V>(
    link: Link<T>,
    reason: Reason,
    source: Source,
    default: V,
) where Reason: IoInto<V>
    requires
        link.config.error_propegation_on_no_retry == ErrorPropagation::Never,
    ensures
        link.failed(reason, source).answer(default) == default,
{
}

/// After attempts to reconnect that failed, a link that propagates all failures returns the latest
/// error.
pub proof fn law_latest_error_is_returned<T, V>(
    link: Link<T>,
    errors: Seq<Error>,
    default: V,
) where Reason: IoInto<V>
    requires
        link.phase is Disconnected,
        link.context.reason is Some,
        link.config.error_propegation_on_no_retry == ErrorPropagation::All,
        errors.len() > 0,
    ensures
        link.run(failed_attempts(errors)).answer(default) == <Reason as IoInto<V>>::as_io(
            Reason::Error(errors.last()),
        ),
{
    law_failed_attempts_leave_the_latest_error(link, errors);
}

/// A write whose data is kept is only ever reported as done with the number of bytes that the I/O
/// object took, and never with 0.
pub proof fn law_kept_data_is_never_reported_as_written(
    polled: Poll<Result<usize, Error>>,
    len: usize,
    wrote: usize,
)
    requires
        write_step_on(write_outcome(polled), true, len) == Poll::Ready(
            ControlFlow::<Result<usize, Error>, ()>::Break(Ok(wrote)),
        ),
    ensures
        polled == Poll::Ready(Ok::<usize, Error>(wrote)),
        wrote != 0,
{
}

/// A write whose data is dropped on a failure never keeps the caller from going on: it is pending,
/// or done with what the I/O object took, or done with all of its data.
pub proof fn law_dropped_data_counts_as_written(polled: Poll<Result<usize, Error>>, len: usize)
    ensures
        write_step_on(write_outcome(polled), false, len) == match polled {
            Poll::Pending => Poll::Pending,
            Poll::Ready(Ok(wrote)) if wrote != 0 => Poll::Ready(
                ControlFlow::<Result<usize, Error>, ()>::Break(Ok(wrote)),
            ),
            Poll::Ready(_) => Poll::Ready(ControlFlow::Break(Ok(len))),
        },
{
}

/// The failure of a write whose data was dropped is put to the resolver with the next write, as if
/// that write had met it.
pub proof fn law_dropped_write_is_raised_by_the_next<T>(link: Link<T>, reason: Reason)
    requires
        link.enabled(Event::Dropped(reason)),
    ensures
        link.step(Event::Dropped(reason)).enabled(Event::Raised),
        link.step(Event::Dropped(reason)).step(Event::Raised) == link.step(Event::Failed(reason)),
{
}

/// A read only returns with data: one that brings none is a disconnect.
pub proof fn law_reads_return_with_data(
    polled: Poll<Result<(), Error>>,
    before: usize,
    after: usize,
    result: Result<(), Error>,
)
    requires
        step_on(read_outcome(polled, before, after)) == Poll::Ready(
            ControlFlow::<Result<(), Error>, ()>::Break(result),
        ),
    ensures
        result == Ok::<(), Error>(()),
        before < after,
{
}

/// Failures to connect, about each of which the resolver wanted a retry.
pub open spec fn after_failures(errors: Seq<Error>) -> ContextView
    decreases errors.len(),
{
    if errors.len() == 0 {
        ContextView::fresh()
    } else {
        after_failures(errors.drop_last()).failed(
            Reason::Error(errors.last()),
            Source::Reconnect,
        ).attempted()
    }
}

/// While the initial connection is sought, the resolver is told one more attempt each time it is
/// asked, starting with none: after `errors`, it has been asked as many times as there are errors.
pub proof fn law_initial_failures_are_counted(errors: Seq<Error>, next: Error)
    ensures
        after_failures(errors).failed(Reason::Error(next), Source::Reconnect).total == errors.len(),
        after_failures(errors).current == errors.len(),
    decreases errors.len(),
{
    if errors.len() > 0 {
        law_initial_failures_are_counted(errors.drop_last(), errors.last());
    }
}

/// The count goes on from the initial connection into the life of the tether: each time the
/// resolver is asked about a disconnect, it is told as many attempts as it was asked questions
/// before, about the initial connection and about disconnects taken together.
pub proof fn law_count_goes_on_after_connecting<T>(
    link: Link<T>,
    errors: Seq<Error>,
    events: Seq<Event<T>>,
)
    requires
        link.phase is Connected,
        link.context == after_failures(errors).established(),
        link.admits(events),
        events.len() > 0,
        events.last().asks(),
        forall|i: int|
            0 <= i < events.len() ==> #[trigger] events[i] != Event::<T>::Decided(Action::Ignore),
    ensures
        link.run(events).context.total == errors.len() + asked(events.drop_last()),
{
    if errors.len() > 0 {
        law_initial_failures_are_counted(errors, errors.last());
    }
    law_resolver_is_told_one_more_each_time(link, events);
}

} // verus!
