//! The model of a tether: what its methods change, as functions on mathematical values.
use crate::config::{Config, ErrorPropagation};
use crate::context::ContextView;
use crate::reason::{IoInto, Reason, Source};
use crate::resolver::Action;
use std::io::Error;
use vstd::prelude::*;

verus! {

/// What a tether is waiting for.
pub enum Phase {
    /// For the next operation on the I/O object.
    Connected,
    /// For the resolver to decide about a disconnect.
    Disconnected,
    /// For a new connection.
    Reconnecting,
    /// For the resolver to take note of a new connection.
    Reconnected,
}

/// The part of a tether that does not depend on futures, connector and resolver.
pub struct Link<T> {
    pub phase: Phase,
    pub context: ContextView,
    pub io: T,
    pub config: Config,
    /// The failure of a write whose data was dropped, until it is acted on.
    pub last_write: Option<Reason>,
}

/// What can happen to a link.
pub enum Event<T> {
    /// The I/O object was used, and is now as given.
    Used(T),
    /// An operation on the I/O object failed, and the resolver is asked.
    Failed(Reason),
    /// A write failed, and its data is dropped.
    Dropped(Reason),
    /// A write is called for while the failure of a dropped one is pending, and the resolver is
    /// asked.
    Raised,
    /// The resolver's decision is carried out.
    Decided(Action),
    /// An attempt to reconnect came to its end. The resolver is asked about a failure.
    Attempted(Result<T, Error>),
    /// The resolver has taken note of a new connection.
    Notified,
}

impl<T> Event<T> {
    /// The resolver is asked whether to retry.
    pub open spec fn asks(self) -> bool {
        match self {
            Event::Failed(_) => true,
            Event::Raised => true,
            Event::Attempted(Err(_)) => true,
            _ => false,
        }
    }

    /// The I/O object can be used from here on, after a disconnect.
    pub open spec fn establishes(self) -> bool {
        self is Notified || self == Event::<T>::Decided(Action::Ignore)
    }

    /// The I/O object that the event leaves, if it changes or replaces it.
    pub open spec fn leaves(self) -> Option<T> {
        match self {
            Event::Used(io) => Some(io),
            Event::Attempted(Ok(io)) => Some(io),
            _ => None,
        }
    }
}

/// How many of the events ask the resolver.
pub open spec fn asked<T>(events: Seq<Event<T>>) -> nat
    decreases events.len(),
{
    if events.len() == 0 {
        0
    } else {
        asked(events.drop_last()) + if events.last().asks() {
            1nat
        } else {
            0nat
        }
    }
}

/// How many of the events are attempts to reconnect.
pub open spec fn attempts<T>(events: Seq<Event<T>>) -> nat
    decreases events.len(),
{
    if events.len() == 0 {
        0
    } else {
        attempts(events.drop_last()) + if events.last() is Attempted {
            1nat
        } else {
            0nat
        }
    }
}

impl<T> Link<T> {
    /// Whether the event can happen now.
    pub open spec fn enabled(self, event: Event<T>) -> bool {
        match event {
            Event::Used(_) | Event::Failed(_) => self.phase is Connected,
            Event::Dropped(_) => {
                &&& self.phase is Connected
                &&& self.last_write is None
                &&& !self.config.keep_data_on_failed_write
            },
            Event::Raised => self.phase is Connected && self.last_write is Some,
            Event::Decided(_) => self.phase is Disconnected && self.context.reason is Some,
            Event::Attempted(_) => self.phase is Reconnecting,
            Event::Notified => self.phase is Reconnected,
        }
    }

    /// The link after the event.
    pub open spec fn step(self, event: Event<T>) -> Link<T> {
        match event {
            Event::Used(io) => Link { io, ..self },
            Event::Failed(reason) => self.failed(reason, Source::Io),
            Event::Dropped(reason) => self.dropped(reason),
            Event::Raised => self.raised(),
            Event::Decided(Action::AttemptReconnect) => self.reconnecting(),
            Event::Decided(Action::Exhaust) => self.exhausted(),
            Event::Decided(Action::Ignore) => self.connected(),
            Event::Attempted(result) => self.attempted(result),
            Event::Notified => self.connected(),
        }
    }

    /// The link after all the events.
    pub open spec fn run(self, events: Seq<Event<T>>) -> Link<T>
        decreases events.len(),
    {
        if events.len() == 0 {
            self
        } else {
            self.run(events.drop_last()).step(events.last())
        }
    }

    /// The events can happen one after the other.
    pub open spec fn admits(self, events: Seq<Event<T>>) -> bool
        decreases events.len(),
    {
        events.len() > 0 ==> {
            &&& self.admits(events.drop_last())
            &&& self.run(events.drop_last()).enabled(events.last())
        }
    }

    /// A connection on which nothing has failed yet. Data of failed writes is kept, and every
    /// failure that is not retried reaches the caller.
    pub open spec fn fresh(io: T) -> Link<T> {
        Link {
            phase: Phase::Connected,
            context: ContextView::fresh(),
            io,
            config: Config {
                keep_data_on_failed_write: true,
                error_propegation_on_no_retry: ErrorPropagation::All,
            },
            last_write: None,
        }
    }

    /// The link can take part in further operations: whoever decides about a disconnect can be
    /// told its reason, an established connection has no attempts since, and only a configuration
    /// that drops data leaves a failed write behind.
    pub open spec fn wf(self) -> bool {
        &&& self.context.wf()
        &&& self.phase is Connected ==> self.context.current == 0
        &&& self.phase is Disconnected ==> self.context.reason is Some
        &&& self.last_write is Some ==> !self.config.keep_data_on_failed_write
    }

    /// A failure was met, and the resolver is asked.
    pub open spec fn failed(self, reason: Reason, source: Source) -> Link<T> {
        Link { phase: Phase::Disconnected, context: self.context.failed(reason, source), ..self }
    }

    /// A write failed, and its data is dropped.
    pub open spec fn dropped(self, reason: Reason) -> Link<T> {
        Link { last_write: Some(reason), ..self }
    }

    /// The failure of the write whose data was dropped is acted on.
    pub open spec fn raised(self) -> Link<T> {
        Link { last_write: None, ..self.failed(self.last_write->0, Source::Io) }
    }

    /// A new connection is sought.
    pub open spec fn reconnecting(self) -> Link<T> {
        Link { phase: Phase::Reconnecting, ..self }
    }

    /// The I/O object is used again.
    pub open spec fn connected(self) -> Link<T> {
        Link { phase: Phase::Connected, context: self.context.established(), ..self }
    }

    /// The failure was handed to the caller.
    pub open spec fn exhausted(self) -> Link<T> {
        Link { context: self.context.taken(), ..self }
    }

    /// An attempt to reconnect came to its end.
    pub open spec fn attempted(self, result: Result<T, Error>) -> Link<T> {
        let counted = Link { context: self.context.attempted(), ..self };
        match result {
            Ok(io) => Link { phase: Phase::Reconnected, io, ..counted },
            Err(error) => counted.failed(Reason::Error(error), Source::Reconnect),
        }
    }

    /// What the caller of an operation gets when no retry is wanted: the failure, or `default`
    /// where the configuration keeps the failure from the caller.
    pub open spec fn answer<V>(self, default: V) -> V where Reason: IoInto<V> {
        let (reason, source) = self.context.reason->0;
        if self.config.error_propegation_on_no_retry.reaches_caller(source) {
            reason.as_io()
        } else {
            default
        }
    }
}

} // verus!
