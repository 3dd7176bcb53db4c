//! What a resolver is told about a disconnect.
use crate::reason::{Reason, Source};
use vstd::prelude::*;

verus! {

/// Additional information about the disconnect: how often a reconnect was attempted, and why the
/// connection was lost.
#[derive(Debug)]
pub struct Context {
    total_attempts: usize,
    current_attempts: usize,
    reason: Option<(Reason, Source)>,
}

/// The contents of a [`Context`].
pub struct ContextView {
    /// Attempts since the context was made.
    pub total: nat,
    /// Attempts since the connection was last established.
    pub current: nat,
    /// The latest failure and where it was met.
    pub reason: Option<(Reason, Source)>,
}

impl ContextView {
    /// No attempt was made and nothing has failed.
    pub open spec fn fresh() -> ContextView {
        ContextView { total: 0, current: 0, reason: None }
    }

    /// The attempts since the last connection are among all the attempts.
    pub open spec fn wf(self) -> bool {
        self.current <= self.total
    }

    /// One more attempt was made.
    pub open spec fn attempted(self) -> ContextView {
        ContextView { total: self.total + 1, current: self.current + 1, reason: self.reason }
    }

    /// The connection was established.
    pub open spec fn established(self) -> ContextView {
        ContextView { current: 0, ..self }
    }

    /// A failure was met.
    pub open spec fn failed(self, reason: Reason, source: Source) -> ContextView {
        ContextView { reason: Some((reason, source)), ..self }
    }

    /// The failure was handed to a caller.
    pub open spec fn taken(self) -> ContextView {
        ContextView { reason: None, ..self }
    }
}

impl View for Context {
    type V = ContextView;

    closed spec fn view(&self) -> ContextView {
        ContextView {
            total: self.total_attempts as nat,
            current: self.current_attempts as nat,
            reason: self.reason,
        }
    }
}

impl Default for Context {
    fn default() -> (context: Self)
        ensures
            context@ == ContextView::fresh(),
    {
        Context { total_attempts: 0, current_attempts: 0, reason: None }
    }
}

impl Context {
    /// The number of reconnect attempts since the last successful connection. Reset each time the
    /// connection is established.
    #[inline]
    pub fn current_reconnect_attempts(&self) -> (attempts: usize)
        ensures
            attempts == self@.current,
    {
        self.current_attempts
    }

    /// The total number of times a reconnect has been attempted.
    ///
    /// The first time [`Resolver::disconnected`](crate::Resolver::disconnected) or
    /// [`Resolver::unreachable`](crate::Resolver::unreachable) is invoked this is `0`, each
    /// subsequent time it is incremented by 1.
    #[inline]
    pub fn total_reconnect_attempts(&self) -> (attempts: usize)
        ensures
            attempts == self@.total,
    {
        self.total_attempts
    }

    /// Counts one attempt.
    pub fn increment_attempts(&mut self)
        requires
            old(self)@.wf(),
            old(self)@.total < usize::MAX,
        ensures
            final(self)@ == old(self)@.attempted(),
            final(self)@.wf(),
    {
        self.current_attempts += 1;
        self.total_attempts += 1;
    }

    /// Whether a reason can be read.
    pub fn has_reason(&self) -> (has: bool)
        ensures
            has == self@.reason is Some,
    {
        self.reason.is_some()
    }

    /// The current reason for the disconnect.
    ///
    /// There is one whenever a resolver is asked whether to retry.
    #[inline]
    pub fn reason(&self) -> (reason: &Reason)
        requires
            self@.reason is Some,
        ensures
            *reason == (self@.reason->0).0,
    {
        let (reason, _) = self.reason.as_ref().unwrap();
        reason
    }

    /// Resets the current attempts, leaving the total reconnect attempts unchanged.
    #[inline]
    pub fn reset(&mut self)
        ensures
            final(self)@ == old(self)@.established(),
            final(self)@.wf(),
    {
        self.current_attempts = 0;
    }

    /// Records a failure.
    pub(crate) fn set_reason(&mut self, reason: Reason, source: Source)
        ensures
            final(self)@ == old(self)@.failed(reason, source),
    {
        self.reason = Some((reason, source));
    }

    /// Takes the recorded failure out.
    pub(crate) fn take_reason(&mut self) -> (reason: (Reason, Source))
        requires
            old(self)@.reason is Some,
        ensures
            reason == old(self)@.reason->0,
            final(self)@ == old(self)@.taken(),
    {
        self.reason.take().unwrap()
    }
}

} // verus!
