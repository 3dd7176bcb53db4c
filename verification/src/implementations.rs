//! What becomes of the operations on the I/O object: reads and writes, sinks and streams.
//!
//! Each method takes what polling the I/O object gave. A result is handed to the caller; a failure
//! leads to the resolver, and the caller goes on with the state machine.
use crate::reason::{Reason, Source};
use crate::resolver::{Io, Resolver};
use crate::tether::Tether;
use std::io::Error;
use std::ops::ControlFlow;
use std::task::Poll;
use vstd::prelude::*;

verus! {

/// The outcome of a read into a buffer that held `before` bytes and then holds `after`: a read
/// that brings no data is the end of the file.
pub open spec fn read_outcome(
    polled: Poll<Result<(), Error>>,
    before: usize,
    after: usize,
) -> Poll<Result<(), Reason>> {
    match polled {
        Poll::Pending => Poll::Pending,
        Poll::Ready(Ok(_)) => Poll::Ready(
            if before < after {
                Ok(())
            } else {
                Err(Reason::Eof)
            },
        ),
        Poll::Ready(Err(error)) => Poll::Ready(Err(Reason::Error(error))),
    }
}

/// The outcome of a write: a write that takes no data is the end of the file.
pub open spec fn write_outcome(polled: Poll<Result<usize, Error>>) -> Poll<Result<usize, Reason>> {
    match polled {
        Poll::Pending => Poll::Pending,
        Poll::Ready(Ok(wrote)) => Poll::Ready(
            if wrote == 0 {
                Err(Reason::Eof)
            } else {
                Ok(wrote)
            },
        ),
        Poll::Ready(Err(error)) => Poll::Ready(Err(Reason::Error(error))),
    }
}

/// The outcome of an operation that carries no data.
pub open spec fn control_outcome(polled: Poll<Result<(), Error>>) -> Poll<Result<(), Reason>> {
    match polled {
        Poll::Pending => Poll::Pending,
        Poll::Ready(Ok(_)) => Poll::Ready(Ok(())),
        Poll::Ready(Err(error)) => Poll::Ready(Err(Reason::Error(error))),
    }
}

/// The outcome of asking a stream for its next item: a stream without one is at its end.
pub open spec fn stream_outcome<T>(polled: Poll<Option<Result<T, Error>>>) -> Poll<
    Result<T, Reason>,
> {
    match polled {
        Poll::Pending => Poll::Pending,
        Poll::Ready(None) => Poll::Ready(Err(Reason::Eof)),
        Poll::Ready(Some(Ok(value))) => Poll::Ready(Ok(value)),
        Poll::Ready(Some(Err(error))) => Poll::Ready(Err(Reason::Error(error))),
    }
}

/// What the caller does on an outcome: wait, return the value, or go on with the state machine.
pub open spec fn step_on<T>(outcome: Poll<Result<T, Reason>>) -> Poll<
    ControlFlow<Result<T, Error>>,
> {
    match outcome {
        Poll::Pending => Poll::Pending,
        Poll::Ready(Ok(value)) => Poll::Ready(ControlFlow::Break(Ok(value))),
        Poll::Ready(Err(_)) => Poll::Ready(ControlFlow::Continue(())),
    }
}

/// What the caller does on the outcome of a write of `len` bytes: data that is not kept counts as
/// written.
pub open spec fn write_step_on(
    outcome: Poll<Result<usize, Reason>>,
    keep_data: bool,
    len: usize,
) -> Poll<ControlFlow<Result<usize, Error>>> {
    match outcome {
        Poll::Ready(Err(_)) if !keep_data => Poll::Ready(ControlFlow::Break(Ok(len))),
        _ => step_on(outcome),
    }
}

/// What the caller does on the outcome of asking a stream for its next item.
pub open spec fn stream_step_on<T>(outcome: Poll<Result<T, Reason>>) -> Poll<
    ControlFlow<Option<Result<T, Error>>>,
> {
    match outcome {
        Poll::Pending => Poll::Pending,
        Poll::Ready(Ok(value)) => Poll::Ready(ControlFlow::Break(Some(Ok(value)))),
        Poll::Ready(Err(_)) => Poll::Ready(ControlFlow::Continue(())),
    }
}

/// The failure that an outcome tells of.
pub open spec fn failure_of<T>(outcome: Poll<Result<T, Reason>>) -> Option<Reason> {
    match outcome {
        Poll::Ready(Err(reason)) => Some(reason),
        _ => None,
    }
}

impl<C: Io, R: Resolver<C>> Tether<C, R> {
    /// Takes the result of a read that found `before` bytes in the buffer and left `after`.
    pub fn poll_read_inner(
        &mut self,
        polled: Poll<Result<(), Error>>,
        before: usize,
        after: usize,
    ) -> (step: Poll<ControlFlow<Result<(), Error>>>)
        requires
            old(self).wf(),
            old(self).state() is Connected,
        ensures
            final(self).wf(),
            step == step_on(read_outcome(polled, before, after)),
            match failure_of(read_outcome(polled, before, after)) {
                None => *final(self) == *old(self),
                Some(reason) => {
                    &&& final(self).link() == old(self).link().failed(reason, Source::Io)
                    &&& exists|resolver: &mut R, connector: &mut C| #![auto]
                        {
                            &&& old(self).asks(*final(self), resolver, connector)
                            &&& *final(resolver) == final(self).parts().resolver
                            &&& *final(connector) == final(self).parts().connector
                        }
                },
            },
    {
        let read_bytes: usize = after.saturating_sub(before);
        match polled {
            Poll::Pending => Poll::Pending,
            Poll::Ready(Ok(_)) => {
                if read_bytes == 0 {
                    self.set_disconnected(Reason::Eof, Source::Io);
                    Poll::Ready(ControlFlow::Continue(()))
                } else {
                    Poll::Ready(ControlFlow::Break(Ok(())))
                }
            },
            Poll::Ready(Err(error)) => {
                self.set_disconnected(Reason::Error(error), Source::Io);
                Poll::Ready(ControlFlow::Continue(()))
            },
        }
    }

    /// Acts on the failure of an earlier write whose data was dropped. Where there is one, the
    /// resolver is asked, and the I/O object is left alone until the state machine has gone on.
    pub fn raise_failed_write(&mut self) -> (raised: bool)
        requires
            old(self).wf(),
            old(self).state() is Connected,
        ensures
            final(self).wf(),
            raised == old(self).link().last_write is Some,
            !raised ==> *final(self) == *old(self),
            raised ==> {
                &&& final(self).link() == old(self).link().raised()
                &&& exists|resolver: &mut R, connector: &mut C| #![auto]
                    {
                        &&& old(self).asks(*final(self), resolver, connector)
                        &&& *final(resolver) == final(self).parts().resolver
                        &&& *final(connector) == final(self).parts().connector
                    }
            },
    {
        match self.take_last_write() {
            Some(reason) => {
                self.set_disconnected(reason, Source::Io);
                true
            },
            None => false,
        }
    }

    /// Takes the result of a write of `len` bytes.
    ///
    /// On a failure either the caller goes on with the state machine, and so writes the same data
    /// again once the connection is re-established, or the data is dropped: then it is reported as
    /// written, which is the only way not to be handed it again, and the failure is kept for the
    /// next write.
    pub fn poll_write_inner(&mut self, polled: Poll<Result<usize, Error>>, len: usize) -> (step:
        Poll<ControlFlow<Result<usize, Error>>>)
        requires
            old(self).wf(),
            old(self).state() is Connected,
            old(self).link().last_write is None,
        ensures
            final(self).wf(),
            step == write_step_on(
                write_outcome(polled),
                old(self).link().config.keep_data_on_failed_write,
                len,
            ),
            match failure_of(write_outcome(polled)) {
                None => *final(self) == *old(self),
                Some(reason) if old(self).link().config.keep_data_on_failed_write => {
                    &&& final(self).link() == old(self).link().failed(reason, Source::Io)
                    &&& exists|resolver: &mut R, connector: &mut C| #![auto]
                        {
                            &&& old(self).asks(*final(self), resolver, connector)
                            &&& *final(resolver) == final(self).parts().resolver
                            &&& *final(connector) == final(self).parts().connector
                        }
                },
                Some(reason) => {
                    &&& final(self).link() == old(self).link().dropped(reason)
                    &&& final(self).state() == old(self).state()
                    &&& final(self).parts().connector == old(self).parts().connector
                    &&& final(self).parts().resolver == old(self).parts().resolver
                },
            },
    {
        let reason = match polled {
            Poll::Pending => return Poll::Pending,
            Poll::Ready(Ok(wrote)) => {
                if wrote != 0 {
                    return Poll::Ready(ControlFlow::Break(Ok(wrote)));
                }
                Reason::Eof
            },
            Poll::Ready(Err(error)) => Reason::Error(error),
        };
        if !self.keeps_data() {
            self.set_last_write(reason);
            return Poll::Ready(ControlFlow::Break(Ok(len)));
        }
        self.set_disconnected(reason, Source::Io);
        Poll::Ready(ControlFlow::Continue(()))
    }

    /// Takes the result of an operation that carries no data.
    fn poll_control_inner(&mut self, polled: Poll<Result<(), Error>>) -> (step: Poll<
        ControlFlow<Result<(), Error>>,
    >)
        requires
            old(self).wf(),
            old(self).state() is Connected,
        ensures
            final(self).wf(),
            step == step_on(control_outcome(polled)),
            match failure_of(control_outcome(polled)) {
                None => *final(self) == *old(self),
                Some(reason) => {
                    &&& final(self).link() == old(self).link().failed(reason, Source::Io)
                    &&& exists|resolver: &mut R, connector: &mut C| #![auto]
                        {
                            &&& old(self).asks(*final(self), resolver, connector)
                            &&& *final(resolver) == final(self).parts().resolver
                            &&& *final(connector) == final(self).parts().connector
                        }
                },
            },
    {
        match polled {
            Poll::Pending => Poll::Pending,
            Poll::Ready(Ok(done)) => Poll::Ready(ControlFlow::Break(Ok(done))),
            Poll::Ready(Err(error)) => {
                self.set_disconnected(Reason::Error(error), Source::Io);
                Poll::Ready(ControlFlow::Continue(()))
            },
        }
    }

    /// Takes the result of flushing a writer.
    pub fn poll_flush_inner(&mut self, polled: Poll<Result<(), Error>>) -> (step: Poll<
        ControlFlow<Result<(), Error>>,
    >)
        requires
            old(self).wf(),
            old(self).state() is Connected,
        ensures
            final(self).wf(),
            step == step_on(control_outcome(polled)),
            match failure_of(control_outcome(polled)) {
                None => *final(self) == *old(self),
                Some(reason) => {
                    &&& final(self).link() == old(self).link().failed(reason, Source::Io)
                    &&& exists|resolver: &mut R, connector: &mut C| #![auto]
                        {
                            &&& old(self).asks(*final(self), resolver, connector)
                            &&& *final(resolver) == final(self).parts().resolver
                            &&& *final(connector) == final(self).parts().connector
                        }
                },
            },
    {
        self.poll_control_inner(polled)
    }

    /// Takes the result of shutting a writer down.
    pub fn poll_shutdown_inner(&mut self, polled: Poll<Result<(), Error>>) -> (step: Poll<
        ControlFlow<Result<(), Error>>,
    >)
        requires
            old(self).wf(),
            old(self).state() is Connected,
        ensures
            final(self).wf(),
            step == step_on(control_outcome(polled)),
            match failure_of(control_outcome(polled)) {
                None => *final(self) == *old(self),
                Some(reason) => {
                    &&& final(self).link() == old(self).link().failed(reason, Source::Io)
                    &&& exists|resolver: &mut R, connector: &mut C| #![auto]
                        {
                            &&& old(self).asks(*final(self), resolver, connector)
                            &&& *final(resolver) == final(self).parts().resolver
                            &&& *final(connector) == final(self).parts().connector
                        }
                },
            },
    {
        self.poll_control_inner(polled)
    }

    /// Takes the result of preparing a sink for an item.
    pub fn poll_sink_ready_inner(&mut self, polled: Poll<Result<(), Error>>) -> (step: Poll<
        ControlFlow<Result<(), Error>>,
    >)
        requires
            old(self).wf(),
            old(self).state() is Connected,
        ensures
            final(self).wf(),
            step == step_on(control_outcome(polled)),
            match failure_of(control_outcome(polled)) {
                None => *final(self) == *old(self),
                Some(reason) => {
                    &&& final(self).link() == old(self).link().failed(reason, Source::Io)
                    &&& exists|resolver: &mut R, connector: &mut C| #![auto]
                        {
                            &&& old(self).asks(*final(self), resolver, connector)
                            &&& *final(resolver) == final(self).parts().resolver
                            &&& *final(connector) == final(self).parts().connector
                        }
                },
            },
    {
        self.poll_control_inner(polled)
    }

    /// Takes the result of flushing a sink.
    pub fn poll_sink_flush_inner(&mut self, polled: Poll<Result<(), Error>>) -> (step: Poll<
        ControlFlow<Result<(), Error>>,
    >)
        requires
            old(self).wf(),
            old(self).state() is Connected,
        ensures
            final(self).wf(),
            step == step_on(control_outcome(polled)),
            match failure_of(control_outcome(polled)) {
                None => *final(self) == *old(self),
                Some(reason) => {
                    &&& final(self).link() == old(self).link().failed(reason, Source::Io)
                    &&& exists|resolver: &mut R, connector: &mut C| #![auto]
                        {
                            &&& old(self).asks(*final(self), resolver, connector)
                            &&& *final(resolver) == final(self).parts().resolver
                            &&& *final(connector) == final(self).parts().connector
                        }
                },
            },
    {
        self.poll_control_inner(polled)
    }

    /// Takes the result of closing a sink.
    pub fn poll_sink_close_inner(&mut self, polled: Poll<Result<(), Error>>) -> (step: Poll<
        ControlFlow<Result<(), Error>>,
    >)
        requires
            old(self).wf(),
            old(self).state() is Connected,
        ensures
            final(self).wf(),
            step == step_on(control_outcome(polled)),
            match failure_of(control_outcome(polled)) {
                None => *final(self) == *old(self),
                Some(reason) => {
                    &&& final(self).link() == old(self).link().failed(reason, Source::Io)
                    &&& exists|resolver: &mut R, connector: &mut C| #![auto]
                        {
                            &&& old(self).asks(*final(self), resolver, connector)
                            &&& *final(resolver) == final(self).parts().resolver
                            &&& *final(connector) == final(self).parts().connector
                        }
                },
            },
    {
        self.poll_control_inner(polled)
    }

    /// Takes what a stream gave for its next item.
    pub fn poll_stream_inner<T>(&mut self, polled: Poll<Option<Result<T, Error>>>) -> (step: Poll<
        ControlFlow<Option<Result<T, Error>>>,
    >)
        requires
            old(self).wf(),
            old(self).state() is Connected,
        ensures
            final(self).wf(),
            step == stream_step_on(stream_outcome(polled)),
            match failure_of(stream_outcome(polled)) {
                None => *final(self) == *old(self),
                Some(reason) => {
                    &&& final(self).link() == old(self).link().failed(reason, Source::Io)
                    &&& exists|resolver: &mut R, connector: &mut C| #![auto]
                        {
                            &&& old(self).asks(*final(self), resolver, connector)
                            &&& *final(resolver) == final(self).parts().resolver
                            &&& *final(connector) == final(self).parts().connector
                        }
                },
            },
    {
        match polled {
            Poll::Pending => Poll::Pending,
            Poll::Ready(None) => {
                self.set_disconnected(Reason::Eof, Source::Io);
                Poll::Ready(ControlFlow::Continue(()))
            },
            Poll::Ready(Some(Ok(value))) => Poll::Ready(ControlFlow::Break(Some(Ok(value)))),
            Poll::Ready(Some(Err(error))) => {
                self.set_disconnected(Reason::Error(error), Source::Io);
                Poll::Ready(ControlFlow::Continue(()))
            },
        }
    }
}

} // verus!
