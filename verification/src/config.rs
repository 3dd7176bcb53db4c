//! Options for fine-tuning the behavior of a tether.
use crate::reason::Source;
use vstd::prelude::*;

verus! {

/// The configuration of a tether.
#[non_exhaustive]
#[derive(Debug, Clone, PartialEq, Eq, PartialOrd, Ord)]
pub struct Config {
    /// What happens to the data of a write that fails.
    ///
    /// + true: the original data is written once the connection is re-established
    /// + false: the data is dropped when the error occurs
    ///
    /// Default: true
    ///
    /// # Rationale
    ///
    /// For some applications the data written to an I/O object is time-sensitive, and it is
    /// preferable to drop data which cannot be delivered in short order, rather than send it with
    /// some unknown delay.
    pub keep_data_on_failed_write: bool,
    /// What the I/O object answers when the [`Resolver`](crate::Resolver) elects *not* to
    /// reconnect. See [`ErrorPropagation`].
    ///
    /// Default: [`ErrorPropagation::IoOperations`]
    pub error_propegation_on_no_retry: ErrorPropagation,
}

impl Default for Config {
    fn default() -> (config: Self)
        ensures
            config.keep_data_on_failed_write,
            config.error_propegation_on_no_retry == ErrorPropagation::IoOperations,
    {
        Self {
            keep_data_on_failed_write: true,
            error_propegation_on_no_retry: ErrorPropagation::IoOperations,
        }
    }
}

/// What the callsites return when the resolver does not want a retry.
#[derive(Debug, Clone, Copy, PartialEq, Eq, PartialOrd, Ord, Hash, Structural)]
pub enum ErrorPropagation {
    /// No error is produced.
    Never,
    /// The latest error is returned *only if* it stemmed from an operation on the underlying I/O,
    /// but not if it occurred as a result of a failure to reconnect.
    IoOperations,
    /// The latest error is returned.
    All,
}

impl ErrorPropagation {
    /// Whether a failure noticed at `source` reaches the caller.
    pub open spec fn reaches_caller(self, source: Source) -> bool {
        match self {
            ErrorPropagation::Never => false,
            ErrorPropagation::IoOperations => source is Io,
            ErrorPropagation::All => true,
        }
    }

    /// Whether a failure noticed at `source` is handed to the caller.
    pub fn propagates(&self, source: Source) -> (propagates: bool)
        ensures
            propagates == self.reaches_caller(source),
    {
        match (self, source) {
            (ErrorPropagation::IoOperations, Source::Io) => true,
            (ErrorPropagation::All, _) => true,
            _ => false,
        }
    }
}

} // verus!
