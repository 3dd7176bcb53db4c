//! Connections over Unix sockets.
use vstd::prelude::*;

verus! {

/// Holds the path that Unix streams are connected to.
#[derive(Debug, Clone, PartialEq, Eq, PartialOrd, Ord)]
pub struct UnixConnector<P>(P);

impl<P> UnixConnector<P> {
    /// The path.
    pub closed spec fn path(self) -> P {
        self.0
    }

    /// A connector for the given path.
    pub fn new(path: P) -> (connector: Self)
        ensures
            connector.path() == path,
    {
        Self(path)
    }

    /// Get a ref to the path.
    pub fn get_path(&self) -> (path: &P)
        ensures
            *path == self.path(),
    {
        &self.0
    }

    /// Get a mutable ref to the path.
    pub fn get_path_mut(&mut self) -> (path: &mut P)
        ensures
            *path == old(self).path(),
            final(self).path() == *final(path),
    {
        &mut self.0
    }
}

} // verus!
