//! Connections over TCP sockets.
use vstd::prelude::*;

verus! {

/// Holds the address that TCP streams are connected to.
#[derive(Debug, Clone, PartialEq, Eq, PartialOrd, Ord)]
pub struct TcpConnector<A>(A);

impl<A> TcpConnector<A> {
    /// The address.
    pub closed spec fn addr(self) -> A {
        self.0
    }

    /// A connector for the given address.
    pub fn new(address: A) -> (connector: Self)
        ensures
            connector.addr() == address,
    {
        Self(address)
    }

    /// Get a ref to the address.
    #[inline]
    pub fn get_addr(&self) -> (addr: &A)
        ensures
            *addr == self.addr(),
    {
        &self.0
    }

    /// Get a mutable ref to the address.
    #[inline]
    pub fn get_addr_mut(&mut self) -> (addr: &mut A)
        ensures
            *addr == old(self).addr(),
            final(self).addr() == *final(addr),
    {
        &mut self.0
    }
}

} // verus!
