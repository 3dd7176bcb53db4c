//! I/O objects that reconnect by themselves when the connection fails.
//!
//! The crate holds the decisions: what counts as a disconnect, when the resolver is asked, what is
//! done with its answer, how attempts are counted, and what the caller of an I/O operation gets
//! when no retry is wanted. Polling sockets, files and futures is left to the code around it, which
//! hands each polled result to the matching method of [`Tether`].
pub mod config;
pub mod connect;
mod context;
pub mod defaults;
pub mod error;
pub mod fs;
pub mod guarantees;
pub mod implementations;
pub mod laws;
pub mod link;
pub mod reason;
mod resolver;
pub mod tcp;
mod tether;
pub mod unix;

pub use context::{Context, ContextView};
pub use reason::{Reason, Source};
pub use resolver::{Action, Io, Resolver};
pub use tether::{Awaited, State, Tether, TetherInner};
