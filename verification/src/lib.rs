//! An extensible JSON-RPC server core that can listen over multiple transports
//! at once: one method registry, served simultaneously over HTTP, TCP and
//! WebSockets, with the registry mutable at runtime.
//!
//! The heart of the crate is the reset protocol: transports whose listener
//! library snapshots the registry at bind time must be stopped, re-bound and
//! restarted whenever the registry changes, while transports holding a live
//! shared reference observe mutations immediately. The server hides that
//! difference from its callers.

pub mod framing;
pub mod handler;
pub mod http;
pub mod live_tcp;
pub mod server;
pub mod tcp;
pub mod transports;
pub mod ws;
