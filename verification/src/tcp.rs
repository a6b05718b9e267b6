//! A JSON-RPC over TCP transport built around the `jsonrpc_tcp_server`
//! library, with per-connection session metadata extraction. That library
//! binds the registry by value, so this transport requires a reset cycle to
//! observe registry mutations.

use vstd::prelude::*;

use crate::handler::{RegistryHandle, RegistrySnapshot};
use crate::transports::{addr_ok, parse_socket_addr, Transport, TransportError};

verus! {

/// Settings needed for constructing a `TcpTransport`.
#[derive(Debug)]
pub struct TcpTransportSettings {
    /// An IP or address to bind the TCP listener to.
    pub address: String,
}

/// Declares `jsonrpc_tcp_server::Server` — a running TCP listener handle —
/// so that it can stand in fields. It is opaque here.
#[verifier::external_type_specification]
#[verifier::external_body]
pub struct ExTcpServer(jsonrpc_tcp_server::Server);

/// Relies on `jsonrpc_tcp_server::ServerBuilder::new`,
/// `ServerBuilder::session_meta_extractor` and `ServerBuilder::start`: serves
/// the snapshot's registry contents over TCP on `addr`, attaching to each
/// connection a pub-sub session built from the connection's outgoing channel
/// (via `jsonrpc_pubsub::Session::new`). `start` returns `io::Result`, so a
/// failure can only be an IO error; it is returned as its message.
#[verifier::external_body]
fn tcp_listen(snapshot: &RegistrySnapshot, addr: &core::net::SocketAddr) -> (r: Result<
    jsonrpc_tcp_server::Server,
    TransportError,
>)
    ensures
        r matches Err(e) ==> e matches TransportError::IO(_),
{
    let builder = jsonrpc_tcp_server::ServerBuilder::new(snapshot.inner.clone())
        .session_meta_extractor(|context: &jsonrpc_tcp_server::RequestContext| {
            Some(std::sync::Arc::new(jsonrpc_pubsub::Session::new(context.sender.clone())))
        });
    builder.start(addr).map_err(|e| TransportError::IO(format!("{}", e)))
}

/// Relies on `jsonrpc_tcp_server::Server::close`: shuts the listener down.
#[verifier::external_body]
fn tcp_close(server: jsonrpc_tcp_server::Server) {
    server.close();
}

/// A JSON-RPC over TCP transport with session metadata extraction.
pub struct TcpTransport {
    settings: TcpTransportSettings,
    snapshot: Option<RegistrySnapshot>,
    server: Option<jsonrpc_tcp_server::Server>,
    bound: Ghost<Seq<Seq<char>>>,
}

impl TcpTransport {
    /// Create a new instance of this transport: not running, not bound.
    pub fn new(settings: TcpTransportSettings) -> (r: Self)
        ensures
            r.inv(),
            !r.is_running(),
            !r.is_bound(),
            r.requires_reset_spec(),
            r.address_spec() == settings.address@,
    {
        TcpTransport { settings, snapshot: None, server: None, bound: Ghost(Seq::empty()) }
    }
}

impl Transport for TcpTransport {
    closed spec fn inv(&self) -> bool {
        true
    }

    closed spec fn requires_reset_spec(&self) -> bool {
        true
    }

    closed spec fn is_running(&self) -> bool {
        self.server is Some
    }

    closed spec fn is_bound(&self) -> bool {
        self.snapshot is Some
    }

    closed spec fn bound_names(&self) -> Seq<Seq<char>> {
        self.bound@
    }

    closed spec fn address_spec(&self) -> Seq<char> {
        self.settings.address@
    }

    fn requires_reset(&self) -> (r: bool) {
        true
    }

    fn running(&self) -> (r: bool) {
        self.server.is_some()
    }

    fn set_handler(&mut self, registry: &RegistryHandle) -> (r: Result<(), TransportError>) {
        self.snapshot = Some(registry.snapshot());
        self.bound = Ghost(registry.names_seq());
        Ok(())
    }

    fn start(&mut self) -> (r: Result<(), TransportError>)
        ensures
            !old(self).is_running() && old(self).is_bound() && !addr_ok(old(self).address_spec())
                ==> r matches Err(TransportError::Address),
            r matches Err(TransportError::NoHandler) ==> !old(self).is_bound(),
            r matches Err(TransportError::Address) ==> !addr_ok(old(self).address_spec()),
            !old(self).is_running() && old(self).is_bound() && addr_ok(old(self).address_spec())
                && r is Err ==> r matches Err(TransportError::IO(_)),
    {
        if self.server.is_some() {
            return Ok(());
        }
        match &self.snapshot {
            None => Err(TransportError::NoHandler),
            Some(snapshot) => match parse_socket_addr(self.settings.address.as_str()) {
                None => Err(TransportError::Address),
                Some(addr) => match tcp_listen(snapshot, &addr) {
                    Ok(server) => {
                        self.server = Some(server);
                        Ok(())
                    },
                    Err(e) => Err(e),
                },
            },
        }
    }

    fn stop(&mut self) -> (r: Result<(), TransportError>) {
        match self.server.take() {
            None => Ok(()),
            Some(server) => {
                tcp_close(server);
                Ok(())
            },
        }
    }
}

} // verus!
