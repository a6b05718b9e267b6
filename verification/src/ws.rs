//! A JSON-RPC over WebSockets transport built around the `jsonrpc_ws_server`
//! library, with per-connection session metadata extraction. That library
//! binds the registry by value, so this transport requires a reset cycle to
//! observe registry mutations.

use vstd::prelude::*;

use crate::handler::{RegistryHandle, RegistrySnapshot};
use crate::transports::{addr_ok, parse_socket_addr, Transport, TransportError};

verus! {

/// Settings needed for constructing a `WsTransport`.
#[derive(Debug)]
pub struct WsTransportSettings {
    /// An IP or address to bind the WebSockets listener to.
    pub address: String,
}

/// Declares `jsonrpc_ws_server::Server` — a running WebSockets listener
/// handle — so that it can stand in fields. It is opaque here.
#[verifier::external_type_specification]
#[verifier::external_body]
pub struct ExWsServer(jsonrpc_ws_server::Server);

/// Relies on `jsonrpc_ws_server::ServerBuilder::new`,
/// `ServerBuilder::session_meta_extractor` and `ServerBuilder::start`: serves
/// the snapshot's registry contents over WebSockets on `addr`, attaching to
/// each connection a pub-sub session built from the connection's outgoing
/// channel (via `jsonrpc_pubsub::Session::new`). `start` fails with
/// `jsonrpc_ws_server::Error`; its `Io` variant is returned as an IO error and
/// every other variant as a WebSockets-specific error, each as its message.
#[verifier::external_body]
fn ws_listen(snapshot: &RegistrySnapshot, addr: &core::net::SocketAddr) -> (r: Result<
    jsonrpc_ws_server::Server,
    TransportError,
>)
    ensures
        r matches Err(e) ==> e matches TransportError::IO(_) || e matches TransportError::WebSockets(
            _,
        ),
{
    let builder = jsonrpc_ws_server::ServerBuilder::new(snapshot.inner.clone())
        .session_meta_extractor(|context: &jsonrpc_ws_server::RequestContext| {
            Some(std::sync::Arc::new(jsonrpc_pubsub::Session::new(context.sender())))
        });
    builder.start(addr).map_err(|e| match e {
        jsonrpc_ws_server::Error::Io(io) => TransportError::IO(format!("{}", io)),
        other => TransportError::WebSockets(format!("{}", other)),
    })
}

/// Relies on `jsonrpc_ws_server::Server::close`: shuts the listener down.
#[verifier::external_body]
fn ws_close(server: jsonrpc_ws_server::Server) {
    server.close();
}

/// A JSON-RPC over WebSockets transport with session metadata extraction.
pub struct WsTransport {
    settings: WsTransportSettings,
    snapshot: Option<RegistrySnapshot>,
    server: Option<jsonrpc_ws_server::Server>,
    bound: Ghost<Seq<Seq<char>>>,
}

impl WsTransport {
    /// Create a new instance of this transport: not running, not bound.
    pub fn new(settings: WsTransportSettings) -> (r: Self)
        ensures
            r.inv(),
            !r.is_running(),
            !r.is_bound(),
            r.requires_reset_spec(),
            r.address_spec() == settings.address@,
    {
        WsTransport { settings, snapshot: None, server: None, bound: Ghost(Seq::empty()) }
    }
}

impl Transport for WsTransport {
    closed spec fn inv(&self) -> bool {
        true
    }

    closed spec fn requires_reset_spec(&self) -> bool {
        true
    }

    closed spec fn is_running(&self) -> bool {
        self.server is Some
    }

    closed spec fn is_bound(&self) -> bool {
        self.snapshot is Some
    }

    closed spec fn bound_names(&self) -> Seq<Seq<char>> {
        self.bound@
    }

    closed spec fn address_spec(&self) -> Seq<char> {
        self.settings.address@
    }

    fn requires_reset(&self) -> (r: bool) {
        true
    }

    fn running(&self) -> (r: bool) {
        self.server.is_some()
    }

    fn set_handler(&mut self, registry: &RegistryHandle) -> (r: Result<(), TransportError>) {
        self.snapshot = Some(registry.snapshot());
        self.bound = Ghost(registry.names_seq());
        Ok(())
    }

    fn start(&mut self) -> (r: Result<(), TransportError>)
        ensures
            !old(self).is_running() && old(self).is_bound() && !addr_ok(old(self).address_spec())
                ==> r matches Err(TransportError::Address),
            r matches Err(TransportError::NoHandler) ==> !old(self).is_bound(),
            r matches Err(TransportError::Address) ==> !addr_ok(old(self).address_spec()),
            !old(self).is_running() && old(self).is_bound() && addr_ok(old(self).address_spec())
                && r is Err ==> r matches Err(TransportError::IO(_)) || r matches Err(
                TransportError::WebSockets(_),
            ),
    {
        if self.server.is_some() {
            return Ok(());
        }
        match &self.snapshot {
            None => Err(TransportError::NoHandler),
            Some(snapshot) => match parse_socket_addr(self.settings.address.as_str()) {
                None => Err(TransportError::Address),
                Some(addr) => match ws_listen(snapshot, &addr) {
                    Ok(server) => {
                        self.server = Some(server);
                        Ok(())
                    },
                    Err(e) => Err(e),
                },
            },
        }
    }

    fn stop(&mut self) -> (r: Result<(), TransportError>) {
        match self.server.take() {
            None => Ok(()),
            Some(server) => {
                ws_close(server);
                Ok(())
            },
        }
    }
}

} // verus!
