//! A JSON-RPC over HTTP transport built around the `jsonrpc_http_server`
//! library. That library binds the registry by value, so this transport
//! requires a reset cycle to observe registry mutations.

use vstd::prelude::*;

use crate::handler::{RegistryHandle, RegistrySnapshot};
use crate::transports::{addr_ok, parse_socket_addr, Transport, TransportError};

verus! {

/// Settings needed for constructing an `HttpTransport`.
#[derive(Debug)]
pub struct HttpTransportSettings {
    /// An IP or address to bind the HTTP listener to.
    pub address: String,
}

/// Declares `jsonrpc_http_server::Server` — a running HTTP listener handle —
/// so that it can stand in fields. It is opaque here.
#[verifier::external_type_specification]
#[verifier::external_body]
pub struct ExHttpServer(jsonrpc_http_server::Server);

/// Relies on `jsonrpc_http_server::ServerBuilder::new` and
/// `ServerBuilder::start_http`: serves the snapshot's registry contents over
/// HTTP on `addr`. `start_http` returns `io::Result`, so a failure can only be
/// an IO error; it is returned as its message.
#[verifier::external_body]
fn http_listen(snapshot: &RegistrySnapshot, addr: &core::net::SocketAddr) -> (r: Result<
    jsonrpc_http_server::Server,
    TransportError,
>)
    ensures
        r matches Err(e) ==> e matches TransportError::IO(_),
{
    let builder = jsonrpc_http_server::ServerBuilder::new(snapshot.inner.clone());
    builder.start_http(addr).map_err(|e| TransportError::IO(format!("{}", e)))
}

/// Relies on `jsonrpc_http_server::Server::close`: shuts the listener down,
/// waiting for it to finish.
#[verifier::external_body]
fn http_close(server: jsonrpc_http_server::Server) {
    server.close();
}

/// A JSON-RPC over HTTP transport.
pub struct HttpTransport {
    settings: HttpTransportSettings,
    snapshot: Option<RegistrySnapshot>,
    server: Option<jsonrpc_http_server::Server>,
    bound: Ghost<Seq<Seq<char>>>,
}

impl HttpTransport {
    /// Create a new instance of this transport: not running, not bound.
    pub fn new(settings: HttpTransportSettings) -> (r: Self)
        ensures
            r.inv(),
            !r.is_running(),
            !r.is_bound(),
            r.requires_reset_spec(),
            r.address_spec() == settings.address@,
    {
        HttpTransport { settings, snapshot: None, server: None, bound: Ghost(Seq::empty()) }
    }
}

impl Transport for HttpTransport {
    closed spec fn inv(&self) -> bool {
        true
    }

    closed spec fn requires_reset_spec(&self) -> bool {
        true
    }

    closed spec fn is_running(&self) -> bool {
        self.server is Some
    }

    closed spec fn is_bound(&self) -> bool {
        self.snapshot is Some
    }

    closed spec fn bound_names(&self) -> Seq<Seq<char>> {
        self.bound@
    }

    closed spec fn address_spec(&self) -> Seq<char> {
        self.settings.address@
    }

    fn requires_reset(&self) -> (r: bool) {
        true
    }

    fn running(&self) -> (r: bool) {
        self.server.is_some()
    }

    fn set_handler(&mut self, registry: &RegistryHandle) -> (r: Result<(), TransportError>) {
        self.snapshot = Some(registry.snapshot());
        self.bound = Ghost(registry.names_seq());
        Ok(())
    }

    fn start(&mut self) -> (r: Result<(), TransportError>)
        ensures
            !old(self).is_running() && old(self).is_bound() && !addr_ok(old(self).address_spec())
                ==> r matches Err(TransportError::Address),
            r matches Err(TransportError::NoHandler) ==> !old(self).is_bound(),
            r matches Err(TransportError::Address) ==> !addr_ok(old(self).address_spec()),
            !old(self).is_running() && old(self).is_bound() && addr_ok(old(self).address_spec())
                && r is Err ==> r matches Err(TransportError::IO(_)),
    {
        if self.server.is_some() {
            return Ok(());
        }
        match &self.snapshot {
            None => Err(TransportError::NoHandler),
            Some(snapshot) => match parse_socket_addr(self.settings.address.as_str()) {
                None => Err(TransportError::Address),
                Some(addr) => match http_listen(snapshot, &addr) {
                    Ok(server) => {
                        self.server = Some(server);
                        Ok(())
                    },
                    Err(e) => Err(e),
                },
            },
        }
    }

    fn stop(&mut self) -> (r: Result<(), TransportError>) {
        match self.server.take() {
            None => Ok(()),
            Some(server) => {
                http_close(server);
                Ok(())
            },
        }
    }
}

} // verus!
