//! A line-oriented TCP transport that holds a live, shared reference to the
//! registry instead of a snapshot, and therefore observes registry mutations
//! immediately, without any reset cycle.
//!
//! This variant does not own socket machinery itself: starting it validates
//! the configured bind address and marks the transport running; an embedding
//! program then obtains the bind address and a live dispatch handle from it
//! and runs the accept loop, feeding each newline-delimited request line to
//! the dispatcher and writing each response line back on the same connection
//! (see the `framing` module for the verified frame splitting).

use vstd::prelude::*;

use crate::handler::{Dispatcher, RegistryHandle};
use crate::tcp::TcpTransportSettings;
use crate::transports::{addr_ok, parse_socket_addr, Transport, TransportError};

verus! {

/// A JSON-RPC over TCP transport holding a live registry reference.
pub struct LiveTcpTransport {
    settings: TcpTransportSettings,
    dispatcher: Option<Dispatcher>,
    active: bool,
    bound: Ghost<Seq<Seq<char>>>,
}

impl LiveTcpTransport {
    /// Create a new instance of this transport: not running, not bound.
    pub fn new(settings: TcpTransportSettings) -> (r: Self)
        ensures
            r.inv(),
            !r.is_running(),
            !r.is_bound(),
            !r.requires_reset_spec(),
            r.address_spec() == settings.address@,
    {
        LiveTcpTransport { settings, dispatcher: None, active: false, bound: Ghost(Seq::empty()) }
    }

    /// The configured bind address.
    pub fn address(&self) -> (r: &str)
        ensures
            r@ == self.address_spec(),
    {
        self.settings.address.as_str()
    }

    /// A live dispatch handle onto the bound registry, for the embedding
    /// program's connection workers. It aliases the registry of the server
    /// this transport was bound to, so it observes every later mutation.
    pub fn dispatch_handle(&self) -> (r: Option<Dispatcher>)
        ensures
            r is Some <==> self.is_bound(),
    {
        match &self.dispatcher {
            None => None,
            Some(d) => Some(d.share()),
        }
    }
}

impl Transport for LiveTcpTransport {
    closed spec fn inv(&self) -> bool {
        true
    }

    closed spec fn requires_reset_spec(&self) -> bool {
        false
    }

    closed spec fn is_running(&self) -> bool {
        self.active
    }

    closed spec fn is_bound(&self) -> bool {
        self.dispatcher is Some
    }

    closed spec fn bound_names(&self) -> Seq<Seq<char>> {
        self.bound@
    }

    closed spec fn address_spec(&self) -> Seq<char> {
        self.settings.address@
    }

    fn requires_reset(&self) -> (r: bool) {
        false
    }

    fn running(&self) -> (r: bool) {
        self.active
    }

    fn set_handler(&mut self, registry: &RegistryHandle) -> (r: Result<(), TransportError>) {
        self.dispatcher = Some(registry.dispatcher());
        self.bound = Ghost(registry.names_seq());
        Ok(())
    }

    fn start(&mut self) -> (r: Result<(), TransportError>)
        ensures
            !old(self).is_running() && old(self).is_bound() && !addr_ok(old(self).address_spec())
                ==> r matches Err(TransportError::Address),
            !old(self).is_running() && old(self).is_bound() && addr_ok(old(self).address_spec())
                ==> r is Ok,
    {
        if self.active {
            return Ok(());
        }
        if self.dispatcher.is_none() {
            return Err(TransportError::NoHandler);
        }
        match parse_socket_addr(self.settings.address.as_str()) {
            None => Err(TransportError::Address),
            Some(_) => {
                self.active = true;
                Ok(())
            },
        }
    }

    fn stop(&mut self) -> (r: Result<(), TransportError>) {
        if self.active {
            self.active = false;
        }
        Ok(())
    }
}

} // verus!
