//! The transport abstraction: errors, bind-address validation, and the
//! contract every message transport must honour.

use vstd::prelude::*;

verus! {

/// Enumerates all the different errors that a transport can get into.
#[derive(Debug)]
pub enum TransportError {
    /// The configured bind address cannot be parsed as an IP address and port.
    Address,
    /// An IO error, carrying the underlying error's message.
    IO(String),
    /// Some operation requires a bound registry, but none is configured yet.
    NoHandler,
    /// An unknown error.
    Unknown,
    /// An error that is specific to the WebSockets listener library.
    WebSockets(String),
}

/// Whether the standard library accepts `s` as a socket address, that is as an
/// IP address followed by a port.
pub uninterp spec fn addr_ok(s: Seq<char>) -> bool;

/// Relies on `str::parse::<core::net::SocketAddr>` (through `FromStr` for
/// `core::net::SocketAddr`): whether a string parses is a function of the
/// string alone.
#[verifier::external_body]
pub(crate) fn parse_socket_addr(s: &str) -> (r: Option<core::net::SocketAddr>)
    ensures
        r is Some <==> addr_ok(s@),
{
    s.parse::<core::net::SocketAddr>().ok()
}

/// Declares `core::net::SocketAddr` — a parsed IP address and port — so that
/// it can stand in signatures. It is opaque here.
#[verifier::external_type_specification]
#[verifier::external_body]
pub struct ExSocketAddr(core::net::SocketAddr);

/// Generically defines message transports that can be used with JSON-RPC
/// servers.
///
/// A transport owns a listener lifecycle. Its abstract state is: whether it is
/// running (a listener is currently held), whether a registry has been bound
/// to it, the registry model it was last bound with, its configured bind
/// address, and whether it must be reset — stopped, re-bound, restarted — to
/// observe a registry mutation. Transports built on a listener library that
/// binds the registry by value require the reset; a transport holding a live
/// shared reference to the registry does not.
pub trait Transport: Sized {
    /// The transport's internal well-formedness.
    spec fn inv(&self) -> bool;

    /// Whether this transport requires reconfiguration when the registry of
    /// the owning server changes. Constant across the transport's lifetime.
    spec fn requires_reset_spec(&self) -> bool;

    /// Whether a listener is currently held.
    spec fn is_running(&self) -> bool;

    /// Whether a registry has been bound to this transport.
    spec fn is_bound(&self) -> bool;

    /// The registry model (the registered method names) this transport was
    /// last bound with. Meaningful only once `is_bound()` holds.
    spec fn bound_names(&self) -> Seq<Seq<char>>;

    /// The configured bind address.
    spec fn address_spec(&self) -> Seq<char>;

    /// Tell whether this transport requires reconfiguration if the registry
    /// of the owning server is changed.
    fn requires_reset(&self) -> (r: bool)
        requires
            self.inv(),
        ensures
            r == self.requires_reset_spec(),
    ;

    /// Tell whether the transport is listening or not.
    fn running(&self) -> (r: bool)
        requires
            self.inv(),
        ensures
            r == self.is_running(),
    ;

    /// Bind the transport to the given registry: capture a reference or
    /// snapshot sufficient to dispatch requests. For snapshot-based transports
    /// the registry state is cloned at this instant — mutations after this
    /// call are not visible until the next bind. Binding never fails and does
    /// not disturb a held listener.
    fn set_handler(&mut self, registry: &crate::handler::RegistryHandle) -> (r: Result<
        (),
        TransportError,
    >)
        requires
            old(self).inv(),
            registry.wf(),
        ensures
            r is Ok,
            final(self).inv(),
            final(self).is_bound(),
            final(self).bound_names() == registry.names_seq(),
            final(self).is_running() == old(self).is_running(),
            final(self).requires_reset_spec() == old(self).requires_reset_spec(),
            final(self).address_spec() == old(self).address_spec(),
    ;

    /// Start the transport: create the listener.
    ///
    /// Idempotent: starting a running transport succeeds without any state
    /// change. Starting before any bind fails with `NoHandler`. On failure the
    /// transport is unchanged; in particular it is still not running.
    fn start(&mut self) -> (r: Result<(), TransportError>)
        requires
            old(self).inv(),
        ensures
            final(self).inv(),
            final(self).requires_reset_spec() == old(self).requires_reset_spec(),
            final(self).address_spec() == old(self).address_spec(),
            final(self).bound_names() == old(self).bound_names(),
            final(self).is_bound() == old(self).is_bound(),
            old(self).is_running() ==> r is Ok && *final(self) == *old(self),
            r is Ok ==> final(self).is_running(),
            r is Err ==> *final(self) == *old(self),
            !old(self).is_running() && !old(self).is_bound() ==> r matches Err(
                TransportError::NoHandler,
            ),
    ;

    /// Stop the transport: release the listener. Idempotent — stopping a
    /// stopped transport succeeds without any state change — and infallible.
    fn stop(&mut self) -> (r: Result<(), TransportError>)
        requires
            old(self).inv(),
        ensures
            r is Ok,
            final(self).inv(),
            !final(self).is_running(),
            final(self).requires_reset_spec() == old(self).requires_reset_spec(),
            final(self).address_spec() == old(self).address_spec(),
            final(self).bound_names() == old(self).bound_names(),
            final(self).is_bound() == old(self).is_bound(),
            !old(self).is_running() ==> *final(self) == *old(self),
    ;
}

/// One transport of any of the built-in kinds, so that transports of
/// different kinds can live together in one server.
pub enum AnyTransport {
    /// A JSON-RPC over HTTP transport.
    Http(crate::http::HttpTransport),
    /// A JSON-RPC over TCP transport with session metadata extraction.
    Tcp(crate::tcp::TcpTransport),
    /// A JSON-RPC over WebSockets transport.
    Ws(crate::ws::WsTransport),
    /// A line-oriented TCP transport holding a live registry reference.
    LiveTcp(crate::live_tcp::LiveTcpTransport),
}

impl Transport for AnyTransport {
    closed spec fn inv(&self) -> bool {
        match self {
            AnyTransport::Http(t) => t.inv(),
            AnyTransport::Tcp(t) => t.inv(),
            AnyTransport::Ws(t) => t.inv(),
            AnyTransport::LiveTcp(t) => t.inv(),
        }
    }

    closed spec fn requires_reset_spec(&self) -> bool {
        match self {
            AnyTransport::Http(t) => t.requires_reset_spec(),
            AnyTransport::Tcp(t) => t.requires_reset_spec(),
            AnyTransport::Ws(t) => t.requires_reset_spec(),
            AnyTransport::LiveTcp(t) => t.requires_reset_spec(),
        }
    }

    closed spec fn is_running(&self) -> bool {
        match self {
            AnyTransport::Http(t) => t.is_running(),
            AnyTransport::Tcp(t) => t.is_running(),
            AnyTransport::Ws(t) => t.is_running(),
            AnyTransport::LiveTcp(t) => t.is_running(),
        }
    }

    closed spec fn is_bound(&self) -> bool {
        match self {
            AnyTransport::Http(t) => t.is_bound(),
            AnyTransport::Tcp(t) => t.is_bound(),
            AnyTransport::Ws(t) => t.is_bound(),
            AnyTransport::LiveTcp(t) => t.is_bound(),
        }
    }

    closed spec fn bound_names(&self) -> Seq<Seq<char>> {
        match self {
            AnyTransport::Http(t) => t.bound_names(),
            AnyTransport::Tcp(t) => t.bound_names(),
            AnyTransport::Ws(t) => t.bound_names(),
            AnyTransport::LiveTcp(t) => t.bound_names(),
        }
    }

    closed spec fn address_spec(&self) -> Seq<char> {
        match self {
            AnyTransport::Http(t) => t.address_spec(),
            AnyTransport::Tcp(t) => t.address_spec(),
            AnyTransport::Ws(t) => t.address_spec(),
            AnyTransport::LiveTcp(t) => t.address_spec(),
        }
    }

    fn requires_reset(&self) -> (r: bool) {
        match self {
            AnyTransport::Http(t) => t.requires_reset(),
            AnyTransport::Tcp(t) => t.requires_reset(),
            AnyTransport::Ws(t) => t.requires_reset(),
            AnyTransport::LiveTcp(t) => t.requires_reset(),
        }
    }

    fn running(&self) -> (r: bool) {
        match self {
            AnyTransport::Http(t) => t.running(),
            AnyTransport::Tcp(t) => t.running(),
            AnyTransport::Ws(t) => t.running(),
            AnyTransport::LiveTcp(t) => t.running(),
        }
    }

    fn set_handler(&mut self, registry: &crate::handler::RegistryHandle) -> (r: Result<
        (),
        TransportError,
    >) {
        match self {
            AnyTransport::Http(t) => t.set_handler(registry),
            AnyTransport::Tcp(t) => t.set_handler(registry),
            AnyTransport::Ws(t) => t.set_handler(registry),
            AnyTransport::LiveTcp(t) => t.set_handler(registry),
        }
    }

    fn start(&mut self) -> (r: Result<(), TransportError>) {
        match self {
            AnyTransport::Http(t) => t.start(),
            AnyTransport::Tcp(t) => t.start(),
            AnyTransport::Ws(t) => t.start(),
            AnyTransport::LiveTcp(t) => t.start(),
        }
    }

    fn stop(&mut self) -> (r: Result<(), TransportError>) {
        match self {
            AnyTransport::Http(t) => t.stop(),
            AnyTransport::Tcp(t) => t.stop(),
            AnyTransport::Ws(t) => t.stop(),
            AnyTransport::LiveTcp(t) => t.stop(),
        }
    }
}

} // verus!
