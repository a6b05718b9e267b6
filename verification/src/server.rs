//! Mono-transport and multi-transport JSON-RPC servers.
//!
//! A server owns one registry handle and a set of transports, every one of
//! which was bound to that registry when it was added. Registry mutations go
//! through the server, which then runs the reset protocol: every transport
//! that binds the registry by value is stopped, re-bound to the mutated
//! registry, and — if it was running — started again; transports holding a
//! live reference are left untouched. The server invariant `synced` states
//! the outcome: every reset-requiring transport is bound to exactly the
//! current registry model.

use vstd::prelude::*;

use crate::handler::{spec_register, Dispatcher, RegistryHandle, SessionMeta};
use crate::transports::{AnyTransport, Transport, TransportError};

verus! {

/// Enumerates all the different errors that a `Server` can get into.
#[derive(Debug)]
pub enum ServerError {
    /// An error that happened in one of the underlying transports.
    Transport(TransportError),
}

impl From<TransportError> for ServerError {
    /// Wrap a transport error.
    fn from(value: TransportError) -> (r: Self)
        ensures
            r == ServerError::Transport(value),
    {
        ServerError::Transport(value)
    }
}

impl vstd::std_specs::convert::FromSpecImpl<TransportError> for ServerError {
    open spec fn obeys_from_spec() -> bool {
        true
    }

    open spec fn from_spec(value: TransportError) -> Self {
        ServerError::Transport(value)
    }
}

/// Two transport states that agree on everything the owning server does not
/// deliberately change: identity (reset flag, address), binding, and the
/// registry model bound.
pub open spec fn same_binding<T: Transport>(a: T, b: T) -> bool {
    &&& b.inv()
    &&& b.requires_reset_spec() == a.requires_reset_spec()
    &&& b.address_spec() == a.address_spec()
    &&& b.bound_names() == a.bound_names()
    &&& b.is_bound() == a.is_bound()
}

/// Two transport states that agree on identity: reset flag and address.
pub open spec fn same_identity<T: Transport>(a: T, b: T) -> bool {
    &&& b.inv()
    &&& b.requires_reset_spec() == a.requires_reset_spec()
    &&& b.address_spec() == a.address_spec()
}

/// A convenient alias for a multi-transport server over the built-in
/// transport kinds.
pub type WittyMultiServer = MultipleTransportsServer<AnyTransport>;

/// A convenient alias for a single-transport server over the built-in
/// transport kinds.
pub type WittyMonoServer = SingleTransportServer<AnyTransport>;

/// A JSON-RPC server that supports using multiple transports at once.
///
/// All the transports share the same underlying registry.
pub struct MultipleTransportsServer<T: Transport> {
    transports: Vec<T>,
    registry: RegistryHandle,
}

impl<T: Transport> MultipleTransportsServer<T> {
    /// The model of the shared registry: the registered method names, in
    /// first-registration order, without duplicates.
    pub closed spec fn api(&self) -> Seq<Seq<char>> {
        self.registry.names_seq()
    }

    /// The transports added so far, in insertion order.
    pub closed spec fn transports_seq(&self) -> Seq<T> {
        self.transports@
    }

    /// Basic well-formedness: the registry model is duplicate-free and every
    /// transport satisfies its own invariant.
    pub closed spec fn wf(&self) -> bool {
        &&& self.registry.wf()
        &&& forall|i: int|
            0 <= i < self.transports_seq().len() ==> (#[trigger] self.transports_seq()[i]).inv()
    }

    /// The reset-protocol invariant: every transport that requires a reset to
    /// observe registry mutations is bound to exactly the current registry
    /// model. Transports holding a live registry reference need no such
    /// synchronisation — they observe the current registry by construction.
    pub open spec fn synced(&self) -> bool {
        forall|i: int|
            0 <= i < self.transports_seq().len() && (
            #[trigger] self.transports_seq()[i]).requires_reset_spec()
                ==> self.transports_seq()[i].bound_names() == self.api()
    }

    /// Create a new server with everything set to its defaults: an empty
    /// registry, no transports.
    pub fn new() -> (r: Self)
        ensures
            r.wf(),
            r.synced(),
            r.api() == Seq::<Seq<char>>::empty(),
            r.transports_seq().len() == 0,
    {
        MultipleTransportsServer { transports: Vec::new(), registry: RegistryHandle::new() }
    }

    /// Add a transport to the server, binding it to the server's registry.
    /// Does not start it.
    pub fn add_transport(&mut self, transport: T)
        requires
            old(self).wf(),
            old(self).synced(),
            transport.inv(),
        ensures
            final(self).wf(),
            final(self).synced(),
            final(self).api() == old(self).api(),
            final(self).transports_seq().len() == old(self).transports_seq().len() + 1,
            forall|i: int|
                0 <= i < old(self).transports_seq().len()
                    ==> final(self).transports_seq()[i] == old(self).transports_seq()[i],
            final(self).transports_seq().last().is_bound(),
            final(self).transports_seq().last().bound_names() == old(self).api(),
            final(self).transports_seq().last().is_running() == transport.is_running(),
            same_identity(transport, final(self).transports_seq().last()),
    {
        let mut transport = transport;
        let _ = transport.set_handler(&self.registry);
        self.transports.push(transport);
    }

    /// Programmatically trigger the handling of a JSON-RPC message inside the
    /// registry that the server wraps, bypassing all transports. The response
    /// is produced by the registered handler closures, so nothing is stated
    /// of it.
    pub fn handle_request_sync(&self, request: &str, meta: SessionMeta) -> Option<String> {
        self.registry.handle_request_sync(request, meta)
    }

    /// A live dispatch handle onto the server's registry, for embedding
    /// programs that drive a live-reference transport's connections.
    pub fn dispatcher(&self) -> Dispatcher {
        self.registry.dispatcher()
    }

    /// Start every transport, in insertion order. On the first failure the
    /// error is surfaced and the transports already started are left running;
    /// there is no rollback.
    #[verifier::loop_isolation(false)]
    pub fn start(&mut self) -> (r: Result<(), ServerError>)
        requires
            old(self).wf(),
            old(self).synced(),
        ensures
            final(self).wf(),
            final(self).synced(),
            final(self).api() == old(self).api(),
            final(self).transports_seq().len() == old(self).transports_seq().len(),
            forall|i: int|
                0 <= i < old(self).transports_seq().len()
                    ==> same_binding(
                    #[trigger] old(self).transports_seq()[i],
                    final(self).transports_seq()[i],
                ),
            r is Ok ==> forall|i: int|
                0 <= i < final(self).transports_seq().len() ==> (
                #[trigger] final(self).transports_seq()[i]).is_running(),
            old(self).transports_seq().len() == 0 ==> r is Ok,
            (forall|i: int|
                0 <= i < old(self).transports_seq().len() ==> (
                #[trigger] old(self).transports_seq()[i]).is_running()) ==> r is Ok,
            r is Err ==> exists|f: int|
                #![trigger old(self).transports_seq()[f]]
                {
                    &&& 0 <= f < old(self).transports_seq().len()
                    &&& !old(self).transports_seq()[f].is_running()
                    &&& forall|k: int|
                        0 <= k < f ==> (#[trigger] final(self).transports_seq()[k]).is_running()
                    &&& forall|k: int|
                        f <= k < old(self).transports_seq().len()
                            ==> final(self).transports_seq()[k] == old(self).transports_seq()[k]
                },
    {
        let ghost orig = *self;
        let mut i: usize = 0;
        while i < self.transports.len()
            invariant
                self.registry == orig.registry,
                self.transports.len() == orig.transports.len(),
                i <= self.transports.len(),
                forall|k: int|
                    #![trigger orig.transports@[k]]
                    #![trigger self.transports@[k]]
                    0 <= k < orig.transports@.len() ==> same_binding(
                        orig.transports@[k],
                        self.transports@[k],
                    ),
                forall|k: int|
                    0 <= k < i ==> (#[trigger] self.transports@[k]).is_running(),
                forall|k: int|
                    #![trigger orig.transports@[k]]
                    #![trigger self.transports@[k]]
                    i <= k < orig.transports@.len()
                        ==> self.transports@[k] == orig.transports@[k],
            decreases self.transports.len() - i,
        {
            let ghost failing = i as int;
            let transport = &mut self.transports[i];
            match transport.start() {
                Ok(_) => {},
                Err(e) => {
                    proof {
                        assert(!orig.transports@[failing].is_running());
                        assert(!old(self).transports_seq()[failing].is_running());
                    }
                    return Err(ServerError::Transport(e));
                },
            }
            i = i + 1;
        }
        Ok(())
    }

    /// Stop every transport, in insertion order. A transport's stop is
    /// idempotent and infallible, so stopping the whole server always
    /// succeeds and leaves no transport running: best-effort and fail-fast
    /// shutdown coincide.
    #[verifier::loop_isolation(false)]
    pub fn stop(&mut self) -> (r: Result<(), ServerError>)
        requires
            old(self).wf(),
            old(self).synced(),
        ensures
            r is Ok,
            final(self).wf(),
            final(self).synced(),
            final(self).api() == old(self).api(),
            final(self).transports_seq().len() == old(self).transports_seq().len(),
            forall|i: int|
                0 <= i < old(self).transports_seq().len()
                    ==> same_binding(
                    #[trigger] old(self).transports_seq()[i],
                    final(self).transports_seq()[i],
                ),
            forall|i: int|
                0 <= i < final(self).transports_seq().len() ==> !(
                #[trigger] final(self).transports_seq()[i]).is_running(),
    {
        let ghost orig = *self;
        let mut i: usize = 0;
        while i < self.transports.len()
            invariant
                self.registry == orig.registry,
                self.transports.len() == orig.transports.len(),
                i <= self.transports.len(),
                forall|k: int|
                    #![trigger orig.transports@[k]]
                    #![trigger self.transports@[k]]
                    0 <= k < orig.transports@.len() ==> same_binding(
                        orig.transports@[k],
                        self.transports@[k],
                    ),
                forall|k: int| 0 <= k < i ==> !(#[trigger] self.transports@[k]).is_running(),
            decreases self.transports.len() - i,
        {
            let transport = &mut self.transports[i];
            let _ = transport.stop();
            i = i + 1;
        }
        Ok(())
    }

    /// Stop, re-bind and re-start every transport that requires it, so that
    /// each one observes the current registry contents.
    ///
    /// For every transport where `requires_reset()` is true: if it is
    /// running, stop it; bind it to the (possibly just mutated) registry; if
    /// it was running, start it again on its unchanged address. Transports
    /// where `requires_reset()` is false are left completely untouched —
    /// their live reference already observes every mutation. A failure to
    /// restart one transport does not abort the reset of the remaining ones;
    /// the first such error is reported.
    #[verifier::loop_isolation(false)]
    pub fn reset_all_transports(&mut self) -> (r: Result<(), TransportError>)
        requires
            old(self).wf(),
        ensures
            final(self).wf(),
            final(self).synced(),
            final(self).api() == old(self).api(),
            final(self).transports_seq().len() == old(self).transports_seq().len(),
            forall|i: int|
                0 <= i < old(self).transports_seq().len() && !(
                #[trigger] old(self).transports_seq()[i]).requires_reset_spec()
                    ==> final(self).transports_seq()[i] == old(self).transports_seq()[i],
            forall|i: int|
                0 <= i < old(self).transports_seq().len()
                    ==> same_identity(
                    #[trigger] old(self).transports_seq()[i],
                    final(self).transports_seq()[i],
                ),
            r is Ok ==> forall|i: int|
                0 <= i < old(self).transports_seq().len() && (
                #[trigger] old(self).transports_seq()[i]).requires_reset_spec() && old(
                    self,
                ).transports_seq()[i].is_running()
                    ==> final(self).transports_seq()[i].is_running(),
            forall|i: int|
                0 <= i < old(self).transports_seq().len() && !(
                #[trigger] old(self).transports_seq()[i]).is_running()
                    ==> !final(self).transports_seq()[i].is_running(),
            (forall|i: int|
                0 <= i < old(self).transports_seq().len() && (
                #[trigger] old(self).transports_seq()[i]).requires_reset_spec()
                    ==> !old(self).transports_seq()[i].is_running()) ==> r is Ok,
    {
        let ghost orig = *self;
        let mut first_error: Option<TransportError> = None;
        let mut i: usize = 0;
        while i < self.transports.len()
            invariant
                orig.wf(),
                self.registry == orig.registry,
                self.transports.len() == orig.transports.len(),
                i <= self.transports.len(),
                forall|k: int|
                    0 <= k < orig.transports@.len() && !(
                    #[trigger] orig.transports@[k]).requires_reset_spec()
                        ==> self.transports@[k] == orig.transports@[k],
                forall|k: int|
                    #![trigger orig.transports@[k]]
                    #![trigger self.transports@[k]]
                    0 <= k < orig.transports@.len() ==> same_identity(
                        orig.transports@[k],
                        self.transports@[k],
                    ),
                forall|k: int|
                    #![trigger orig.transports@[k]]
                    #![trigger self.transports@[k]]
                    i <= k < orig.transports@.len()
                        ==> self.transports@[k] == orig.transports@[k],
                forall|k: int|
                    0 <= k < i && (#[trigger] self.transports@[k]).requires_reset_spec()
                        ==> self.transports@[k].bound_names() == orig.registry.names_seq()
                            && self.transports@[k].is_bound(),
                first_error is None ==> forall|k: int|
                    0 <= k < i && (#[trigger] orig.transports@[k]).requires_reset_spec()
                        && orig.transports@[k].is_running()
                        ==> self.transports@[k].is_running(),
                forall|k: int|
                    #![trigger orig.transports@[k]]
                    #![trigger self.transports@[k]]
                    0 <= k < i && !orig.transports@[k].is_running()
                        ==> !self.transports@[k].is_running(),
                (forall|k: int|
                    0 <= k < orig.transports@.len() && (
                    #[trigger] orig.transports@[k]).requires_reset_spec()
                        ==> !orig.transports@[k].is_running()) ==> first_error is None,
            decreases self.transports.len() - i,
        {
            let registry = &self.registry;
            let transport = &mut self.transports[i];
            if transport.requires_reset() {
                let was_running = transport.running();
                if was_running {
                    let _ = transport.stop();
                }
                let _ = transport.set_handler(registry);
                if was_running {
                    match transport.start() {
                        Ok(_) => {},
                        Err(e) => {
                            if first_error.is_none() {
                                first_error = Some(e);
                            }
                        },
                    }
                }
            }
            i = i + 1;
        }
        match first_error {
            None => Ok(()),
            Some(e) => Err(e),
        }
    }

    /// Register a JSON-RPC method under `name` on the shared registry, then
    /// reset every transport that binds the registry by value, so that the
    /// method becomes dispatchable on every transport. An error during the
    /// reset is deliberately swallowed: the registration itself has already
    /// succeeded.
    pub fn add_method<F: jsonrpc_core::RpcMethodSimple>(&mut self, name: &str, method: F)
        requires
            old(self).wf(),
            old(self).synced(),
        ensures
            final(self).wf(),
            final(self).synced(),
            final(self).api() == spec_register(old(self).api(), name@),
            final(self).transports_seq().len() == old(self).transports_seq().len(),
            forall|i: int|
                0 <= i < old(self).transports_seq().len() && !(
                #[trigger] old(self).transports_seq()[i]).requires_reset_spec()
                    ==> final(self).transports_seq()[i] == old(self).transports_seq()[i],
            forall|i: int|
                0 <= i < old(self).transports_seq().len()
                    ==> same_identity(
                    #[trigger] old(self).transports_seq()[i],
                    final(self).transports_seq()[i],
                ),
            forall|i: int|
                0 <= i < old(self).transports_seq().len() && !(
                #[trigger] old(self).transports_seq()[i]).is_running()
                    ==> !final(self).transports_seq()[i].is_running(),
    {
        self.registry.add_method(name, method);
        let _ = self.reset_all_transports();
    }

    /// Register a JSON-RPC subscription — a subscribe method and an
    /// unsubscribe method — on the shared registry, then reset every
    /// transport that binds the registry by value. An error during the reset
    /// is deliberately swallowed: the registration itself has already
    /// succeeded.
    pub fn add_subscription<F, G>(
        &mut self,
        notification: &str,
        subscribe: (&str, F),
        unsubscribe: (&str, G),
    ) where
        F: jsonrpc_pubsub::SubscribeRpcMethod<SessionMeta>,
        G: jsonrpc_pubsub::UnsubscribeRpcMethod<SessionMeta>,
        requires
            old(self).wf(),
            old(self).synced(),
        ensures
            final(self).wf(),
            final(self).synced(),
            final(self).api() == spec_register(
                spec_register(old(self).api(), subscribe.0@),
                unsubscribe.0@,
            ),
            final(self).transports_seq().len() == old(self).transports_seq().len(),
            forall|i: int|
                0 <= i < old(self).transports_seq().len() && !(
                #[trigger] old(self).transports_seq()[i]).requires_reset_spec()
                    ==> final(self).transports_seq()[i] == old(self).transports_seq()[i],
            forall|i: int|
                0 <= i < old(self).transports_seq().len()
                    ==> same_identity(
                    #[trigger] old(self).transports_seq()[i],
                    final(self).transports_seq()[i],
                ),
            forall|i: int|
                0 <= i < old(self).transports_seq().len() && !(
                #[trigger] old(self).transports_seq()[i]).is_running()
                    ==> !final(self).transports_seq()[i].is_running(),
    {
        self.registry.add_subscription(notification, subscribe, unsubscribe);
        let _ = self.reset_all_transports();
    }

    /// Get a list of all the supported JSON-RPC methods, in
    /// first-registration order: each registered name exactly once.
    pub fn describe_api(&self) -> (r: Vec<String>)
        requires
            self.wf(),
        ensures
            r.deep_view() == self.api(),
            forall|i: int, j: int|
                0 <= i < j < r.deep_view().len() ==> r.deep_view()[i] != r.deep_view()[j],
    {
        self.registry.describe()
    }
}

/// Law: on a well-formed, synchronised server, every transport that requires
/// a reset to observe registry mutations is bound to exactly the current
/// registry model — after any sequence of registrations, starts and stops,
/// `describe_api()` reflects every method added so far, and every such
/// transport was bound to exactly that method list.
pub proof fn lemma_transports_observe_registry<T: Transport>(
    server: &MultipleTransportsServer<T>,
    i: int,
)
    requires
        server.wf(),
        server.synced(),
        0 <= i < server.transports_seq().len(),
        server.transports_seq()[i].requires_reset_spec(),
    ensures
        server.transports_seq()[i].bound_names() == server.api(),
{
}

/// A simple JSON-RPC server that only uses one transport.
pub struct SingleTransportServer<T: Transport> {
    inner: MultipleTransportsServer<T>,
}

impl<T: Transport> SingleTransportServer<T> {
    /// The model of the registry: the registered method names, in
    /// first-registration order, without duplicates.
    pub closed spec fn api(&self) -> Seq<Seq<char>> {
        self.inner.api()
    }

    /// The transports of the wrapped server: at most one.
    pub closed spec fn transports_seq(&self) -> Seq<T> {
        self.inner.transports_seq()
    }

    /// Well-formedness and the reset-protocol invariant of the wrapped
    /// server.
    pub closed spec fn wf(&self) -> bool {
        &&& self.inner.wf()
        &&& self.inner.synced()
    }

    /// Create a simple server around an already existing instance of a
    /// transport.
    pub fn from_transport(transport: T) -> (r: Self)
        requires
            transport.inv(),
        ensures
            r.wf(),
            r.api() == Seq::<Seq<char>>::empty(),
            r.transports_seq().len() == 1,
            r.transports_seq()[0].is_bound(),
            r.transports_seq()[0].is_running() == transport.is_running(),
            same_identity(transport, r.transports_seq()[0]),
    {
        let mut inner = MultipleTransportsServer::new();
        inner.add_transport(transport);
        SingleTransportServer { inner }
    }

    /// Create a new server without any transport yet.
    pub fn new() -> (r: Self)
        ensures
            r.wf(),
            r.api() == Seq::<Seq<char>>::empty(),
            r.transports_seq().len() == 0,
    {
        SingleTransportServer { inner: MultipleTransportsServer::new() }
    }

    /// Programmatically trigger the handling of a JSON-RPC message on this
    /// server, bypassing the transport.
    pub fn handle_request_sync(&self, request: &str, meta: SessionMeta) -> Option<String> {
        self.inner.handle_request_sync(request, meta)
    }

    /// Start the transport.
    pub fn start(&mut self) -> (r: Result<(), ServerError>)
        requires
            old(self).wf(),
        ensures
            final(self).wf(),
            final(self).api() == old(self).api(),
            final(self).transports_seq().len() == old(self).transports_seq().len(),
            r is Ok ==> forall|i: int|
                0 <= i < final(self).transports_seq().len() ==> (
                #[trigger] final(self).transports_seq()[i]).is_running(),
            old(self).transports_seq().len() == 0 ==> r is Ok,
            (forall|i: int|
                0 <= i < old(self).transports_seq().len() ==> (
                #[trigger] old(self).transports_seq()[i]).is_running()) ==> r is Ok,
            r is Err ==> exists|f: int|
                #![trigger old(self).transports_seq()[f]]
                {
                    &&& 0 <= f < old(self).transports_seq().len()
                    &&& !old(self).transports_seq()[f].is_running()
                    &&& forall|k: int|
                        0 <= k < f ==> (#[trigger] final(self).transports_seq()[k]).is_running()
                    &&& forall|k: int|
                        f <= k < old(self).transports_seq().len()
                            ==> final(self).transports_seq()[k] == old(self).transports_seq()[k]
                },
    {
        let outcome = self.inner.start();
        proof {
            if outcome is Err {
                let f = choose|f: int|
                    #![trigger old(self).inner.transports_seq()[f]]
                    {
                        &&& 0 <= f < old(self).inner.transports_seq().len()
                        &&& !old(self).inner.transports_seq()[f].is_running()
                        &&& forall|k: int|
                            0 <= k < f ==> (
                            #[trigger] self.inner.transports_seq()[k]).is_running()
                        &&& forall|k: int|
                            f <= k < old(self).inner.transports_seq().len()
                                ==> self.inner.transports_seq()[k] == old(
                                self,
                            ).inner.transports_seq()[k]
                    };
                assert(0 <= f < old(self).transports_seq().len());
                assert(!old(self).transports_seq()[f].is_running());
            }
        }
        outcome
    }

    /// Stop the transport.
    pub fn stop(&mut self) -> (r: Result<(), ServerError>)
        requires
            old(self).wf(),
        ensures
            r is Ok,
            final(self).wf(),
            final(self).api() == old(self).api(),
            final(self).transports_seq().len() == old(self).transports_seq().len(),
            forall|i: int|
                0 <= i < final(self).transports_seq().len() ==> !(
                #[trigger] final(self).transports_seq()[i]).is_running(),
    {
        self.inner.stop()
    }

    /// Register a JSON-RPC method under `name`, propagating it to the
    /// transport as `MultipleTransportsServer::add_method` does.
    pub fn add_method<F: jsonrpc_core::RpcMethodSimple>(&mut self, name: &str, method: F)
        requires
            old(self).wf(),
        ensures
            final(self).wf(),
            final(self).api() == spec_register(old(self).api(), name@),
            final(self).transports_seq().len() == old(self).transports_seq().len(),
            forall|i: int|
                0 <= i < old(self).transports_seq().len() && !(
                #[trigger] old(self).transports_seq()[i]).requires_reset_spec()
                    ==> final(self).transports_seq()[i] == old(self).transports_seq()[i],
            forall|i: int|
                0 <= i < old(self).transports_seq().len()
                    ==> same_identity(
                    #[trigger] old(self).transports_seq()[i],
                    final(self).transports_seq()[i],
                ),
            forall|i: int|
                0 <= i < old(self).transports_seq().len() && !(
                #[trigger] old(self).transports_seq()[i]).is_running()
                    ==> !final(self).transports_seq()[i].is_running(),
    {
        self.inner.add_method(name, method);
    }

    /// Register a JSON-RPC subscription, propagating it to the transport as
    /// `MultipleTransportsServer::add_subscription` does.
    pub fn add_subscription<F, G>(
        &mut self,
        notification: &str,
        subscribe: (&str, F),
        unsubscribe: (&str, G),
    ) where
        F: jsonrpc_pubsub::SubscribeRpcMethod<SessionMeta>,
        G: jsonrpc_pubsub::UnsubscribeRpcMethod<SessionMeta>,
        requires
            old(self).wf(),
        ensures
            final(self).wf(),
            final(self).api() == spec_register(
                spec_register(old(self).api(), subscribe.0@),
                unsubscribe.0@,
            ),
            final(self).transports_seq().len() == old(self).transports_seq().len(),
            forall|i: int|
                0 <= i < old(self).transports_seq().len() && !(
                #[trigger] old(self).transports_seq()[i]).requires_reset_spec()
                    ==> final(self).transports_seq()[i] == old(self).transports_seq()[i],
            forall|i: int|
                0 <= i < old(self).transports_seq().len()
                    ==> same_identity(
                    #[trigger] old(self).transports_seq()[i],
                    final(self).transports_seq()[i],
                ),
            forall|i: int|
                0 <= i < old(self).transports_seq().len() && !(
                #[trigger] old(self).transports_seq()[i]).is_running()
                    ==> !final(self).transports_seq()[i].is_running(),
    {
        self.inner.add_subscription(notification, subscribe, unsubscribe);
    }

    /// Get a list of all the supported JSON-RPC methods, in
    /// first-registration order: each registered name exactly once.
    pub fn describe_api(&self) -> (r: Vec<String>)
        requires
            self.wf(),
        ensures
            r.deep_view() == self.api(),
            forall|i: int, j: int|
                0 <= i < j < r.deep_view().len() ==> r.deep_view()[i] != r.deep_view()[j],
    {
        self.inner.describe_api()
    }
}

} // verus!
