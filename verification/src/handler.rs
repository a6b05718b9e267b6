//! The registry handle: shared ownership of the JSON-RPC method registry,
//! together with a verified model of the method names registered so far.
//!
//! The registry itself — the mapping from method name to handler closure and
//! the JSON-RPC dispatch logic — is `jsonrpc_core`'s `MetaIoHandler`, extended
//! for subscriptions by `jsonrpc_pubsub::PubSubHandler`. It is an external
//! collaborator: this module treats it as an opaque synchronous request
//! processor and keeps beside it a verified model of the set of registered
//! method names, on which every contract of the crate is stated.

use vstd::prelude::*;

use std::sync::{Arc, Mutex};

verus! {

/// Declares `jsonrpc_pubsub::Session` — the pub-sub session attached to a
/// connection — so that it can stand in signatures. It is opaque here.
#[verifier::external_type_specification]
#[verifier::external_body]
pub struct ExSession(jsonrpc_pubsub::Session);

/// The metadata attached to each dispatched request: the pub-sub session of
/// the connection it arrived on, if the transport supports sessions.
pub type SessionMeta = Option<Arc<jsonrpc_pubsub::Session>>;

/// The shared, lock-guarded registry of JSON-RPC methods.
///
/// This wraps `Arc<Mutex<jsonrpc_pubsub::PubSubHandler<SessionMeta>>>`.
/// Verus refuses a declaration of `PubSubHandler` itself (its `Middleware`
/// trait bound cannot be declared), so the whole collection is held opaquely;
/// nothing is assumed about its contents. Clones of the cell alias the same
/// underlying registry.
#[verifier::external_body]
pub struct RegistryCell {
    pub(crate) inner: Arc<Mutex<jsonrpc_pubsub::PubSubHandler<SessionMeta>>>,
}

/// A snapshot of the registry contents, cloned out of the lock at one instant.
/// Listener libraries that bind the registry by value receive one of these;
/// mutations of the live registry after the snapshot are not visible in it.
#[verifier::external_body]
pub struct RegistrySnapshot {
    pub(crate) inner: jsonrpc_core::MetaIoHandler<SessionMeta>,
}

/// Relies on `PubSubHandler::default` (an empty method map underneath) and on
/// `Arc::new` / `Mutex::new`: builds a fresh, empty, shareable registry.
#[verifier::external_body]
fn registry_cell_new() -> (r: RegistryCell) {
    RegistryCell { inner: Arc::new(Mutex::new(jsonrpc_pubsub::PubSubHandler::default())) }
}

/// Relies on `Arc::clone`: the returned cell aliases the same registry.
#[verifier::external_body]
fn registry_cell_share(cell: &RegistryCell) -> (r: RegistryCell) {
    RegistryCell { inner: Arc::clone(&cell.inner) }
}

/// Relies on `MetaIoHandler::add_method`, which inserts `method` into the
/// method map under `name`, replacing any previous entry of that name. A
/// poisoned lock is recovered, so a handler that panicked during an earlier
/// dispatch cannot disable the registry.
#[verifier::external_body]
fn registry_cell_add_method<F: jsonrpc_core::RpcMethodSimple>(
    cell: &RegistryCell,
    name: &str,
    method: F,
) {
    cell.inner.lock().unwrap_or_else(|poisoned| poisoned.into_inner()).add_method(name, method);
}

/// Relies on `PubSubHandler::add_subscription`, which inserts exactly two
/// methods into the method map: one under the subscribe name, one under the
/// unsubscribe name. A poisoned lock is recovered, so a handler that panicked
/// during an earlier dispatch cannot disable the registry.
#[verifier::external_body]
fn registry_cell_add_subscription<F, G>(
    cell: &RegistryCell,
    notification: &str,
    subscribe: (&str, F),
    unsubscribe: (&str, G),
) where
    F: jsonrpc_pubsub::SubscribeRpcMethod<SessionMeta>,
    G: jsonrpc_pubsub::UnsubscribeRpcMethod<SessionMeta>,
{
    cell.inner
        .lock()
        .unwrap_or_else(|poisoned| poisoned.into_inner())
        .add_subscription(notification, subscribe, unsubscribe);
}

/// Relies on `MetaIoHandler::handle_request_sync`: resolves one request text
/// against the registry and produces the optional response text. The result
/// depends on the registered handler closures, so nothing is promised of it.
/// A poisoned lock is recovered, so a handler that panicked during an earlier
/// dispatch cannot disable the registry.
#[verifier::external_body]
fn registry_cell_dispatch(cell: &RegistryCell, request: &str, meta: SessionMeta) -> (r: Option<
    String,
>) {
    cell.inner
        .lock()
        .unwrap_or_else(|poisoned| poisoned.into_inner())
        .handle_request_sync(request, meta)
}

/// Relies on `MetaIoHandler::clone` (via `PubSubHandler`'s `Deref`): clones
/// the current registry contents out of the lock. A poisoned lock is
/// recovered, so a handler that panicked during an earlier dispatch cannot
/// disable the registry.
#[verifier::external_body]
fn registry_cell_snapshot(cell: &RegistryCell) -> (r: RegistrySnapshot) {
    RegistrySnapshot {
        inner: (**cell.inner.lock().unwrap_or_else(|poisoned| poisoned.into_inner())).clone(),
    }
}

/// Relies on `jsonrpc_pubsub::Session::new` and
/// `futures::channel::mpsc::unbounded`: a session whose transport sink is not
/// wired to anything, for driving the registry without a live connection.
#[verifier::external_body]
pub fn mock_session() -> (r: SessionMeta)
    ensures
        r is Some,
{
    let (sender, _) = futures::channel::mpsc::unbounded();
    Some(Arc::new(jsonrpc_pubsub::Session::new(sender)))
}

/// What registering `name` does to the model of registered names: a new name
/// is appended, a name registered before keeps its place (the registry's
/// method map replaces the entry, leaving the key set unchanged).
pub open spec fn spec_register(names: Seq<Seq<char>>, name: Seq<char>) -> Seq<Seq<char>> {
    if names.contains(name) {
        names
    } else {
        names.push(name)
    }
}

/// A shared, lockable handle to one JSON-RPC method registry, with a verified
/// model: the sequence of registered method names, in first-registration
/// order, without duplicates.
pub struct RegistryHandle {
    cell: RegistryCell,
    names: Vec<String>,
}

impl RegistryHandle {
    /// The model: the registered method names, in first-registration order.
    pub closed spec fn names_seq(&self) -> Seq<Seq<char>> {
        self.names.deep_view()
    }

    /// Well-formedness: no method name is listed twice.
    pub closed spec fn wf(&self) -> bool {
        forall|i: int, j: int|
            0 <= i < j < self.names.deep_view().len()
                ==> self.names.deep_view()[i] != self.names.deep_view()[j]
    }

    /// A fresh handle around an empty registry.
    pub fn new() -> (r: Self)
        ensures
            r.wf(),
            r.names_seq() == Seq::<Seq<char>>::empty(),
    {
        let r = RegistryHandle { cell: registry_cell_new(), names: Vec::new() };
        assert(r.names.deep_view() =~= Seq::<Seq<char>>::empty());
        r
    }

    /// Whether `name` is registered.
    fn contains_name(&self, name: &String) -> (r: bool)
        ensures
            r == self.names_seq().contains(name@),
    {
        let mut i: usize = 0;
        while i < self.names.len()
            invariant
                i <= self.names.len(),
                forall|k: int| 0 <= k < i ==> self.names.deep_view()[k] != name@,
            decreases self.names.len() - i,
        {
            assert(self.names.deep_view()[i as int] == self.names@[i as int]@);
            if self.names[i].eq(name) {
                assert(self.names_seq()[i as int] == name@);
                return true;
            }
            i = i + 1;
        }
        assert(forall|k: int| 0 <= k < self.names_seq().len()
            ==> self.names_seq()[k] != name@);
        false
    }

    /// Register a JSON-RPC method under `name`. A handler registered under an
    /// already-used name replaces the previous handler; the set of names is
    /// then unchanged.
    pub fn add_method<F: jsonrpc_core::RpcMethodSimple>(&mut self, name: &str, method: F)
        requires
            old(self).wf(),
        ensures
            final(self).wf(),
            final(self).names_seq() == spec_register(old(self).names_seq(), name@),
    {
        registry_cell_add_method(&self.cell, name, method);
        let owned = name.to_owned();
        if !self.contains_name(&owned) {
            let ghost before = self.names.deep_view();
            self.names.push(owned);
            assert(self.names.deep_view() =~= before.push(name@));
        }
    }

    /// Register a JSON-RPC subscription: a subscribe method and an unsubscribe
    /// method, in that order. The notification name is what the subscription
    /// publishes under; it is not itself a callable method.
    pub fn add_subscription<F, G>(
        &mut self,
        notification: &str,
        subscribe: (&str, F),
        unsubscribe: (&str, G),
    ) where
        F: jsonrpc_pubsub::SubscribeRpcMethod<SessionMeta>,
        G: jsonrpc_pubsub::UnsubscribeRpcMethod<SessionMeta>,
        requires
            old(self).wf(),
        ensures
            final(self).wf(),
            final(self).names_seq() == spec_register(
                spec_register(old(self).names_seq(), subscribe.0@),
                unsubscribe.0@,
            ),
    {
        let (subscribe_name, subscribe_method) = subscribe;
        let (unsubscribe_name, unsubscribe_method) = unsubscribe;
        registry_cell_add_subscription(
            &self.cell,
            notification,
            (subscribe_name, subscribe_method),
            (unsubscribe_name, unsubscribe_method),
        );
        let owned_sub = subscribe_name.to_owned();
        if !self.contains_name(&owned_sub) {
            let ghost before = self.names.deep_view();
            self.names.push(owned_sub);
            assert(self.names.deep_view() =~= before.push(subscribe_name@));
        }
        let owned_unsub = unsubscribe_name.to_owned();
        if !self.contains_name(&owned_unsub) {
            let ghost before = self.names.deep_view();
            self.names.push(owned_unsub);
            assert(self.names.deep_view() =~= before.push(unsubscribe_name@));
        }
    }

    /// The registered method names, in first-registration order: each name
    /// exactly once.
    pub fn describe(&self) -> (r: Vec<String>)
        requires
            self.wf(),
        ensures
            r.deep_view() == self.names_seq(),
            forall|i: int, j: int|
                0 <= i < j < r.deep_view().len() ==> r.deep_view()[i] != r.deep_view()[j],
    {
        let mut r: Vec<String> = Vec::new();
        let mut i: usize = 0;
        while i < self.names.len()
            invariant
                i <= self.names.len(),
                r.deep_view() =~= self.names.deep_view().subrange(0, i as int),
            decreases self.names.len() - i,
        {
            let ghost before = r.deep_view();
            r.push(self.names[i].clone());
            assert(r.deep_view() =~= before.push(self.names.deep_view()[i as int]));
            i = i + 1;
            assert(r.deep_view() =~= self.names.deep_view().subrange(0, i as int));
        }
        assert(r.deep_view() =~= self.names.deep_view());
        r
    }

    /// Resolve one JSON-RPC request text against the registry, blocking until
    /// the optional response text is available. The result is produced by the
    /// registered handler closures, so nothing is stated of it.
    pub fn handle_request_sync(&self, request: &str, meta: SessionMeta) -> Option<String> {
        registry_cell_dispatch(&self.cell, request, meta)
    }

    /// A snapshot of the registry contents at this instant, for transports
    /// that bind the registry by value.
    pub(crate) fn snapshot(&self) -> RegistrySnapshot {
        registry_cell_snapshot(&self.cell)
    }

    /// A live, shared reference to the registry, for transports and dispatch
    /// workers that observe mutations immediately.
    pub fn dispatcher(&self) -> Dispatcher {
        Dispatcher { cell: registry_cell_share(&self.cell) }
    }
}

/// A live dispatch handle: shares the registry, observes every mutation made
/// through the originating `RegistryHandle` immediately.
pub struct Dispatcher {
    cell: RegistryCell,
}

impl Dispatcher {
    /// Resolve one JSON-RPC request text against the live registry. The
    /// result is produced by the registered handler closures, so nothing is
    /// stated of it.
    pub fn dispatch(&self, request: &str, meta: SessionMeta) -> Option<String> {
        registry_cell_dispatch(&self.cell, request, meta)
    }

    /// Another handle onto the same live registry.
    pub fn share(&self) -> Dispatcher {
        Dispatcher { cell: registry_cell_share(&self.cell) }
    }
}

} // verus!
