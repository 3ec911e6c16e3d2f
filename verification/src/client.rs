//! The handle through which the primary and the workers of a node share one
//! registry.
//!
//! Every clone of a handle reaches the same registry. The registry lies
//! behind a reader/writer lock: a registration or a shutdown holds it
//! exclusively for one transition, a look holds it shared for one read, and
//! nothing holds it while a discovery waits.

use vstd::prelude::*;
use std::sync::Arc;
use parking_lot::RwLock;
use crate::discovery::Discovery;
use crate::discovery::Step;
use crate::error::LocalClientError;
use crate::peer_id::empty_peer_id;
use crate::peer_id::NetworkKeyPair;
use crate::peer_id::PeerId;
use crate::registry::Registry;

verus! {

/// `lock_api::RwLock`, the lock behind `parking_lot::RwLock`. Nothing is
/// known of what it guards.
#[verifier::external_type_specification]
#[verifier::external_body]
#[verifier::reject_recursive_types(R)]
#[verifier::reject_recursive_types(T)]
pub struct ExRwLock<R, T: ?Sized>(parking_lot::lock_api::RwLock<R, T>);

/// `parking_lot::RawRwLock`, the lock word of `parking_lot::RwLock`.
#[verifier::external_type_specification]
#[verifier::external_body]
pub struct ExRawRwLock(parking_lot::RawRwLock);

/// Shared access to what a lock guards: a `parking_lot::RwLockReadGuard`,
/// held opaquely, because the guard's own type is bounded by a trait of the
/// lock crate. The lock is released when the guard is dropped.
#[verifier::external_body]
#[verifier::reject_recursive_types(T)]
struct ReadGuard<'a, T> {
    guard: parking_lot::RwLockReadGuard<'a, T>,
}

/// Exclusive access to what a lock guards: a
/// `parking_lot::RwLockWriteGuard`, held opaquely for the same reason. The
/// lock is released when the guard is dropped.
#[verifier::external_body]
#[verifier::reject_recursive_types(T)]
struct WriteGuard<'a, T> {
    guard: parking_lot::RwLockWriteGuard<'a, T>,
}

/// `RwLock::new`: an unlocked lock that guards `value`.
#[verifier::external_body]
fn lock_new<T>(value: T) -> RwLock<T> {
    RwLock::new(value)
}

/// `RwLock::read`: waits until no writer holds the lock, and holds it shared.
#[verifier::external_body]
fn lock_read<'a, T>(lock: &'a RwLock<T>) -> ReadGuard<'a, T> {
    ReadGuard { guard: lock.read() }
}

/// `RwLock::write`: waits until nobody holds the lock, and holds it
/// exclusively.
#[verifier::external_body]
fn lock_write<'a, T>(lock: &'a RwLock<T>) -> WriteGuard<'a, T> {
    WriteGuard { guard: lock.write() }
}

/// `Deref::deref` of a read guard: what the lock guards, as other holders
/// of the lock left it. Nothing is claimed of it.
#[verifier::external_body]
fn guarded<'a, 'b, T>(guard: &'a ReadGuard<'b, T>) -> &'a T {
    &*guard.guard
}

/// `DerefMut::deref_mut` of a write guard: what the lock guards, as other
/// holders of the lock left it. Nothing is claimed of it.
#[verifier::external_body]
fn guarded_mut<'a, 'b, T>(guard: &'a mut WriteGuard<'b, T>) -> &'a mut T {
    &mut *guard.guard
}

/// `Arc::clone`: one more pointer to the same value.
#[verifier::external_body]
fn share<T>(pointer: &Arc<T>) -> (shared: Arc<T>)
    ensures
        shared == *pointer,
{
    Arc::clone(pointer)
}

/// A handle on the registry of one node. `WP` is the handler that workers
/// call on the primary, `PW` the one that the primary calls on a worker, `WW`
/// the one that a worker calls on another worker.
///
/// The registry is shared with every clone of the handle and changes under
/// their hands, so the contracts below speak of what a call returns and of
/// the discovery it advances, not of the registry: what a transition does to
/// a registry is stated on [`Registry`]. A handler is cloned and dropped
/// while the lock is held; neither may call back into the handle.
#[verifier::reject_recursive_types(WP)]
#[verifier::reject_recursive_types(PW)]
#[verifier::reject_recursive_types(WW)]
pub struct NetworkClient<WP, PW, WW> {
    /// The identity of the node's primary. It is fixed when the registry is
    /// made, so it is kept beside the lock and read without it.
    primary_peer_id: PeerId,
    inner: Arc<RwLock<Registry<WP, PW, WW>>>,
}

impl<WP, PW, WW> Clone for NetworkClient<WP, PW, WW> {
    /// One more handle on the same registry.
    fn clone(&self) -> (handle: Self)
        ensures
            handle == *self,
    {
        NetworkClient { primary_peer_id: self.primary_peer_id, inner: share(&self.inner) }
    }
}

impl<WP, PW, WW> NetworkClient<WP, PW, WW> {
    /// The identity of the node's primary.
    pub closed spec fn primary(&self) -> PeerId {
        self.primary_peer_id
    }

    /// A handle on a new registry, of the node whose primary is
    /// `primary_peer_id`.
    pub fn new(primary_peer_id: PeerId) -> (client: Self)
        ensures
            client.primary() == primary_peer_id,
    {
        NetworkClient { primary_peer_id, inner: Arc::new(lock_new(Registry::new())) }
    }

    /// A handle on a new registry, of the node whose primary holds the key
    /// pair: the primary's identity is the bytes of its public key.
    pub fn new_from_keypair(primary_network_keypair: &NetworkKeyPair) -> (client: Self)
        ensures
            client.primary()@ == primary_network_keypair.public_key()@,
    {
        Self::new(PeerId::from_public_key(primary_network_keypair.public()))
    }

    /// A handle on a new registry, of a node whose primary has no key yet:
    /// its identity is 32 zero bytes.
    pub fn new_with_empty_id() -> (client: Self)
        ensures
            client.primary()@ == crate::peer_id::zero_bytes(),
    {
        Self::new(empty_peer_id())
    }

    /// The identity of the node's primary.
    pub fn primary_peer_id(&self) -> (id: PeerId)
        ensures
            id == self.primary(),
    {
        self.primary_peer_id
    }

    /// Registers the handler of the node's primary, in place of an earlier
    /// one.
    pub fn set_worker_to_primary_local_handler(&self, handler: WP) {
        let mut guard = lock_write(&self.inner);
        let registry = guarded_mut(&mut guard);
        registry.register_worker_to_primary(handler);
    }

    /// Registers the handler that the primary calls on the worker
    /// `worker_id`, in place of an earlier one for that worker.
    pub fn set_primary_to_worker_local_handler(&self, worker_id: PeerId, handler: PW) {
        let mut guard = lock_write(&self.inner);
        let registry = guarded_mut(&mut guard);
        registry.register_primary_to_worker(worker_id, handler);
    }

    /// Registers the handler that other workers call on the worker
    /// `worker_id`, in place of an earlier one for that worker.
    pub fn set_worker_to_worker_local_handler(&self, worker_id: PeerId, handler: WW) {
        let mut guard = lock_write(&self.inner);
        let registry = guarded_mut(&mut guard);
        registry.register_worker_to_worker(worker_id, handler);
    }

    /// Shuts the registry down for every handle on it.
    pub fn shutdown(&self) {
        let mut guard = lock_write(&self.inner);
        let registry = guarded_mut(&mut guard);
        registry.shutdown();
    }

    /// One look of a discovery of the handler that the primary calls on the
    /// worker `peer_id`. The lock is held for the look only.
    pub fn poll_primary_to_own_worker_handler(
        &self,
        discovery: &mut Discovery,
        peer_id: PeerId,
    ) -> (step: Step<PW>) where PW: Clone
        ensures
            old(discovery).leads_to(
                *final(discovery),
                step,
                LocalClientError::WorkerNotStarted(peer_id),
            ),
    {
        let not_started = LocalClientError::WorkerNotStarted(peer_id);
        if discovery.is_exhausted() {
            return Step::Failed(not_started);
        }
        let observed = {
            let guard = lock_read(&self.inner);
            guarded(&guard).find_primary_to_worker(&peer_id).cloned()
        };
        discovery.step(observed, not_started)
    }

    /// One look of a discovery of the handler of the node's primary. The
    /// lock is held for the look only.
    pub fn poll_worker_to_own_primary_handler(&self, discovery: &mut Discovery) -> (step: Step<
        WP,
    >) where WP: Clone
        ensures
            old(discovery).leads_to(
                *final(discovery),
                step,
                LocalClientError::PrimaryNotStarted(self.primary()),
            ),
    {
        let not_started = LocalClientError::PrimaryNotStarted(self.primary_peer_id);
        if discovery.is_exhausted() {
            return Step::Failed(not_started);
        }
        let observed = {
            let guard = lock_read(&self.inner);
            guarded(&guard).find_worker_to_primary().cloned()
        };
        discovery.step(observed, not_started)
    }

    /// One look of a discovery of the handler that workers call on the
    /// worker `peer_id`. The lock is held for the look only.
    pub fn poll_own_worker_to_worker_handler(
        &self,
        discovery: &mut Discovery,
        peer_id: PeerId,
    ) -> (step: Step<WW>) where WW: Clone
        ensures
            old(discovery).leads_to(
                *final(discovery),
                step,
                LocalClientError::WorkerNotStarted(peer_id),
            ),
    {
        let not_started = LocalClientError::WorkerNotStarted(peer_id);
        if discovery.is_exhausted() {
            return Step::Failed(not_started);
        }
        let observed = {
            let guard = lock_read(&self.inner);
            guarded(&guard).find_worker_to_worker(&peer_id).cloned()
        };
        discovery.step(observed, not_started)
    }
}

} // verus!
