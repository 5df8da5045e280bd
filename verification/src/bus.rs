use vstd::prelude::*;
use vstd::rwlock::RwLock;

use std::sync::Arc;

use crate::handle::Subscription;
use crate::handler::EventHandler;
use crate::handler::Payload;
use crate::registry::HandlerRegistry;

verus! {

/// The invariant every bus's lock maintains on the registry it guards.
pub open spec fn registry_lock_inv<H>() -> spec_fn(HandlerRegistry<H>) -> bool {
    |r: HandlerRegistry<H>| r.wf()
}

/// A thread-safe event bus: a shared, reference-counted, lock-protected
/// handle to one [`HandlerRegistry`].
///
/// `H` is the stored handler type; the payload types the bus can dispatch
/// are the `Args` for which `H` implements [`EventHandler`]. A caller that
/// needs several kinds of handler on one bus gives `H` that many variants or
/// that many fields.
///
/// Cloning a bus yields a second handle to the *same* registry, so mutations
/// through either handle are observed through both; the registry is dropped
/// only with the last handle. Every registry operation takes the lock for its
/// duration, so operations on one registry are serialized across all threads
/// and all cloned handles; in particular, handlers of one bus never run
/// concurrently with each other. The lock is vstd's verified reader-writer
/// lock, and every value it can hold is a well-formed registry, so handle
/// uniqueness is maintained across every interleaving of operations.
///
/// The lock hides the registry's state from callers of `&self` methods:
/// under sharing, no contract can relate the registry before and after a
/// call, because other handles may operate on it in between. The exact
/// contracts of each operation are stated on [`HandlerRegistry`], and each
/// method here is the corresponding registry operation performed once under
/// the lock.
///
/// The lock is not re-entrant: a handler that operates on its own bus while
/// it is being dispatched will deadlock. A handler is free to operate on a
/// different bus. A handler that panics during dispatch leaves the lock
/// acquired forever, so every later operation on every handle of that bus
/// blocks: one misbehaving handler permanently disables the whole bus, as a
/// poisoned lock would, though by blocking rather than by failing.
#[verifier::reject_recursive_types(H)]
pub struct Event<H> {
    registry: Arc<RwLock<HandlerRegistry<H>, spec_fn(HandlerRegistry<H>) -> bool>>,
}

impl<H> Event<H> {
    /// Every value this bus's lock can hold is a well-formed registry.
    #[verifier::type_invariant]
    spec fn locked_wf(&self) -> bool {
        forall|r: HandlerRegistry<H>| (*self.registry).inv(r) == r.wf()
    }

    /// Creates a bus with an empty registry and the id counter at 0.
    pub fn new() -> (bus: Event<H>) {
        let reg = HandlerRegistry::<H>::new();
        let lock = RwLock::<HandlerRegistry<H>, spec_fn(HandlerRegistry<H>) -> bool>::new(
            reg,
            Ghost(registry_lock_inv::<H>()),
        );
        Event { registry: Arc::new(lock) }
    }

    /// Registers `handler` under a freshly allocated handle and returns the
    /// handle: `HandlerRegistry::subscribe` performed once under the lock.
    ///
    /// In the corner case of an exhausted id counter — after `usize::MAX`
    /// subscriptions on one registry — nothing is registered and the returned
    /// handle is the exhausted id, which never names a live registration.
    pub fn subscribe(&self, handler: H) -> (s: Subscription) {
        proof {
            use_type_invariant(self);
        }
        let (mut reg, lock_handle) = self.registry.acquire_write();
        let s = if reg.has_capacity() {
            reg.subscribe(handler)
        } else {
            Subscription::new(usize::MAX)
        };
        lock_handle.release_write(reg);
        s
    }

    /// Removes the handler registered under `s`, if any: returns true iff an
    /// entry was actually removed; false for an unknown handle, a handle
    /// already removed, or a handle from a different registry.
    /// `HandlerRegistry::unsubscribe` performed once under the lock.
    pub fn unsubscribe(&self, s: Subscription) -> (removed: bool) {
        proof {
            use_type_invariant(self);
        }
        let (mut reg, lock_handle) = self.registry.acquire_write();
        let removed = reg.unsubscribe(s);
        lock_handle.release_write(reg);
        removed
    }

    /// Removes every currently registered handler, atomically with respect to
    /// the other registry operations: `HandlerRegistry::unsubscribe_all`
    /// performed once under the lock.
    pub fn unsubscribe_all(&self) {
        proof {
            use_type_invariant(self);
        }
        let (mut reg, lock_handle) = self.registry.acquire_write();
        reg.unsubscribe_all();
        lock_handle.release_write(reg);
    }

    /// The number of registered handlers at the instant of the call:
    /// `HandlerRegistry::len` performed under the lock.
    pub fn subscriber_count(&self) -> (n: usize) {
        let read_handle = self.registry.acquire_read();
        let n: usize = read_handle.borrow().len();
        read_handle.release_read();
        n
    }

    /// Dispatch: delivers a copy of `args` to every handler that was
    /// registered when the dispatch began, one at a time, in storage order.
    ///
    /// The lock is taken just long enough to snapshot the registered handles,
    /// released, and then re-taken around each individual lookup-and-call
    /// (`HandlerRegistry::invoke_one`), so handlers of one registry run
    /// strictly one at a time but other operations may interleave between
    /// them: a handler removed between the snapshot and its turn is silently
    /// skipped, and a handler added after the snapshot is not called.
    pub fn invoke<Args>(&self, args: Args) where H: EventHandler<Args>, Args: Payload {
        proof {
            use_type_invariant(self);
        }
        let read_handle = self.registry.acquire_read();
        let ids = read_handle.borrow().snapshot();
        read_handle.release_read();
        let n: usize = ids.len();
        let mut i: usize = 0;
        while i < n
            invariant
                self.locked_wf(),
                n == ids@.len(),
                i <= n,
            decreases n - i,
        {
            let (mut reg, lock_handle) = self.registry.acquire_write();
            reg.invoke_one(ids[i], args.dup());
            lock_handle.release_write(reg);
            i = i + 1;
        }
    }
}

impl<H> Clone for Event<H> {
    /// Returns a new handle sharing the same registry — not a copy of its
    /// contents: mutations through either handle are observed through both.
    fn clone(&self) -> (bus: Event<H>)
        ensures
            bus == *self,
    {
        proof {
            use_type_invariant(self);
        }
        Event { registry: self.registry.clone() }
    }
}

impl<H> Default for Event<H> {
    /// Equivalent to `Event::new`: a bus with an empty registry.
    fn default() -> Event<H> {
        Event::new()
    }
}

} // verus!
