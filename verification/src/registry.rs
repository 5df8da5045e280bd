use vstd::prelude::*;

use crate::handle::Subscription;
use crate::handler::EventHandler;
use crate::handler::Payload;

verus! {

/// The mutable state of one bus: a mapping from handle ids to handlers, kept
/// as two parallel vectors sorted by id, plus the monotone next-id counter.
///
/// The counter starts at 0, increments by 1 on every successful `subscribe`,
/// never decrements and is not reset by removals, so ids are never reused.
pub struct HandlerRegistry<H> {
    ids: Vec<usize>,
    handlers: Vec<H>,
    next_id: usize,
}

impl<H> HandlerRegistry<H> {
    /// Handle ids of the live registrations, in storage order.
    pub closed spec fn keys(&self) -> Seq<usize> {
        self.ids@
    }

    /// The live handlers, in storage order, paired index-wise with `keys()`.
    pub closed spec fn handlers_view(&self) -> Seq<H> {
        self.handlers@
    }

    /// The id the next successful `subscribe` will hand out.
    pub closed spec fn counter(&self) -> usize {
        self.next_id
    }

    /// Whether `id` names a live registration.
    pub open spec fn contains_id(&self, id: usize) -> bool {
        self.keys().contains(id)
    }

    /// Well-formed: one handler per id, ids strictly increasing in storage
    /// order (hence pairwise distinct), and every id below the counter.
    pub open spec fn wf(&self) -> bool {
        &&& self.keys().len() == self.handlers_view().len()
        &&& (forall|i: int, j: int|
            0 <= i < j < self.keys().len() ==> self.keys()[i] < self.keys()[j])
        &&& (forall|i: int| 0 <= i < self.keys().len() ==> self.keys()[i] < self.counter())
    }

    /// Creates an empty registry with the id counter at 0.
    pub fn new() -> (r: HandlerRegistry<H>)
        ensures
            r.wf(),
            r.keys() == Seq::<usize>::empty(),
            r.handlers_view() == Seq::<H>::empty(),
            r.counter() == 0,
    {
        HandlerRegistry { ids: Vec::new(), handlers: Vec::new(), next_id: 0 }
    }

    /// Whether the id counter can still hand out a fresh id.
    pub fn has_capacity(&self) -> (r: bool)
        ensures
            r == (self.counter() < usize::MAX),
    {
        self.next_id < usize::MAX
    }

    /// Registers `handler` under a fresh handle: the current counter value,
    /// which no earlier registration holds. Increments the counter.
    pub fn subscribe(&mut self, handler: H) -> (s: Subscription)
        requires
            old(self).wf(),
            old(self).counter() < usize::MAX,
        ensures
            final(self).wf(),
            s.id() == old(self).counter(),
            !old(self).contains_id(s.id()),
            final(self).contains_id(s.id()),
            final(self).keys().len() == old(self).keys().len() + 1,
            final(self).counter() == old(self).counter() + 1,
            final(self).keys() == old(self).keys().push(s.id()),
            final(self).handlers_view() == old(self).handlers_view().push(handler),
    {
        let id: usize = self.next_id;
        self.next_id = id + 1;
        self.ids.push(id);
        self.handlers.push(handler);
        proof {
            assert(self.ids@[self.ids@.len() - 1] == id);
        }
        Subscription::new(id)
    }

    /// Removes the registration named by `s`, if there is one. Returns true
    /// iff an entry was actually removed; a handle that is unknown, already
    /// removed, or from a different registry yields false and no change.
    pub fn unsubscribe(&mut self, s: Subscription) -> (removed: bool)
        requires
            old(self).wf(),
        ensures
            final(self).wf(),
            removed == old(self).contains_id(s.id()),
            !final(self).contains_id(s.id()),
            final(self).counter() == old(self).counter(),
            removed ==> final(self).keys().len() + 1 == old(self).keys().len(),
            !removed ==> *final(self) == *old(self),
            removed ==> (exists|i: int|
                0 <= i < old(self).keys().len() && old(self).keys()[i] == s.id()
                    && final(self).keys() == old(self).keys().remove(i)
                    && final(self).handlers_view() == old(self).handlers_view().remove(i)),
    {
        let sid: usize = s.raw();
        let n: usize = self.ids.len();
        let mut i: usize = 0;
        while i < n
            invariant
                old(self).wf(),
                *self == *old(self),
                n == self.ids@.len(),
                i <= n,
                sid == s.id(),
                forall|j: int| 0 <= j < i ==> self.ids@[j] != s.id(),
            decreases n - i,
        {
            if self.ids[i] == sid {
                proof {
                    assert(old(self).keys()[i as int] == s.id());
                }
                self.ids.remove(i);
                self.handlers.remove(i);
                proof {
                    assert(self.ids@ == old(self).keys().remove(i as int));
                    assert(self.handlers@ == old(self).handlers_view().remove(i as int));
                }
                return true;
            }
            i = i + 1;
        }
        false
    }

    /// Removes every registration. The counter is not reset.
    pub fn unsubscribe_all(&mut self)
        requires
            old(self).wf(),
        ensures
            final(self).wf(),
            final(self).keys() == Seq::<usize>::empty(),
            final(self).handlers_view() == Seq::<H>::empty(),
            final(self).counter() == old(self).counter(),
    {
        self.ids.clear();
        self.handlers.clear();
    }

    /// The number of live registrations.
    pub fn len(&self) -> (n: usize)
        ensures
            n == self.keys().len(),
    {
        self.ids.len()
    }

    /// The ids registered right now, for a dispatch to walk.
    pub fn snapshot(&self) -> (ids: Vec<usize>)
        ensures
            ids@ == self.keys(),
    {
        let n: usize = self.ids.len();
        let mut out: Vec<usize> = Vec::new();
        let mut i: usize = 0;
        while i < n
            invariant
                n == self.ids@.len(),
                i <= n,
                out@ == self.ids@.subrange(0, i as int),
            decreases n - i,
        {
            out.push(self.ids[i]);
            i = i + 1;
        }
        proof {
            assert(out@ =~= self.ids@);
        }
        out
    }

    /// Looks up `id` and, when present, calls its handler once with `args`;
    /// a missing id is a silent no-op. Nothing else changes: the registered
    /// set, the other handlers and the counter stay as they were.
    pub fn invoke_one<Args>(&mut self, id: usize, args: Args) -> (called: bool) where
        H: EventHandler<Args>,

        requires
            old(self).wf(),
        ensures
            final(self).wf(),
            called == old(self).contains_id(id),
            final(self).counter() == old(self).counter(),
            final(self).keys() == old(self).keys(),
            final(self).handlers_view().len() == old(self).handlers_view().len(),
            forall|i: int|
                0 <= i < old(self).keys().len() && old(self).keys()[i] != id
                    ==> final(self).handlers_view()[i] == old(self).handlers_view()[i],
            forall|i: int|
                0 <= i < old(self).keys().len() && old(self).keys()[i] == id
                    ==> final(self).handlers_view()[i].received() == old(self).handlers_view()[i].received().push(
                    args,
                ),
            !called ==> *final(self) == *old(self),
    {
        let n: usize = self.ids.len();
        let mut i: usize = 0;
        while i < n
            invariant
                old(self).wf(),
                *self == *old(self),
                n == self.ids@.len(),
                i <= n,
                forall|j: int| 0 <= j < i ==> self.ids@[j] != id,
            decreases n - i,
        {
            if self.ids[i] == id {
                let h = &mut self.handlers[i];
                h.call(args);
                return true;
            }
            i = i + 1;
        }
        false
    }

    /// Dispatch on an exclusively owned registry: calls every registered
    /// handler exactly once with a copy of `args` equal to `args`. The
    /// registered set and the counter are unchanged; with no handlers
    /// registered, nothing at all happens.
    pub fn invoke<Args>(&mut self, args: Args) where H: EventHandler<Args>, Args: Payload
        requires
            old(self).wf(),
        ensures
            final(self).wf(),
            final(self).counter() == old(self).counter(),
            final(self).keys() == old(self).keys(),
            final(self).handlers_view().len() == old(self).handlers_view().len(),
            forall|i: int|
                0 <= i < old(self).handlers_view().len()
                    ==> final(self).handlers_view()[i].received() == old(self).handlers_view()[i].received().push(
                    args,
                ),
            old(self).keys().len() == 0 ==> *final(self) == *old(self),
    {
        let n: usize = self.handlers.len();
        let mut i: usize = 0;
        while i < n
            invariant
                old(self).wf(),
                n == self.handlers@.len(),
                i <= n,
                self.ids@ == old(self).ids@,
                self.next_id == old(self).next_id,
                self.handlers@.len() == old(self).handlers@.len(),
                n == 0 ==> *self == *old(self),
                forall|j: int|
                    0 <= j < i ==> self.handlers@[j].received() == old(self).handlers@[j].received().push(
                        args,
                    ),
                forall|j: int| i <= j < n ==> self.handlers@[j] == old(self).handlers@[j],
            decreases n - i,
        {
            let copy = args.dup();
            let h = &mut self.handlers[i];
            h.call(copy);
            i = i + 1;
        }
    }
}

/// Law: the handles registered in a well-formed registry are pairwise
/// distinct, so the registry size counts distinct live handles.
pub proof fn lemma_registered_handles_distinct<H>(r: &HandlerRegistry<H>)
    requires
        r.wf(),
    ensures
        r.keys().no_duplicates(),
{
    assert forall|i: int, j: int|
        0 <= i < r.keys().len() && 0 <= j < r.keys().len() && i != j implies r.keys()[i]
        != r.keys()[j] by {
        if i < j {
            assert(r.keys()[i] < r.keys()[j]);
        } else {
            assert(r.keys()[j] < r.keys()[i]);
        }
    }
}

} // verus!
