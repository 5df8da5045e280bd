use vstd::prelude::*;

verus! {

/// A caller-supplied unit of work registered on a bus.
///
/// A handler consumes one payload per call and produces no result; it may
/// carry and mutate its own state across calls. The ghost history
/// [`EventHandler::received`] records every payload the handler has been
/// called with, oldest first, and `call` must extend that history by exactly
/// the payload it was given. Dispatch contracts are stated over this history:
/// "this handler was called exactly once with `v`" becomes "its history grew
/// by `[v]`".
///
/// The history is ghost state with no runtime value. An implementation that
/// is itself verified defines `received` over its own state and proves the
/// contract of `call`; one compiled outside verification writes `received`
/// as an unreachable stub, and the contract of `call` is then its author's
/// responsibility, as every contract of unverified code is.
pub trait EventHandler<Args>: Sized {
    /// Ghost history of every payload this handler has been called with.
    spec fn received(&self) -> Seq<Args>;

    /// Runs the handler on one payload.
    fn call(&mut self, args: Args)
        ensures
            final(self).received() == old(self).received().push(args),
    ;
}

/// A handler that does nothing but record its ghost history: the least a
/// handler can do, and a verified witness that the [`EventHandler`] contract
/// is implementable.
#[verifier::reject_recursive_types(Args)]
pub struct SilentHandler<Args> {
    history: Ghost<Seq<Args>>,
}

impl<Args> SilentHandler<Args> {
    /// A silent handler that has received nothing yet.
    pub fn new() -> (h: SilentHandler<Args>)
        ensures
            h.received() == Seq::<Args>::empty(),
    {
        SilentHandler { history: Ghost(Seq::empty()) }
    }
}

impl<Args> EventHandler<Args> for SilentHandler<Args> {
    closed spec fn received(&self) -> Seq<Args> {
        self.history@
    }

    fn call(&mut self, args: Args) {
        self.history = Ghost(self.history@.push(args));
    }
}

/// A payload that can be handed to every handler of a dispatch.
///
/// Each handler gets its own independent copy of the payload, so the payload
/// type must be duplicable, and duplication must be exact: the copy equals
/// the original. Implementations are provided for the common plain value
/// types and for small tuples of them.
pub trait Payload: Sized {
    /// Produces an independent copy equal to `self`.
    fn dup(&self) -> (r: Self)
        ensures
            r == *self,
    ;
}

impl Payload for () {
    fn dup(&self) -> (r: ()) {
        *self
    }
}

impl Payload for bool {
    fn dup(&self) -> (r: bool) {
        *self
    }
}

impl Payload for i32 {
    fn dup(&self) -> (r: i32) {
        *self
    }
}

impl Payload for i64 {
    fn dup(&self) -> (r: i64) {
        *self
    }
}

impl Payload for u32 {
    fn dup(&self) -> (r: u32) {
        *self
    }
}

impl Payload for u64 {
    fn dup(&self) -> (r: u64) {
        *self
    }
}

impl Payload for usize {
    fn dup(&self) -> (r: usize) {
        *self
    }
}

impl Payload for String {
    fn dup(&self) -> (r: String) {
        self.clone()
    }
}

impl<A: Payload, B: Payload> Payload for (A, B) {
    fn dup(&self) -> (r: (A, B)) {
        (self.0.dup(), self.1.dup())
    }
}

impl<A: Payload, B: Payload, C: Payload> Payload for (A, B, C) {
    fn dup(&self) -> (r: (A, B, C)) {
        (self.0.dup(), self.1.dup(), self.2.dup())
    }
}

} // verus!
