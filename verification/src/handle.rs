use vstd::prelude::*;

verus! {

/// An opaque, copyable identifier for one registered handler.
///
/// A handle is returned by `subscribe` and is the only way to remove that
/// registration again. Within the lifetime of one registry no two `subscribe`
/// calls produce the same handle, and a handle is never reused after removal.
/// Presenting a handle to a registry that did not issue it is a harmless
/// lookup miss, never an error.
#[derive(Clone, Copy, Debug, PartialEq, Eq, Hash, Structural)]
pub struct Subscription(pub(crate) usize);

impl Subscription {
    /// The raw integer this handle wraps.
    pub closed spec fn id(&self) -> usize {
        self.0
    }

    /// Wraps a raw integer as a handle.
    ///
    /// Production code only ever receives handles from `subscribe`; this
    /// constructor exists so that a made-up id can be written down directly.
    pub fn new(id: usize) -> (s: Subscription)
        ensures
            s.id() == id,
    {
        Subscription(id)
    }

    /// The raw integer, for the registry's lookups.
    pub(crate) fn raw(&self) -> (r: usize)
        ensures
            r == self.id(),
    {
        self.0
    }
}

} // verus!
