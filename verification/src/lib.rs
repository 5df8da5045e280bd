//! An in-process, thread-safe publish/subscribe primitive.
//!
//! An [`Event`] is a shared, lock-protected handle to one [`HandlerRegistry`]:
//! a mapping from [`Subscription`] handles to caller-supplied handlers, plus a
//! monotone id counter. Producers call [`Event::invoke`] to fan a value out
//! synchronously to every registered handler; handlers are added with
//! [`Event::subscribe`] and removed with [`Event::unsubscribe`] or
//! [`Event::unsubscribe_all`].
//!
//! The registry operations carry exact contracts and are verified; the lock
//! that guards the registry is vstd's verified reader-writer lock, so the
//! locking discipline of the dispatch algorithm is verified as well.

pub mod bus;
pub mod handle;
pub mod handler;
pub mod registry;

pub use bus::Event;
pub use handle::Subscription;
pub use handler::EventHandler;
pub use handler::Payload;
pub use handler::SilentHandler;
pub use registry::HandlerRegistry;
