//! A single-threaded cooperative runtime core for a host that only offers
//! callback re-entry: a periodic tick plus a handful of asynchronous system
//! notifications (key transitions, power and lifecycle events).
//!
//! The host calls in once per occurrence; the runtime records a typed
//! [`events::SystemEvent`], refreshes the per-tick [`input::FrameSnapshot`]
//! on ticks, and broadcasts a wake to every registered waiter. The actual
//! resumption of suspended application code is the host's side of the
//! bargain: the runtime returns who must be woken and what they observe.
//!
//! The bitmap module is the data side of the same platform: 1-bit-per-pixel
//! row-padded images with verified pixel addressing.

pub mod bitmap;
pub mod events;
pub mod input;
pub mod runtime;
pub mod scheduler;
