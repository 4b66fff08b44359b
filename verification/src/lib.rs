//! A bridge that carries events from arbitrary threads into a frame-driven
//! consumer.
//!
//! Producers call [`queue_event`] with a value of any type `T`, from any
//! thread; the value is appended to the pending queue that a process-wide
//! registry keeps for `T`. Once per tick the consumer calls [`poll_events`],
//! which drains that queue and returns every pending value, oldest first,
//! wrapped in an [`ExternEvent`], for the host to send into its event channel.
//!
//! The parts, from the bottom up:
//! - [`queue`]: the pending queue of one type and the drain that forwards it;
//! - [`history`]: what a queue delivers over any sequence of enqueues and
//!   drains: every value once, in the order of the enqueues;
//! - [`registry`]: one shared slot per event type, created on first use;
//! - [`lock`]: the slot of one type, its lock, and how a poisoned lock is
//!   reported;
//! - [`bridge`]: the producer's and the consumer's entry points.
//!
//! What the queue does while a caller holds it is proved. What the registry and
//! the locks do between two calls depends on the other threads of the process
//! and is not.

pub mod bridge;
pub mod error;
pub mod event;
pub mod history;
pub mod lock;
pub mod queue;
pub mod registry;

pub use bridge::{poll_events, queue_event};
pub use error::BridgeError;
pub use event::ExternEvent;
pub use lock::{unpoisoned, Slot};
pub use queue::{drain_and_forward, PendingQueue};
pub use registry::get_global;
