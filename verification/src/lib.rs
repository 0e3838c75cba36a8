//! A filesystem-watch library: a verified core for a directory watcher built
//! on a kernel change-notification facility.
//!
//! The library models the watcher's logic over plain values: the bidirectional
//! mapping between symbolic event kinds and kernel mask bits, the worker
//! session's startup handshake and wait loop, the watcher handle's teardown
//! state machine, and a directory-listing iterator. A thin unverified shell
//! binds these decisions to the operating system.

pub mod codec;
pub mod events;
pub mod handle;
pub mod listing;
pub mod session;
