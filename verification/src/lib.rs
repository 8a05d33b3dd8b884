//! Typed access to the Linux inotify notification stream.
//!
//! The kernel hands out file system notifications as a stream of raw records.
//! This library decodes that stream into typed events, classifies event masks,
//! and keeps the books on the session handle and on the watches registered
//! with it. It performs no system call itself: a caller makes the calls and
//! hands their results in as plain values.

pub mod error;
pub mod evented_fd_guard;
pub mod events;
pub mod ffi;
pub mod handle;
pub mod inotify;
pub mod mask;
pub mod stream;
pub mod watches;

pub use crate::error::{Error, OsError};
pub use crate::evented_fd_guard::EventedFdGuard;
pub use crate::events::{Event, EventOwned, EventView, Events};
pub use crate::handle::{Handle, HandleManager, HandleObserver, HandleState};
pub use crate::inotify::Inotify;
pub use crate::mask::{
    EventAuxiliaryFlags, EventKind, EventMask, EventMaskParseError, ParsedEventMask,
};
pub use crate::stream::{EventStream, StreamPoll, StreamRead, StreamState};
pub use crate::watches::{WatchDescriptor, WatchMask, Watches};
