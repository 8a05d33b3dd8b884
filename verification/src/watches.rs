//! Watches: what is watched, and the descriptors that name a watch.

use crate::error::{Error, OsError};
use crate::ffi::{
    IN_ACCESS, IN_ALL_EVENTS, IN_ATTRIB, IN_CLOSE, IN_CLOSE_NOWRITE, IN_CLOSE_WRITE, IN_CREATE,
    IN_DELETE, IN_DELETE_SELF, IN_DONT_FOLLOW, IN_EXCL_UNLINK, IN_MASK_ADD, IN_MODIFY, IN_MOVE,
    IN_MOVED_FROM, IN_MOVED_TO, IN_MOVE_SELF, IN_ONESHOT, IN_ONLYDIR, IN_OPEN,
};
use crate::handle::{Handle, HandleManager, HandleObserver};
use std::cmp::Ordering;
use vstd::prelude::*;

verus! {

/// Says which events of a file a watch reports, and how it watches.
#[derive(Clone, Copy, Debug, PartialEq, Eq, PartialOrd, Ord, Hash, Structural)]
pub struct WatchMask {
    bits: u32,
}

impl View for WatchMask {
    type V = u32;

    closed spec fn view(&self) -> u32 {
        self.bits
    }
}

impl WatchMask {
    /// File was accessed.
    pub const ACCESS: u32 = IN_ACCESS;

    /// Metadata (permissions, timestamps, ...) changed.
    pub const ATTRIB: u32 = IN_ATTRIB;

    /// File opened for writing was closed.
    pub const CLOSE_WRITE: u32 = IN_CLOSE_WRITE;

    /// File or directory not opened for writing was closed.
    pub const CLOSE_NOWRITE: u32 = IN_CLOSE_NOWRITE;

    /// File or directory was created in a watched directory.
    pub const CREATE: u32 = IN_CREATE;

    /// File or directory was deleted from a watched directory.
    pub const DELETE: u32 = IN_DELETE;

    /// The watched file or directory itself was deleted.
    pub const DELETE_SELF: u32 = IN_DELETE_SELF;

    /// File was modified.
    pub const MODIFY: u32 = IN_MODIFY;

    /// The watched file or directory itself was moved.
    pub const MOVE_SELF: u32 = IN_MOVE_SELF;

    /// File was renamed or moved; the watched directory held the old name.
    pub const MOVED_FROM: u32 = IN_MOVED_FROM;

    /// File was renamed or moved; the watched directory holds the new name.
    pub const MOVED_TO: u32 = IN_MOVED_TO;

    /// File or directory was opened.
    pub const OPEN: u32 = IN_OPEN;

    /// Watch for all of the twelve events above.
    pub const ALL_EVENTS: u32 = IN_ALL_EVENTS;

    /// Watch for both kinds of move.
    pub const MOVE: u32 = IN_MOVE;

    /// Watch for both kinds of close.
    pub const CLOSE: u32 = IN_CLOSE;

    /// Do not follow the path if it is a symbolic link.
    pub const DONT_FOLLOW: u32 = IN_DONT_FOLLOW;

    /// Leave out events for directory entries that were unlinked.
    pub const EXCL_UNLINK: u32 = IN_EXCL_UNLINK;

    /// If the file is watched already, add to that watch instead of replacing it.
    pub const MASK_ADD: u32 = IN_MASK_ADD;

    /// Report one event only, then remove the watch.
    pub const ONESHOT: u32 = IN_ONESHOT;

    /// Watch the path only if it is a directory.
    pub const ONLYDIR: u32 = IN_ONLYDIR;

    /// Every flag that a watch mask can hold.
    pub const ALL: u32 = IN_ALL_EVENTS | IN_DONT_FOLLOW | IN_EXCL_UNLINK | IN_MASK_ADD | IN_ONESHOT
        | IN_ONLYDIR;

    /// Whether every one of `flags` is set.
    pub open spec fn has(self, flags: u32) -> bool {
        self@ & flags == flags
    }

    /// The mask that holds `bits`, if they are all flags of a watch mask.
    pub fn from_bits(bits: u32) -> (r: Option<WatchMask>)
        ensures
            r is Some <==> bits & !WatchMask::ALL == 0,
            r matches Some(m) ==> m@ == bits,
    {
        if bits & !WatchMask::ALL == 0 {
            Some(WatchMask { bits })
        } else {
            None
        }
    }

    /// The mask that holds `bits`, whatever they are.
    pub fn from_bits_retain(bits: u32) -> (r: WatchMask)
        ensures
            r@ == bits,
    {
        WatchMask { bits }
    }

    /// The mask that holds `bits`, whatever they are.
    pub fn from_bits_unchecked(bits: u32) -> (r: WatchMask)
        ensures
            r@ == bits,
    {
        WatchMask::from_bits_retain(bits)
    }

    /// The bits of the mask, as the kernel takes them.
    pub fn bits(&self) -> (r: u32)
        ensures
            r == self@,
    {
        self.bits
    }

    /// Whether every one of `flags` is set.
    pub fn contains(&self, flags: u32) -> (r: bool)
        ensures
            r == self.has(flags),
    {
        self.bits & flags == flags
    }
}

/// Names a watch on a file.
///
/// The number is the kernel's. It is counted for each session apart, so the
/// descriptor also holds an observer of the session that issued it.
#[derive(Clone, Copy, Debug)]
pub struct WatchDescriptor {
    /// The number that the kernel gave the watch.
    pub id: i32,
    /// Observes the session that the watch belongs to.
    pub fd: HandleObserver,
}

impl WatchDescriptor {
    /// Whether two descriptors name the same watch: their numbers are equal,
    /// and their observers name one session, which is live.
    pub open spec fn same_watch(self, other: WatchDescriptor, handles: HandleManager) -> bool {
        &&& self.id == other.id
        &&& handles.live(self.fd)
        &&& self.fd == other.fd
    }

    /// The number that the kernel gave the watch.
    pub fn get_watch_descriptor_id(&self) -> (id: i32)
        ensures
            id == self.id,
    {
        self.id
    }

    /// Orders descriptors by their numbers alone.
    pub fn cmp(&self, other: &WatchDescriptor) -> (r: Ordering)
        ensures
            r == if self.id < other.id {
                Ordering::Less
            } else if self.id == other.id {
                Ordering::Equal
            } else {
                Ordering::Greater
            },
    {
        if self.id < other.id {
            Ordering::Less
        } else if self.id == other.id {
            Ordering::Equal
        } else {
            Ordering::Greater
        }
    }

    /// Orders descriptors by their numbers alone.
    pub fn partial_cmp(&self, other: &WatchDescriptor) -> (r: Option<Ordering>)
        ensures
            r == Some(
                if self.id < other.id {
                    Ordering::Less
                } else if self.id == other.id {
                    Ordering::Equal
                } else {
                    Ordering::Greater
                },
            ),
    {
        Some(self.cmp(other))
    }

    /// Whether two descriptors name the same watch.
    ///
    /// Descriptors whose session is gone are equal to none, not even to
    /// themselves.
    pub fn eq(&self, other: &WatchDescriptor, handles: &HandleManager) -> (r: bool)
        ensures
            r == self.same_watch(*other, *handles),
    {
        self.id == other.id && handles.is_live(&self.fd) && self.fd.same_target(&other.fd)
    }
}

/// Descriptors of different sessions never name the same watch, whatever
/// their numbers, and whether the sessions are live or gone.
pub proof fn lemma_descriptors_of_distinct_handles_differ(
    a: WatchDescriptor,
    b: WatchDescriptor,
    handles: HandleManager,
)
    requires
        a.fd != b.fd,
    ensures
        !a.same_watch(b, handles),
        !b.same_watch(a, handles),
{
}

/// A descriptor whose session is gone names the same watch as no descriptor.
pub proof fn lemma_descriptor_of_dead_handle_equals_none(
    a: WatchDescriptor,
    b: WatchDescriptor,
    handles: HandleManager,
)
    requires
        !handles.live(a.fd),
    ensures
        !a.same_watch(b, handles),
        !b.same_watch(a, handles),
{
}

/// Adds and removes the watches of one session.
#[derive(Debug)]
pub struct Watches {
    fd: Handle,
}

impl Watches {
    /// The share in the session that the registry holds.
    pub closed spec fn handle(&self) -> Handle {
        self.fd
    }

    /// A registry for the session of `fd`.
    pub fn new(fd: Handle) -> (w: Watches)
        ensures
            w.handle() == fd,
    {
        Watches { fd }
    }

    /// Another registry for the same session. It holds a share of its own
    /// in the session.
    ///
    /// Returns `None`, and changes nothing, where this registry's share is
    /// no share in a session of these books or the count of holders is at its
    /// limit.
    pub fn try_clone(&self, handles: &mut HandleManager) -> (r: Option<Watches>)
        ensures
            r is Some <==> old(handles).can_share(self.handle()),
            r matches Some(w) ==> w.handle().slot() == self.handle().slot(),
            final(handles)@ == old(handles).shared(self.handle()),
    {
        match handles.share(&self.fd) {
            Some(fd) => Some(Watches { fd }),
            None => None,
        }
    }

    /// Gives the registry's share in the session back.
    pub fn into_handle(self) -> (fd: Handle)
        ensures
            fd == self.handle(),
    {
        self.fd
    }

    /// The descriptor of the registry's session, while it is open: the one
    /// to hand to the kernel when a watch is added or removed.
    pub fn fd(&self, handles: &HandleManager) -> (r: Option<i32>)
        ensures
            r == handles.open_fd(self.handle()),
    {
        handles.fd(&self.fd)
    }

    /// Takes what the kernel answered when a watch was added or amended.
    ///
    /// `result` is the kernel's answer: -1 for a failure, which `error`
    /// describes, and else the number of the watch. The same number comes
    /// back where the file is watched already, be it under another path.
    pub fn add(&self, result: i32, error: OsError) -> (r: Result<WatchDescriptor, Error>)
        ensures
            result == -1 ==> r == Err::<WatchDescriptor, _>(Error::Os(error)),
            result != -1 ==> r == Ok::<_, Error>(
                WatchDescriptor { id: result, fd: self.handle().observer() },
            ),
    {
        if result == -1 {
            Err(Error::Os(error))
        } else {
            Ok(WatchDescriptor { id: result, fd: self.fd.observe() })
        }
    }

    /// Decides whether a watch can be removed from the registry's session.
    ///
    /// The kernel is only to be asked where the descriptor names a watch of
    /// this very session, and the session is live. Then the result is the
    /// number to hand to the kernel, and what the kernel answers goes to
    /// [`Watches::removed`].
    pub fn remove(&self, wd: &WatchDescriptor, handles: &HandleManager) -> (r: Result<i32, Error>)
        ensures
            r == if handles.live(wd.fd) && wd.fd == self.handle().observer() {
                Ok::<_, Error>(wd.id)
            } else {
                Err(Error::InvalidInput)
            },
    {
        if handles.is_live(&wd.fd) && wd.fd.same_target(&self.fd.observe()) {
            Ok(wd.id)
        } else {
            Err(Error::InvalidInput)
        }
    }

    /// Takes what the kernel answered when a watch was removed: 0 for
    /// success, -1 for a failure, which `error` describes.
    pub fn removed(result: i32, error: OsError) -> (r: Result<(), Error>)
        requires
            result == 0 || result == -1,
        ensures
            r == if result == 0 {
                Ok::<_, Error>(())
            } else {
                Err(Error::Os(error))
            },
    {
        if result == 0 {
            Ok(())
        } else {
            Err(Error::Os(error))
        }
    }
}

} // verus!
