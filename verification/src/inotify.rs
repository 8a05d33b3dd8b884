//! One session with the kernel, read synchronously.
//!
//! The session's descriptor is non-blocking from the start; whether a read
//! waits is for the caller of the read to arrange. So a read that would have
//! had to wait is no failure here: it brings no events.

use crate::error::{Error, OsError};
use crate::events::{holds_records, spec_events, well_formed, EventOwned, Events};
use crate::handle::{Handle, HandleManager, HandleState};
use crate::watches::{WatchDescriptor, Watches};
use vstd::prelude::*;

verus! {

/// The number of bytes of a buffer that a read filled with records, or the
/// error that it comes to.
///
/// `num_bytes` is what the read returned: -1 for a failure, which `error`
/// describes. No bytes at all are an end of file, which is an error. A read
/// that would have had to wait filled nothing.
pub open spec fn spec_bytes_read(num_bytes: isize, error: OsError) -> Result<usize, Error> {
    if num_bytes == 0 {
        Err(Error::UnexpectedEof)
    } else if num_bytes == -1 {
        if error.would_block {
            Ok(0usize)
        } else {
            Err(Error::Os(error))
        }
    } else {
        Ok(num_bytes as usize)
    }
}

/// Sorts out what a read returned.
pub fn bytes_read(num_bytes: isize, error: OsError) -> (r: Result<usize, Error>)
    requires
        num_bytes >= -1,
    ensures
        r == spec_bytes_read(num_bytes, error),
{
    if num_bytes == 0 {
        Err(Error::UnexpectedEof)
    } else if num_bytes == -1 {
        if error.would_block {
            Ok(0)
        } else {
            Err(Error::Os(error))
        }
    } else {
        Ok(num_bytes as usize)
    }
}

/// Whether a read's result can be taken: it is -1 or more, and where it
/// counts bytes, that many bytes of `buffer` are whole records.
pub open spec fn spec_read_is_sound(buffer: Seq<u8>, num_bytes: isize) -> bool {
    &&& num_bytes >= -1
    &&& num_bytes > 0 ==> num_bytes <= buffer.len() && well_formed(buffer.take(num_bytes as int))
}

/// Whether a read's result can be taken.
pub fn read_is_sound(buffer: &[u8], num_bytes: isize) -> (r: bool)
    ensures
        r == spec_read_is_sound(buffer@, num_bytes),
{
    if num_bytes < -1 {
        false
    } else if num_bytes > 0 {
        holds_records(buffer, num_bytes as usize)
    } else {
        true
    }
}

/// A session with the kernel.
#[derive(Debug)]
pub struct Inotify {
    fd: Handle,
}

impl Inotify {
    /// The share in the session that this value holds.
    pub closed spec fn handle(&self) -> Handle {
        self.fd
    }

    /// Takes what the kernel answered when the session was opened.
    ///
    /// `result` is the kernel's answer: -1 for a failure, which `error`
    /// describes, and else the descriptor of the new session, which is
    /// entered in the books with this value as its one holder.
    pub fn init(result: i32, error: OsError, handles: &mut HandleManager) -> (r: Result<
        Inotify,
        Error,
    >)
        ensures
            result == -1 ==> (r matches Err(e) && e == Error::Os(error) && final(handles)@ == old(
                handles,
            )@),
            result != -1 ==> (r matches Ok(inotify) && inotify.handle().slot() == old(
                handles,
            )@.len() && final(handles)@ == old(handles)@.push(
                HandleState { fd: result, owners: 1, closed: false },
            ) && !old(handles).knows(inotify.handle().observer())),
    {
        if result == -1 {
            Err(Error::Os(error))
        } else {
            Ok(Inotify { fd: handles.acquire(result) })
        }
    }

    /// A session value for a share that is held already.
    pub fn from_handle(fd: Handle) -> (inotify: Inotify)
        ensures
            inotify.handle() == fd,
    {
        Inotify { fd }
    }

    /// Gives the share in the session back.
    pub fn into_handle(self) -> (fd: Handle)
        ensures
            fd == self.handle(),
    {
        self.fd
    }

    /// The session's descriptor, while it is open.
    pub fn fd(&self, handles: &HandleManager) -> (r: Option<i32>)
        ensures
            r == handles.open_fd(self.handle()),
    {
        handles.fd(&self.fd)
    }

    /// A registry for the watches of this session. It holds a share of its
    /// own in the session.
    pub fn watches(&self, handles: &mut HandleManager) -> (r: Option<Watches>)
        ensures
            r is Some <==> old(handles).can_share(self.handle()),
            r matches Some(w) ==> w.handle().slot() == self.handle().slot(),
            final(handles)@ == old(handles).shared(self.handle()),
    {
        match handles.share(&self.fd) {
            Some(fd) => Some(Watches::new(fd)),
            None => None,
        }
    }

    /// Takes what the kernel answered when a watch was added: -1 for a
    /// failure, which `error` describes, and else the number of the watch.
    pub fn add_watch(&self, result: i32, error: OsError) -> (r: Result<WatchDescriptor, Error>)
        ensures
            result == -1 ==> r == Err::<WatchDescriptor, _>(Error::Os(error)),
            result != -1 ==> r == Ok::<_, Error>(
                WatchDescriptor { id: result, fd: self.handle().observer() },
            ),
    {
        if result == -1 {
            Err(Error::Os(error))
        } else {
            Ok(WatchDescriptor { id: result, fd: self.fd.observe() })
        }
    }

    /// Decides whether a watch can be removed from this session.
    ///
    /// The kernel is only to be asked where the descriptor names a watch of
    /// this very session, and the session is live. Then the result is the
    /// number to hand to the kernel, and what the kernel answers goes to
    /// [`Watches::removed`].
    pub fn rm_watch(&self, wd: &WatchDescriptor, handles: &HandleManager) -> (r: Result<i32, Error>)
        ensures
            r == if handles.live(wd.fd) && wd.fd == self.handle().observer() {
                Ok::<_, Error>(wd.id)
            } else {
                Err(Error::InvalidInput)
            },
    {
        if handles.is_live(&wd.fd) && wd.fd.same_target(&self.fd.observe()) {
            Ok(wd.id)
        } else {
            Err(Error::InvalidInput)
        }
    }

    /// Takes what one read of the session returned, and gives the events
    /// that it brought.
    ///
    /// `num_bytes` is what the read returned, and `buffer` is what it read
    /// into. A read that would have had to wait brings no events, and is no
    /// error.
    pub fn read_events<'a>(&self, buffer: &'a [u8], num_bytes: isize, error: OsError) -> (r: Result<
        Events<'a>,
        Error,
    >)
        requires
            spec_read_is_sound(buffer@, num_bytes),
        ensures
            match spec_bytes_read(num_bytes, error) {
                Ok(n) => r matches Ok(events) && events.remaining() == spec_events(
                    self.handle().observer(),
                    buffer@.take(n as int),
                ),
                Err(e) => r matches Err(x) && x == e,
            },
            num_bytes == -1 && error.would_block ==> (r matches Ok(events)
                && events.remaining().len() == 0),
    {
        match bytes_read(num_bytes, error) {
            Ok(n) => Ok(Events::new(self.fd.observe(), buffer, n)),
            Err(e) => Err(e),
        }
    }

    /// Takes what one read of the session returned, and gives the events
    /// that it brought, each with a name of its own.
    pub fn available_events(&self, buffer: &[u8], len: isize, error: OsError) -> (r: Result<
        Vec<EventOwned>,
        Error,
    >)
        requires
            spec_read_is_sound(buffer@, len),
        ensures
            match spec_bytes_read(len, error) {
                Ok(n) => {
                    let all = spec_events(self.handle().observer(), buffer@.take(n as int));
                    &&& r matches Ok(events)
                    &&& events@.len() == all.len()
                    &&& forall|i: int| 0 <= i < all.len() ==> (#[trigger] events@[i])@ == all[i]
                },
                Err(e) => r matches Err(x) && x == e,
            },
            len == -1 && error.would_block ==> (r matches Ok(events) && events@.len() == 0),
    {
        match self.read_events(buffer, len, error) {
            Ok(events) => Ok(events.into_owned()),
            Err(e) => Err(e),
        }
    }

    /// Ends the session on request, and gives this value's share back.
    ///
    /// Where the descriptor is still open, it is returned: it is now due for
    /// closing, and what the kernel answers then goes to [`Inotify::closed`].
    /// The session counts as closed from now on, whatever the kernel
    /// answers, and no later call returns the descriptor again.
    pub fn close(self, handles: &mut HandleManager) -> (r: Option<i32>)
        ensures
            r == old(handles).due_on_close(self.handle()),
            final(handles)@ == old(handles).shut(self.handle()),
    {
        handles.close(self.fd)
    }

    /// Takes what the kernel answered when the descriptor was closed: 0 for
    /// success, anything else for a failure, which `error` describes.
    pub fn closed(result: i32, error: OsError) -> (r: Result<(), Error>)
        ensures
            r == if result == 0 {
                Ok::<_, Error>(())
            } else {
                Err(Error::Os(error))
            },
    {
        if result == 0 {
            Ok(())
        } else {
            Err(Error::Os(error))
        }
    }

    /// Gives this value's share back. Where it was the last share and the
    /// descriptor is still open, the descriptor is returned: it is now due
    /// for closing.
    pub fn release(self, handles: &mut HandleManager) -> (r: Option<i32>)
        ensures
            r == old(handles).due_on_release(self.handle()),
            final(handles)@ == old(handles).released(self.handle()),
    {
        handles.release(self.fd)
    }
}

} // verus!
