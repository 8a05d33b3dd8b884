//! One session with the kernel, read as a stream of events.
//!
//! The stream keeps the place of the next record in a buffer that its owner
//! reads into, and the number of bytes that are still to be taken from it.
//! The buffer is only read into when nothing is left to take. One poll
//! yields one event at most, however many the buffer holds.

use crate::error::{Error, OsError};
use crate::events::{
    holds_record, record_size, spec_event, spec_events, Event, EventOwned, EventView,
};
use crate::ffi::{inotify_event, EVENT_SIZE};
use crate::handle::{Handle, HandleManager};
use crate::inotify::Inotify;
use crate::watches::Watches;
use vstd::prelude::*;

verus! {

/// What a read for the stream came to.
#[derive(Clone, Copy, Debug, PartialEq, Eq, Structural)]
pub enum StreamRead {
    /// The descriptor was not ready, or the read would have had to wait.
    Pending,
    /// The read failed.
    Failed(OsError),
    /// The read filled this many bytes of the buffer. None is the end of the
    /// stream.
    Bytes(usize),
}

impl StreamRead {
    /// What a read that was made came to.
    ///
    /// `num_bytes` is what the read returned: -1 for a failure, which
    /// `error` describes. A read that would have had to wait is pending.
    pub fn from_result(num_bytes: isize, error: OsError) -> (r: StreamRead)
        requires
            num_bytes >= -1,
        ensures
            r == if num_bytes != -1 {
                StreamRead::Bytes(num_bytes as usize)
            } else if error.would_block {
                StreamRead::Pending
            } else {
                StreamRead::Failed(error)
            },
    {
        if num_bytes != -1 {
            StreamRead::Bytes(num_bytes as usize)
        } else if error.would_block {
            StreamRead::Pending
        } else {
            StreamRead::Failed(error)
        }
    }
}

/// What one poll of the stream yields.
#[derive(Debug)]
pub enum StreamPoll {
    /// Nothing yet: the stream waits for the descriptor to become readable.
    Pending,
    /// An event or an error, or `None` for the end of the stream.
    Ready(Option<Result<EventOwned, Error>>),
}

/// The state of a stream as plain values.
pub struct StreamState {
    /// The share in the session that the stream holds.
    pub handle: Handle,
    /// The place of the next record in the buffer.
    pub position: usize,
    /// The number of bytes that are still to be taken from the buffer.
    pub unused: usize,
    /// Whether the end of the stream was seen.
    pub ended: bool,
}

impl StreamState {
    /// The bytes of `buffer` that are still to be taken.
    pub open spec fn unconsumed(self, buffer: Seq<u8>) -> Seq<u8> {
        buffer.subrange(self.position as int, self.position + self.unused)
    }

    /// Whether an event can be taken from `buffer`: nothing is left to take,
    /// or what is left lies in the buffer and starts with a whole record.
    pub open spec fn can_take(self, buffer: Seq<u8>) -> bool {
        self.unused > 0 ==> self.position + self.unused <= buffer.len() && holds_record(
            self.unconsumed(buffer),
        )
    }

    /// The event that stands at the start of the unused bytes.
    pub open spec fn next_event(self, buffer: Seq<u8>) -> EventView {
        spec_event(self.handle.observer(), self.unconsumed(buffer))
    }

    /// The state after the record at the start of the unused bytes was taken.
    pub open spec fn taken(self, buffer: Seq<u8>) -> StreamState {
        let size = record_size(self.unconsumed(buffer));
        StreamState {
            position: (self.position + size) as usize,
            unused: (self.unused - size) as usize,
            ..self
        }
    }

    /// The state after a read filled the first `num_bytes` bytes of the
    /// buffer.
    pub open spec fn filled(self, num_bytes: usize) -> StreamState {
        StreamState { position: 0, unused: num_bytes, ..self }
    }

    /// The state after the end of the stream was seen.
    pub open spec fn finished(self) -> StreamState {
        StreamState { ended: true, ..self }
    }
}

/// A stream takes the events of its buffer in their order: the event that it
/// takes next is the first of those that the unused bytes hold, and the
/// others are those that the bytes hold which are unused afterwards.
pub proof fn lemma_stream_takes_events_in_order(state: StreamState, buffer: Seq<u8>)
    requires
        buffer.len() <= usize::MAX,
        state.unused > 0,
        state.can_take(buffer),
    ensures
        spec_events(state.handle.observer(), state.unconsumed(buffer)) == seq![
            state.next_event(buffer),
        ] + spec_events(state.handle.observer(), state.taken(buffer).unconsumed(buffer)),
{
    let unused = state.unconsumed(buffer);
    assert(state.taken(buffer).unconsumed(buffer) == unused.skip(record_size(unused) as int));
}

/// A stream of the events of one session.
#[derive(Debug)]
pub struct EventStream {
    fd: Handle,
    buffer_pos: usize,
    unused_bytes: usize,
    ended: bool,
}

impl View for EventStream {
    type V = StreamState;

    closed spec fn view(&self) -> StreamState {
        StreamState {
            handle: self.fd,
            position: self.buffer_pos,
            unused: self.unused_bytes,
            ended: self.ended,
        }
    }
}

impl EventStream {
    /// A stream for the session of `fd`, with nothing read yet.
    pub fn new(fd: Handle) -> (stream: EventStream)
        ensures
            stream@ == (StreamState { handle: fd, position: 0, unused: 0, ended: false }),
    {
        EventStream { fd, buffer_pos: 0, unused_bytes: 0, ended: false }
    }

    /// A registry for the watches of the stream's session. It holds a share
    /// of its own in the session.
    pub fn watches(&self, handles: &mut HandleManager) -> (r: Option<Watches>)
        ensures
            r is Some <==> old(handles).can_share(self@.handle),
            r matches Some(w) ==> w.handle().slot() == self@.handle.slot(),
            final(handles)@ == old(handles).shared(self@.handle),
    {
        match handles.share(&self.fd) {
            Some(fd) => Some(Watches::new(fd)),
            None => None,
        }
    }

    /// Turns the stream back into a session that is read synchronously.
    /// What is left in the buffer is dropped.
    pub fn into_inotify(self) -> (inotify: Inotify)
        ensures
            inotify.handle() == self@.handle,
    {
        Inotify::from_handle(self.fd)
    }

    /// Whether nothing is left to take from the buffer, so that the next
    /// event needs a read first.
    pub fn is_empty(&self) -> (r: bool)
        ensures
            r == (self@.unused == 0),
    {
        self.unused_bytes == 0
    }

    /// Whether the end of the stream was seen.
    pub fn is_ended(&self) -> (r: bool)
        ensures
            r == self@.ended,
    {
        self.ended
    }

    /// Whether an event can be taken from `buffer`.
    pub fn can_take(&self, buffer: &[u8]) -> (r: bool)
        ensures
            r == self@.can_take(buffer@),
    {
        if self.unused_bytes == 0 {
            return true;
        }
        if self.buffer_pos > buffer.len() || self.unused_bytes > buffer.len() - self.buffer_pos {
            return false;
        }
        let rest = &buffer[self.buffer_pos..self.buffer_pos + self.unused_bytes];
        if rest.len() < EVENT_SIZE {
            return false;
        }
        let header = inotify_event::from_bytes(rest);
        rest.len() - EVENT_SIZE >= header.len as usize
    }

    /// Whether the result of a read that filled the first `num_bytes` bytes
    /// of `buffer` can be taken.
    pub fn can_fill(&self, buffer: &[u8], num_bytes: usize) -> (r: bool)
        ensures
            r == self@.filled(num_bytes).can_take(buffer@),
    {
        if num_bytes == 0 {
            return true;
        }
        if num_bytes > buffer.len() || num_bytes < EVENT_SIZE {
            return false;
        }
        let rest = &buffer[0..num_bytes];
        let header = inotify_event::from_bytes(rest);
        rest.len() - EVENT_SIZE >= header.len as usize
    }

    /// Takes the record at the start of the unused bytes.
    fn take_event(&mut self, buffer: &[u8]) -> (event: EventOwned)
        requires
            old(self)@.unused > 0,
            old(self)@.can_take(buffer@),
        ensures
            event@ == old(self)@.next_event(buffer@),
            final(self)@ == old(self)@.taken(buffer@),
    {
        assert(self.buffer_pos + self.unused_bytes <= buffer.len());
        let rest = &buffer[self.buffer_pos..self.buffer_pos + self.unused_bytes];
        let (bytes_consumed, event) = Event::from_buffer(self.fd.observe(), rest);
        self.buffer_pos = self.buffer_pos + bytes_consumed;
        self.unused_bytes = self.unused_bytes - bytes_consumed;
        event.to_owned()
    }

    /// Reads and returns one event, without waiting.
    ///
    /// Where nothing is left to take from the buffer, the caller has read
    /// into it first, and `read` holds what the read returned, -1 for a
    /// failure, with what describes the failure. Else `read` is `None`.
    ///
    /// The result is `Ok(None)` where the read would have had to wait, and
    /// an error where it failed or returned no bytes at all. Else it is the
    /// event at the start of the unused bytes, and the stream moves on
    /// behind that event's record.
    pub fn read_events(&mut self, buffer: &[u8], read: Option<(isize, OsError)>) -> (r: Result<
        Option<EventOwned>,
        Error,
    >)
        requires
            read is Some <==> old(self)@.unused == 0,
            read is None ==> old(self)@.can_take(buffer@),
            read matches Some((n, _)) ==> n >= -1 && (n > 0 ==> old(self)@.filled(
                n as usize,
            ).can_take(buffer@)),
        ensures
            match read {
                None => {
                    &&& r matches Ok(Some(event))
                    &&& event@ == old(self)@.next_event(buffer@)
                    &&& final(self)@ == old(self)@.taken(buffer@)
                },
                Some((n, error)) => if n == 0 {
                    r matches Err(e) && e == Error::UnexpectedEof && final(self)@ == old(
                        self,
                    )@.filled(0)
                } else if n == -1 && error.would_block {
                    r matches Ok(None) && final(self)@ == old(self)@.filled(0)
                } else if n == -1 {
                    r matches Err(e) && e == Error::Os(error) && final(self)@ == old(
                        self,
                    )@.filled(0)
                } else {
                    &&& r matches Ok(Some(event))
                    &&& event@ == old(self)@.filled(n as usize).next_event(buffer@)
                    &&& final(self)@ == old(self)@.filled(n as usize).taken(buffer@)
                },
            },
    {
        if let Some((num_bytes, error)) = read {
            self.buffer_pos = 0;
            if num_bytes == 0 {
                return Err(Error::UnexpectedEof);
            } else if num_bytes == -1 {
                if error.would_block {
                    return Ok(None);
                }
                return Err(Error::Os(error));
            }
            self.unused_bytes = num_bytes as usize;
        }
        Ok(Some(self.take_event(buffer)))
    }

    /// Makes one step of the stream.
    ///
    /// Where the stream has not ended and nothing is left to take from the
    /// buffer, the caller has tried to read into it first, and `read` holds
    /// what came of that. Else `read` is `None`.
    ///
    /// A read that is pending leaves the stream as it is, and the poll
    /// pending. A read of no bytes at all ends the stream, for good. Else
    /// the poll yields the one event at the start of the unused bytes, and
    /// the stream moves on behind that event's record.
    pub fn poll_next(&mut self, buffer: &[u8], read: Option<StreamRead>) -> (r: StreamPoll)
        requires
            read is Some <==> !old(self)@.ended && old(self)@.unused == 0,
            read is None ==> old(self)@.can_take(buffer@),
            read matches Some(StreamRead::Bytes(n)) ==> old(self)@.filled(n).can_take(buffer@),
        ensures
            match read {
                None => if old(self)@.ended {
                    r matches StreamPoll::Ready(None) && final(self)@ == old(self)@
                } else {
                    &&& r matches StreamPoll::Ready(Some(Ok(event)))
                    &&& event@ == old(self)@.next_event(buffer@)
                    &&& final(self)@ == old(self)@.taken(buffer@)
                },
                Some(StreamRead::Pending) => r matches StreamPoll::Pending && final(self)@ == old(
                    self,
                )@,
                Some(StreamRead::Failed(error)) => {
                    &&& r matches StreamPoll::Ready(Some(Err(e)))
                    &&& e == Error::Os(error)
                    &&& final(self)@ == old(self)@
                },
                Some(StreamRead::Bytes(n)) => if n == 0 {
                    r matches StreamPoll::Ready(None) && final(self)@ == old(self)@.finished()
                } else {
                    &&& r matches StreamPoll::Ready(Some(Ok(event)))
                    &&& event@ == old(self)@.filled(n).next_event(buffer@)
                    &&& final(self)@ == old(self)@.filled(n).taken(buffer@)
                },
            },
    {
        if self.ended {
            return StreamPoll::Ready(None);
        }
        match read {
            Some(StreamRead::Pending) => {
                return StreamPoll::Pending;
            },
            Some(StreamRead::Failed(error)) => {
                return StreamPoll::Ready(Some(Err(Error::Os(error))));
            },
            Some(StreamRead::Bytes(num_bytes)) => {
                if num_bytes == 0 {
                    self.ended = true;
                    return StreamPoll::Ready(None);
                }
                self.buffer_pos = 0;
                self.unused_bytes = num_bytes;
            },
            None => {},
        }
        StreamPoll::Ready(Some(Ok(self.take_event(buffer))))
    }
}

} // verus!
