//! Events, and how they are read from the bytes that the kernel wrote.
//!
//! The kernel writes records one after the other. A record is a header of
//! sixteen bytes and, behind it, as many bytes of name as the header says.
//! The name ends at its first NUL byte; what follows is padding. The next
//! record starts behind the padding.

use crate::ffi::{
    inotify_event, lemma_header_round_trip, spec_header, spec_header_bytes, EVENT_SIZE,
};
use crate::handle::HandleObserver;
use crate::mask::EventMask;
use crate::watches::WatchDescriptor;
use vstd::prelude::*;
use vstd::slice::slice_to_vec;

verus! {

/// A change in the file system that a watch reported.
///
/// `S` is what holds the name: borrowed from the buffer that was read, or
/// owned.
#[derive(Clone, Debug)]
pub struct Event<S> {
    /// The watch that reported the event.
    pub wd: WatchDescriptor,
    /// What happened.
    pub mask: EventMask,
    /// Connects the two events of one rename: both hold the same cookie.
    pub cookie: u32,
    /// The name of the file that the event is about, where the event is
    /// about an entry of a watched directory. It is `None` where the event
    /// is about the watched object itself.
    pub name: Option<S>,
}

/// An event that owns its name.
pub type EventOwned = Event<Vec<u8>>;

/// An event as plain values.
pub struct EventView {
    /// The watch that reported the event.
    pub wd: WatchDescriptor,
    /// The bits of the mask.
    pub mask: u32,
    /// The cookie.
    pub cookie: u32,
    /// The bytes of the name.
    pub name: Option<Seq<u8>>,
}

impl<S: View<V = Seq<u8>>> View for Event<S> {
    type V = EventView;

    open spec fn view(&self) -> EventView {
        EventView {
            wd: self.wd,
            mask: self.mask@,
            cookie: self.cookie,
            name: match self.name {
                Some(name) => Some(name@),
                None => None,
            },
        }
    }
}

/// The number of bytes of a name field that stand before its first NUL byte:
/// all of them, where it holds none.
pub open spec fn spec_name_len(field: Seq<u8>) -> nat
    decreases field.len(),
{
    if field.len() == 0 || field[0] == 0 {
        0
    } else {
        1 + spec_name_len(field.drop_first())
    }
}

/// The name that a name field holds: the bytes before its first NUL byte, or
/// no name where there are none.
pub open spec fn spec_name(field: Seq<u8>) -> Option<Seq<u8>> {
    if spec_name_len(field) == 0 {
        None
    } else {
        Some(field.take(spec_name_len(field) as int))
    }
}

/// Whether a whole record, header and name field, stands at the start of `s`.
pub open spec fn holds_record(s: Seq<u8>) -> bool {
    s.len() >= EVENT_SIZE && s.len() - EVENT_SIZE >= spec_header(s).len
}

/// The number of bytes that the record at the start of `s` takes: its header
/// and its whole name field, padding included.
pub open spec fn record_size(s: Seq<u8>) -> nat {
    (EVENT_SIZE + spec_header(s).len) as nat
}

/// The event that the record at the start of `s` stands for.
pub open spec fn spec_event(fd: HandleObserver, s: Seq<u8>) -> EventView {
    let header = spec_header(s);
    EventView {
        wd: WatchDescriptor { id: header.wd, fd },
        mask: header.mask,
        cookie: header.cookie,
        name: spec_name(s.subrange(EVENT_SIZE as int, record_size(s) as int)),
    }
}

/// Whether `s` is made of whole records, one after the other, and nothing else.
pub open spec fn well_formed(s: Seq<u8>) -> bool
    decreases s.len(),
{
    s.len() == 0 || (holds_record(s) && well_formed(s.skip(record_size(s) as int)))
}

/// The events that the records of `s` stand for, in their order.
pub open spec fn spec_events(fd: HandleObserver, s: Seq<u8>) -> Seq<EventView>
    decreases s.len(),
{
    if s.len() == 0 || !holds_record(s) {
        Seq::empty()
    } else {
        seq![spec_event(fd, s)] + spec_events(fd, s.skip(record_size(s) as int))
    }
}

/// The number of bytes that the records of `s` take, all in all.
pub open spec fn spec_consumed(s: Seq<u8>) -> nat
    decreases s.len(),
{
    if s.len() == 0 || !holds_record(s) {
        0
    } else {
        record_size(s) + spec_consumed(s.skip(record_size(s) as int))
    }
}

/// The first NUL byte of a field stands at `spec_name_len`, and none before.
pub proof fn lemma_name_len(field: Seq<u8>)
    ensures
        spec_name_len(field) <= field.len(),
        forall|i: int| 0 <= i < spec_name_len(field) ==> field[i] != 0,
        spec_name_len(field) < field.len() ==> field[spec_name_len(field) as int] == 0,
    decreases field.len(),
{
    if field.len() == 0 || field[0] == 0 {
    } else {
        let rest = field.drop_first();
        lemma_name_len(rest);
        assert forall|i: int| 0 <= i < spec_name_len(field) implies field[i] != 0 by {
            if i > 0 {
                assert(field[i] == rest[i - 1]);
            }
        }
        if spec_name_len(field) < field.len() {
            assert(field[spec_name_len(field) as int] == rest[spec_name_len(rest) as int]);
        }
    }
}

/// The name of an event is not empty and holds no NUL byte.
pub proof fn lemma_name_holds_no_nul(fd: HandleObserver, s: Seq<u8>)
    ensures
        spec_event(fd, s).name matches Some(name) ==> name.len() > 0 && forall|i: int|
            0 <= i < name.len() ==> name[i] != 0,
{
    lemma_name_len(s.subrange(EVENT_SIZE as int, record_size(s) as int));
}

/// A place that holds a NUL byte, or is the end, with no NUL byte before it,
/// is `spec_name_len`.
proof fn lemma_name_len_is(field: Seq<u8>, n: int)
    requires
        0 <= n <= field.len(),
        forall|i: int| 0 <= i < n ==> field[i] != 0,
        n < field.len() ==> field[n] == 0,
    ensures
        spec_name_len(field) == n,
    decreases field.len(),
{
    if n > 0 {
        let rest = field.drop_first();
        assert forall|i: int| 0 <= i < n - 1 implies rest[i] != 0 by {
            assert(rest[i] == field[i + 1]);
        }
        lemma_name_len_is(rest, n - 1);
    }
}

/// Finds the length of the name in a name field.
fn name_len(field: &[u8]) -> (n: usize)
    ensures
        n == spec_name_len(field@),
{
    let mut n: usize = 0;
    while n < field.len() && field[n] != 0
        invariant
            n <= field@.len(),
            forall|i: int| 0 <= i < n ==> field@[i] != 0,
        decreases field@.len() - n,
    {
        n = n + 1;
    }
    proof {
        lemma_name_len_is(field@, n as int);
    }
    n
}

impl<'a> Event<&'a [u8]> {
    /// Makes an event of a header and the name that came with it.
    ///
    /// An empty name is no name. The bits of the mask are kept as they are,
    /// also those that are no flags of an event mask.
    pub fn new(fd: HandleObserver, event: &inotify_event, name: &'a [u8]) -> (e: Self)
        ensures
            e@ == (EventView {
                wd: WatchDescriptor { id: event.wd, fd },
                mask: event.mask,
                cookie: event.cookie,
                name: if name@.len() == 0 {
                    None
                } else {
                    Some(name@)
                },
            }),
    {
        let mask = EventMask::from_bits_retain(event.mask);
        let wd = WatchDescriptor { id: event.wd, fd };
        let name = if name.len() == 0 {
            None
        } else {
            Some(name)
        };
        Event { wd, mask, cookie: event.cookie, name }
    }

    /// Reads the record at the start of `buffer`.
    ///
    /// Returns the number of bytes that the record takes, and the event. The
    /// name is cut at its first NUL byte, so it holds none; the number of
    /// bytes counts the whole name field, so that the next record is found
    /// behind the padding.
    pub fn from_buffer(fd: HandleObserver, buffer: &'a [u8]) -> (r: (usize, Self))
        requires
            holds_record(buffer@),
        ensures
            r.0 == record_size(buffer@),
            r.1@ == spec_event(fd, buffer@),
            r.1@.name matches Some(name) ==> name.len() > 0 && forall|i: int|
                0 <= i < name.len() ==> name[i] != 0,
    {
        let event = inotify_event::from_bytes(buffer);
        assert(EVENT_SIZE + event.len <= buffer.len());
        let bytes_consumed = EVENT_SIZE + event.len as usize;
        let field = &buffer[EVENT_SIZE..bytes_consumed];
        let n = name_len(field);
        proof {
            lemma_name_len(field@);
            lemma_name_holds_no_nul(fd, buffer@);
        }
        let name = &field[0..n];
        assert(name@ == field@.take(n as int));
        (bytes_consumed, Event::new(fd, &event, name))
    }

    /// A copy of the event that owns its name.
    pub fn into_owned(&self) -> (e: EventOwned)
        ensures
            e@ == self@,
    {
        self.to_owned()
    }

    /// A copy of the event that owns its name.
    pub fn to_owned(&self) -> (e: EventOwned)
        ensures
            e@ == self@,
    {
        Event {
            wd: self.wd,
            mask: self.mask,
            cookie: self.cookie,
            name: match self.name {
                Some(name) => Some(slice_to_vec(name)),
                None => None,
            },
        }
    }
}

impl<S> Event<S> {
    /// Whether the file was accessed.
    pub fn is_access(&self) -> (r: bool)
        ensures
            r == self.mask.has_any(EventMask::ACCESS),
    {
        self.mask.intersects(EventMask::ACCESS)
    }

    /// Whether the file was modified.
    pub fn is_modify(&self) -> (r: bool)
        ensures
            r == self.mask.has_any(EventMask::MODIFY),
    {
        self.mask.intersects(EventMask::MODIFY)
    }

    /// Whether metadata changed.
    pub fn is_attrib(&self) -> (r: bool)
        ensures
            r == self.mask.has_any(EventMask::ATTRIB),
    {
        self.mask.intersects(EventMask::ATTRIB)
    }

    /// Whether a file opened for writing was closed.
    pub fn is_close_write(&self) -> (r: bool)
        ensures
            r == self.mask.has_any(EventMask::CLOSE_WRITE),
    {
        self.mask.intersects(EventMask::CLOSE_WRITE)
    }

    /// Whether a file not opened for writing was closed.
    pub fn is_close_nowrite(&self) -> (r: bool)
        ensures
            r == self.mask.has_any(EventMask::CLOSE_NOWRITE),
    {
        self.mask.intersects(EventMask::CLOSE_NOWRITE)
    }

    /// Whether the file was opened.
    pub fn is_open(&self) -> (r: bool)
        ensures
            r == self.mask.has_any(EventMask::OPEN),
    {
        self.mask.intersects(EventMask::OPEN)
    }

    /// Whether the file was moved away.
    pub fn is_moved_from(&self) -> (r: bool)
        ensures
            r == self.mask.has_any(EventMask::MOVED_FROM),
    {
        self.mask.intersects(EventMask::MOVED_FROM)
    }

    /// Whether the file was moved in.
    pub fn is_moved_to(&self) -> (r: bool)
        ensures
            r == self.mask.has_any(EventMask::MOVED_TO),
    {
        self.mask.intersects(EventMask::MOVED_TO)
    }

    /// Whether the file was created.
    pub fn is_create(&self) -> (r: bool)
        ensures
            r == self.mask.has_any(EventMask::CREATE),
    {
        self.mask.intersects(EventMask::CREATE)
    }

    /// Whether the file was deleted.
    pub fn is_delete(&self) -> (r: bool)
        ensures
            r == self.mask.has_any(EventMask::DELETE),
    {
        self.mask.intersects(EventMask::DELETE)
    }

    /// Whether the watched file itself was deleted.
    pub fn is_delete_self(&self) -> (r: bool)
        ensures
            r == self.mask.has_any(EventMask::DELETE_SELF),
    {
        self.mask.intersects(EventMask::DELETE_SELF)
    }

    /// Whether the watched file itself was moved.
    pub fn is_move_self(&self) -> (r: bool)
        ensures
            r == self.mask.has_any(EventMask::MOVE_SELF),
    {
        self.mask.intersects(EventMask::MOVE_SELF)
    }

    /// Whether the file was moved away or in.
    pub fn is_move(&self) -> (r: bool)
        ensures
            r == self.mask.has_any(EventMask::MOVED_FROM | EventMask::MOVED_TO),
    {
        self.mask.intersects(EventMask::MOVED_FROM | EventMask::MOVED_TO)
    }

    /// Whether a file was closed, however it was opened.
    pub fn is_close(&self) -> (r: bool)
        ensures
            r == self.mask.has_any(EventMask::CLOSE_WRITE | EventMask::CLOSE_NOWRITE),
    {
        self.mask.intersects(EventMask::CLOSE_WRITE | EventMask::CLOSE_NOWRITE)
    }

    /// Whether the subject of the event is a directory.
    pub fn is_dir(&self) -> (r: bool)
        ensures
            r == self.mask.has_any(EventMask::ISDIR),
    {
        self.mask.intersects(EventMask::ISDIR)
    }

    /// Whether the file system was unmounted.
    pub fn is_unmount(&self) -> (r: bool)
        ensures
            r == self.mask.has_any(EventMask::UNMOUNT),
    {
        self.mask.intersects(EventMask::UNMOUNT)
    }

    /// Whether the event queue overflowed.
    pub fn is_queue_overflow(&self) -> (r: bool)
        ensures
            r == self.mask.has_any(EventMask::Q_OVERFLOW),
    {
        self.mask.intersects(EventMask::Q_OVERFLOW)
    }

    /// Whether the watch was removed.
    pub fn is_ignored(&self) -> (r: bool)
        ensures
            r == self.mask.has_any(EventMask::IGNORED),
    {
        self.mask.intersects(EventMask::IGNORED)
    }
}

/// Whether the first `num_bytes` bytes of `buffer` are made of whole records
/// and nothing else.
pub fn holds_records(buffer: &[u8], num_bytes: usize) -> (r: bool)
    ensures
        r == (num_bytes <= buffer@.len() && well_formed(buffer@.take(num_bytes as int))),
{
    if num_bytes > buffer.len() {
        return false;
    }
    let mut pos: usize = 0;
    while pos < num_bytes
        invariant
            pos <= num_bytes <= buffer@.len(),
            well_formed(buffer@.take(num_bytes as int)) == well_formed(
                buffer@.subrange(pos as int, num_bytes as int),
            ),
        decreases num_bytes - pos,
    {
        let rest = &buffer[pos..num_bytes];
        if rest.len() < EVENT_SIZE {
            return false;
        }
        let header = inotify_event::from_bytes(rest);
        if rest.len() - EVENT_SIZE < header.len as usize {
            return false;
        }
        let step = EVENT_SIZE + header.len as usize;
        assert(rest@.skip(step as int) == buffer@.subrange(pos + step, num_bytes as int));
        pos = pos + step;
    }
    assert(buffer@.subrange(pos as int, num_bytes as int).len() == 0);
    true
}

/// The events of one read, to be taken one after the other.
#[derive(Debug)]
pub struct Events<'a> {
    fd: HandleObserver,
    buffer: &'a [u8],
    num_bytes: usize,
    pos: usize,
}

impl<'a> Events<'a> {
    #[verifier::type_invariant]
    spec fn inv(self) -> bool {
        &&& self.pos <= self.num_bytes <= self.buffer@.len()
        &&& well_formed(self.buffer@.subrange(self.pos as int, self.num_bytes as int))
    }

    /// The events that are still to come, in their order.
    pub closed spec fn remaining(self) -> Seq<EventView> {
        spec_events(self.fd, self.buffer@.subrange(self.pos as int, self.num_bytes as int))
    }

    /// The events that the first `num_bytes` bytes of `buffer` hold.
    ///
    /// No byte behind `num_bytes` is ever read.
    pub fn new(fd: HandleObserver, buffer: &'a [u8], num_bytes: usize) -> (events: Self)
        requires
            num_bytes <= buffer@.len(),
            well_formed(buffer@.take(num_bytes as int)),
        ensures
            events.remaining() == spec_events(fd, buffer@.take(num_bytes as int)),
    {
        assert(buffer@.take(num_bytes as int) == buffer@.subrange(0, num_bytes as int));
        Events { fd, buffer, num_bytes, pos: 0 }
    }

    /// Takes the next event, if one is left.
    pub fn next(&mut self) -> (r: Option<Event<&'a [u8]>>)
        ensures
            match r {
                Some(event) => {
                    &&& old(self).remaining().len() > 0
                    &&& event@ == old(self).remaining()[0]
                    &&& final(self).remaining() == old(self).remaining().drop_first()
                },
                None => old(self).remaining().len() == 0 && final(self).remaining().len() == 0,
            },
    {
        proof {
            use_type_invariant(&*self);
        }
        if self.pos < self.num_bytes {
            let rest = &self.buffer[self.pos..self.num_bytes];
            let (step, event) = Event::from_buffer(self.fd, rest);
            assert(rest@.skip(step as int) == self.buffer@.subrange(
                self.pos + step,
                self.num_bytes as int,
            ));
            assert(spec_events(self.fd, rest@).drop_first() == spec_events(
                self.fd,
                rest@.skip(step as int),
            ));
            self.pos = self.pos + step;
            Some(event)
        } else {
            None
        }
    }

    /// Takes all events that are left, each with a name of its own.
    pub fn into_owned(self) -> (events: Vec<EventOwned>)
        ensures
            events@.len() == self.remaining().len(),
            forall|i: int|
                0 <= i < events@.len() ==> (#[trigger] events@[i])@ == self.remaining()[i],
    {
        let ghost all = self.remaining();
        let mut left = self;
        let mut events: Vec<EventOwned> = Vec::new();
        loop
            invariant
                all == self.remaining(),
                events@.len() + left.remaining().len() == all.len(),
                forall|i: int| 0 <= i < events@.len() ==> (#[trigger] events@[i])@ == all[i],
                forall|i: int|
                    0 <= i < left.remaining().len() ==> left.remaining()[i] == all[events@.len()
                        + i],
            decreases left.remaining().len(),
        {
            let ghost before = left.remaining();
            match left.next() {
                Some(event) => {
                    events.push(event.to_owned());
                    assert forall|i: int|
                        0 <= i < left.remaining().len() implies left.remaining()[i]
                        == all[events@.len() + i] by {
                        assert(left.remaining()[i] == before[i + 1]);
                    }
                },
                None => {
                    return events;
                },
            }
        }
    }
}

/// One record as the kernel writes it: a header, and the name field that the
/// header announces.
pub struct RawRecord {
    /// The header.
    pub header: inotify_event,
    /// The name field: the name, its NUL byte and the padding.
    pub name: Seq<u8>,
}

impl RawRecord {
    /// The header announces the name field as long as it is.
    pub open spec fn wf(self) -> bool {
        self.header.len == self.name.len()
    }

    /// The bytes of the record.
    pub open spec fn bytes(self) -> Seq<u8> {
        spec_header_bytes(self.header) + self.name
    }

    /// The event that the record stands for.
    pub open spec fn event(self, fd: HandleObserver) -> EventView {
        EventView {
            wd: WatchDescriptor { id: self.header.wd, fd },
            mask: self.header.mask,
            cookie: self.header.cookie,
            name: spec_name(self.name),
        }
    }
}

/// The bytes of a row of records, one after the other.
pub open spec fn spec_stream(records: Seq<RawRecord>) -> Seq<u8>
    decreases records.len(),
{
    if records.len() == 0 {
        Seq::empty()
    } else {
        records[0].bytes() + spec_stream(records.drop_first())
    }
}

/// The record at the start of a stream is read back, whatever follows it.
pub proof fn lemma_record_round_trip(fd: HandleObserver, record: RawRecord, rest: Seq<u8>)
    requires
        record.wf(),
    ensures
        holds_record(record.bytes() + rest),
        record_size(record.bytes() + rest) == record.bytes().len(),
        spec_event(fd, record.bytes() + rest) == record.event(fd),
        (record.bytes() + rest).skip(record.bytes().len() as int) == rest,
{
    let s = record.bytes() + rest;
    lemma_header_round_trip(record.header, record.name + rest);
    assert(s == spec_header_bytes(record.header) + (record.name + rest));
    assert(s.subrange(EVENT_SIZE as int, record_size(s) as int) == record.name);
    assert(s.skip(record.bytes().len() as int) == rest);
}

/// A buffer made of any number of records, one after the other, is read as
/// that many events, in the order of the records, and the bytes that the
/// events take add up to the length of the buffer.
pub proof fn lemma_decoding_concatenated_records(fd: HandleObserver, records: Seq<RawRecord>)
    requires
        forall|i: int| 0 <= i < records.len() ==> (#[trigger] records[i]).wf(),
    ensures
        well_formed(spec_stream(records)),
        spec_events(fd, spec_stream(records)).len() == records.len(),
        forall|i: int|
            0 <= i < records.len() ==> spec_events(fd, spec_stream(records))[i]
                == (#[trigger] records[i]).event(fd),
        spec_consumed(spec_stream(records)) == spec_stream(records).len(),
    decreases records.len(),
{
    if records.len() > 0 {
        let first = records[0];
        let others = records.drop_first();
        let rest = spec_stream(others);
        assert(first.wf());
        assert forall|i: int| 0 <= i < others.len() implies (#[trigger] others[i]).wf() by {
            assert(others[i] == records[i + 1]);
        }
        lemma_decoding_concatenated_records(fd, others);
        lemma_record_round_trip(fd, first, rest);
        let s = spec_stream(records);
        assert(s == first.bytes() + rest);
        assert(s.len() > 0);
        assert forall|i: int| 0 <= i < records.len() implies spec_events(fd, s)[i]
            == (#[trigger] records[i]).event(fd) by {
            if i > 0 {
                assert(records[i] == others[i - 1]);
                assert(spec_events(fd, s)[i] == spec_events(fd, rest)[i - 1]);
            }
        }
    }
}

/// The records of a well-formed buffer take all of its bytes.
pub proof fn lemma_well_formed_is_consumed(s: Seq<u8>)
    requires
        well_formed(s),
    ensures
        spec_consumed(s) == s.len(),
    decreases s.len(),
{
    if s.len() > 0 {
        lemma_well_formed_is_consumed(s.skip(record_size(s) as int));
    }
}

} // verus!
