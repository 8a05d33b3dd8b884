//! The kernel's side of the interface: flag bits and the layout of a record.

use vstd::endian::{endianness, Endian};
use vstd::prelude::*;

verus! {

/// Event: file was accessed.
pub const IN_ACCESS: u32 = 0x0000_0001;

/// Event: file was modified.
pub const IN_MODIFY: u32 = 0x0000_0002;

/// Event: metadata changed.
pub const IN_ATTRIB: u32 = 0x0000_0004;

/// Event: file opened for writing was closed.
pub const IN_CLOSE_WRITE: u32 = 0x0000_0008;

/// Event: file not opened for writing was closed.
pub const IN_CLOSE_NOWRITE: u32 = 0x0000_0010;

/// Event: file was opened.
pub const IN_OPEN: u32 = 0x0000_0020;

/// Event: file or directory was moved away.
pub const IN_MOVED_FROM: u32 = 0x0000_0040;

/// Event: file or directory was moved in.
pub const IN_MOVED_TO: u32 = 0x0000_0080;

/// Event: file or directory was created.
pub const IN_CREATE: u32 = 0x0000_0100;

/// Event: file or directory was deleted.
pub const IN_DELETE: u32 = 0x0000_0200;

/// Event: the watched file or directory itself was deleted.
pub const IN_DELETE_SELF: u32 = 0x0000_0400;

/// Event: the watched file or directory itself was moved.
pub const IN_MOVE_SELF: u32 = 0x0000_0800;

/// Event: file or directory was moved away or in.
pub const IN_MOVE: u32 = IN_MOVED_FROM | IN_MOVED_TO;

/// Event: an open file was closed.
pub const IN_CLOSE: u32 = IN_CLOSE_WRITE | IN_CLOSE_NOWRITE;

/// Event: any of the twelve events above.
pub const IN_ALL_EVENTS: u32 = IN_ACCESS | IN_MODIFY | IN_ATTRIB | IN_CLOSE_WRITE
    | IN_CLOSE_NOWRITE | IN_OPEN | IN_MOVED_FROM | IN_MOVED_TO | IN_CREATE | IN_DELETE
    | IN_DELETE_SELF | IN_MOVE_SELF;

/// Option: only watch the path if it is a directory.
pub const IN_ONLYDIR: u32 = 0x0100_0000;

/// Option: do not follow a symbolic link.
pub const IN_DONT_FOLLOW: u32 = 0x0200_0000;

/// Option: no events for children that were unlinked.
pub const IN_EXCL_UNLINK: u32 = 0x0400_0000;

/// Option: add events to an existing watch instead of replacing it.
pub const IN_MASK_ADD: u32 = 0x2000_0000;

/// Option: deliver one event, then remove the watch.
pub const IN_ONESHOT: u32 = 0x8000_0000;

/// Info: the subject of the event is a directory.
pub const IN_ISDIR: u32 = 0x4000_0000;

/// Info: the file system that held the watched object was unmounted.
pub const IN_UNMOUNT: u32 = 0x0000_2000;

/// Info: the event queue overflowed.
pub const IN_Q_OVERFLOW: u32 = 0x0000_4000;

/// Info: the watch was removed.
pub const IN_IGNORED: u32 = 0x0000_8000;

/// The fixed header of one record, as the kernel lays it out.
///
/// `len` bytes of name follow the header in the stream.
#[allow(non_camel_case_types)]
#[derive(Clone, Copy, Debug, PartialEq, Eq, Structural)]
pub struct inotify_event {
    /// The watch that the record belongs to.
    pub wd: i32,
    /// The bits that say what happened.
    pub mask: u32,
    /// Connects the two records of one rename.
    pub cookie: u32,
    /// The number of name bytes after the header, padding included.
    pub len: u32,
}

/// The number of bytes that a record's header takes.
pub const EVENT_SIZE: usize = 16;

/// The number that four bytes stand for in the byte order of this machine.
pub open spec fn spec_u32_from_ne_bytes(b: Seq<u8>) -> u32
    recommends
        b.len() == 4,
{
    match endianness() {
        Endian::Little => (b[0] + b[1] * 0x100 + b[2] * 0x1_0000 + b[3] * 0x100_0000) as u32,
        Endian::Big => (b[3] + b[2] * 0x100 + b[1] * 0x1_0000 + b[0] * 0x100_0000) as u32,
    }
}

/// The four bytes that stand for a number in the byte order of this machine.
pub open spec fn spec_u32_to_ne_bytes(x: u32) -> Seq<u8> {
    let b0 = (x % 0x100) as u8;
    let b1 = (x / 0x100 % 0x100) as u8;
    let b2 = (x / 0x1_0000 % 0x100) as u8;
    let b3 = (x / 0x100_0000) as u8;
    match endianness() {
        Endian::Little => seq![b0, b1, b2, b3],
        Endian::Big => seq![b3, b2, b1, b0],
    }
}

/// Reading back the bytes of a number gives the number.
pub proof fn lemma_u32_ne_bytes_round_trip(x: u32)
    ensures
        spec_u32_to_ne_bytes(x).len() == 4,
        spec_u32_from_ne_bytes(spec_u32_to_ne_bytes(x)) == x,
{
}

/// The header that the first sixteen bytes of `s` stand for.
pub open spec fn spec_header(s: Seq<u8>) -> inotify_event
    recommends
        s.len() >= EVENT_SIZE,
{
    inotify_event {
        wd: spec_u32_from_ne_bytes(s.subrange(0, 4)) as i32,
        mask: spec_u32_from_ne_bytes(s.subrange(4, 8)),
        cookie: spec_u32_from_ne_bytes(s.subrange(8, 12)),
        len: spec_u32_from_ne_bytes(s.subrange(12, 16)),
    }
}

/// The sixteen bytes that stand for a header.
pub open spec fn spec_header_bytes(h: inotify_event) -> Seq<u8> {
    spec_u32_to_ne_bytes(h.wd as u32) + spec_u32_to_ne_bytes(h.mask) + spec_u32_to_ne_bytes(
        h.cookie,
    ) + spec_u32_to_ne_bytes(h.len)
}

/// `u32::from_ne_bytes`: the number that four bytes stand for in the byte
/// order of this machine.
#[verifier::external_body]
fn u32_from_ne_bytes(b: [u8; 4]) -> (r: u32)
    ensures
        r == spec_u32_from_ne_bytes(b@),
{
    u32::from_ne_bytes(b)
}

/// Reads the number that stands at `at` in `buffer`.
fn read_u32(buffer: &[u8], at: usize) -> (r: u32)
    requires
        at + 4 <= buffer@.len(),
    ensures
        r == spec_u32_from_ne_bytes(buffer@.subrange(at as int, at + 4)),
{
    let b = [buffer[at], buffer[at + 1], buffer[at + 2], buffer[at + 3]];
    assert(b@ =~= buffer@.subrange(at as int, at + 4));
    u32_from_ne_bytes(b)
}

impl inotify_event {
    /// Reads the header that stands at the start of `buffer`.
    pub fn from_bytes(buffer: &[u8]) -> (h: inotify_event)
        requires
            buffer@.len() >= EVENT_SIZE,
        ensures
            h == spec_header(buffer@),
    {
        let wd = read_u32(buffer, 0);
        let mask = read_u32(buffer, 4);
        let cookie = read_u32(buffer, 8);
        let len = read_u32(buffer, 12);
        inotify_event { wd: wd as i32, mask, cookie, len }
    }
}

/// A header is read back from its bytes, whatever follows them.
pub proof fn lemma_header_round_trip(h: inotify_event, rest: Seq<u8>)
    ensures
        spec_header_bytes(h).len() == EVENT_SIZE,
        spec_header(spec_header_bytes(h) + rest) == h,
{
    lemma_u32_ne_bytes_round_trip(h.wd as u32);
    lemma_u32_ne_bytes_round_trip(h.mask);
    lemma_u32_ne_bytes_round_trip(h.cookie);
    lemma_u32_ne_bytes_round_trip(h.len);
    let s = spec_header_bytes(h) + rest;
    assert(s.subrange(0, 4) =~= spec_u32_to_ne_bytes(h.wd as u32));
    assert(s.subrange(4, 8) =~= spec_u32_to_ne_bytes(h.mask));
    assert(s.subrange(8, 12) =~= spec_u32_to_ne_bytes(h.cookie));
    assert(s.subrange(12, 16) =~= spec_u32_to_ne_bytes(h.len));
    let wd = h.wd;
    assert((wd as u32) as i32 == wd) by (bit_vector);
}

} // verus!
