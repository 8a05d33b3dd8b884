//! Event masks and their classification.
//!
//! The mask of a record says what happened. At most one of its bits names the
//! kind of the event; three more bits add to it, and one reports that the
//! kernel's queue overflowed. [`EventMask::parse`] sorts a mask into these
//! parts.

use crate::ffi::{
    IN_ACCESS, IN_ATTRIB, IN_CLOSE_NOWRITE, IN_CLOSE_WRITE, IN_CREATE, IN_DELETE, IN_DELETE_SELF,
    IN_IGNORED, IN_ISDIR, IN_MODIFY, IN_MOVED_FROM, IN_MOVED_TO, IN_MOVE_SELF, IN_OPEN,
    IN_Q_OVERFLOW, IN_UNMOUNT,
};
use vstd::prelude::*;

verus! {

/// The flags of one event.
#[derive(Clone, Copy, Debug, PartialEq, Eq, PartialOrd, Ord, Hash, Structural)]
pub struct EventMask {
    bits: u32,
}

impl View for EventMask {
    type V = u32;

    closed spec fn view(&self) -> u32 {
        self.bits
    }
}

impl EventMask {
    /// File was accessed.
    pub const ACCESS: u32 = IN_ACCESS;

    /// Metadata (permissions, timestamps, ...) changed.
    pub const ATTRIB: u32 = IN_ATTRIB;

    /// File opened for writing was closed.
    pub const CLOSE_WRITE: u32 = IN_CLOSE_WRITE;

    /// File or directory not opened for writing was closed.
    pub const CLOSE_NOWRITE: u32 = IN_CLOSE_NOWRITE;

    /// File or directory was created in a watched directory.
    pub const CREATE: u32 = IN_CREATE;

    /// File or directory was deleted from a watched directory.
    pub const DELETE: u32 = IN_DELETE;

    /// The watched file or directory itself was deleted.
    pub const DELETE_SELF: u32 = IN_DELETE_SELF;

    /// File was modified.
    pub const MODIFY: u32 = IN_MODIFY;

    /// The watched file or directory itself was moved.
    pub const MOVE_SELF: u32 = IN_MOVE_SELF;

    /// File was renamed or moved; the watched directory held the old name.
    pub const MOVED_FROM: u32 = IN_MOVED_FROM;

    /// File was renamed or moved; the watched directory holds the new name.
    pub const MOVED_TO: u32 = IN_MOVED_TO;

    /// File or directory was opened.
    pub const OPEN: u32 = IN_OPEN;

    /// The watch was removed.
    pub const IGNORED: u32 = IN_IGNORED;

    /// The subject of the event is a directory.
    pub const ISDIR: u32 = IN_ISDIR;

    /// The event queue overflowed; events have presumably been lost.
    pub const Q_OVERFLOW: u32 = IN_Q_OVERFLOW;

    /// The file system that held the watched object was unmounted.
    pub const UNMOUNT: u32 = IN_UNMOUNT;

    /// Every flag that an event mask can hold.
    pub const ALL: u32 = IN_ACCESS | IN_ATTRIB | IN_CLOSE_WRITE | IN_CLOSE_NOWRITE | IN_CREATE
        | IN_DELETE | IN_DELETE_SELF | IN_MODIFY | IN_MOVE_SELF | IN_MOVED_FROM | IN_MOVED_TO
        | IN_OPEN | IN_IGNORED | IN_ISDIR | IN_Q_OVERFLOW | IN_UNMOUNT;

    /// Whether every one of `flags` is set.
    pub open spec fn has(self, flags: u32) -> bool {
        self@ & flags == flags
    }

    /// Whether any one of `flags` is set.
    pub open spec fn has_any(self, flags: u32) -> bool {
        self@ & flags != 0
    }

    /// Whether the bit of `kind` is set.
    pub open spec fn has_kind(self, kind: EventKind) -> bool {
        self.has(kind.spec_bit())
    }

    /// Whether the bits of two kinds or more are set.
    pub open spec fn has_several_kinds(self) -> bool {
        exists|j: EventKind, k: EventKind|
            j != k && #[trigger] self.has_kind(j) && #[trigger] self.has_kind(k)
    }

    /// The kind whose bit is set, if there is one.
    pub open spec fn kind(self) -> Option<EventKind> {
        if exists|k: EventKind| self.has_kind(k) {
            Some(choose|k: EventKind| self.has_kind(k))
        } else {
            None
        }
    }

    /// The mask that holds `bits`, if they are all flags of an event mask.
    pub fn from_bits(bits: u32) -> (r: Option<EventMask>)
        ensures
            r is Some <==> bits & !EventMask::ALL == 0,
            r matches Some(m) ==> m@ == bits,
    {
        if bits & !EventMask::ALL == 0 {
            Some(EventMask { bits })
        } else {
            None
        }
    }

    /// The mask that holds `bits`, whatever they are.
    pub fn from_bits_retain(bits: u32) -> (r: EventMask)
        ensures
            r@ == bits,
    {
        EventMask { bits }
    }

    /// The mask that holds `bits`, whatever they are.
    pub fn from_bits_unchecked(bits: u32) -> (r: EventMask)
        ensures
            r@ == bits,
    {
        EventMask::from_bits_retain(bits)
    }

    /// The bits of the mask.
    pub fn bits(&self) -> (r: u32)
        ensures
            r == self@,
    {
        self.bits
    }

    /// Whether every one of `flags` is set.
    pub fn contains(&self, flags: u32) -> (r: bool)
        ensures
            r == self.has(flags),
    {
        self.bits & flags == flags
    }

    /// Whether any one of `flags` is set.
    pub fn intersects(&self, flags: u32) -> (r: bool)
        ensures
            r == self.has_any(flags),
    {
        self.bits & flags != 0
    }

    /// Sorts the mask into the kind of the event and its auxiliary flags.
    pub fn parse(self) -> (r: Result<ParsedEventMask, EventMaskParseError>)
        ensures
            r == ParsedEventMask::spec_from_raw_event_mask(self),
            self.has(EventMask::Q_OVERFLOW) ==> r == Err::<ParsedEventMask, _>(
                EventMaskParseError::QueueOverflow,
            ),
    {
        ParsedEventMask::from_raw_event_mask(self)
    }
}

/// An event mask, sorted into its parts.
#[derive(Clone, Copy, Debug, PartialEq, Eq, Hash, Structural)]
pub struct ParsedEventMask {
    /// The kind of event that occurred.
    pub kind: Option<EventKind>,
    /// What else the mask says of the event.
    pub auxiliary_flags: EventAuxiliaryFlags,
}

impl ParsedEventMask {
    /// What a mask is sorted into.
    ///
    /// A queue overflow comes first, whatever else is set. Then the bits of
    /// two kinds or more are an error that carries the mask.
    pub open spec fn spec_from_raw_event_mask(mask: EventMask) -> Result<
        ParsedEventMask,
        EventMaskParseError,
    > {
        if mask.has(EventMask::Q_OVERFLOW) {
            Err(EventMaskParseError::QueueOverflow)
        } else if mask.has_several_kinds() {
            Err(EventMaskParseError::TooManyBitsSet(mask))
        } else {
            Ok(
                ParsedEventMask {
                    kind: mask.kind(),
                    auxiliary_flags: EventAuxiliaryFlags::spec_from_raw_event_mask(mask),
                },
            )
        }
    }

    /// Puts the parts of a mask together.
    pub fn from_parts(kind: Option<EventKind>, auxiliary_flags: EventAuxiliaryFlags) -> (r: Self)
        ensures
            r == (ParsedEventMask { kind, auxiliary_flags }),
    {
        ParsedEventMask { kind, auxiliary_flags }
    }

    /// Sorts a mask into the kind of the event and its auxiliary flags.
    pub fn from_raw_event_mask(mask: EventMask) -> (r: Result<Self, EventMaskParseError>)
        ensures
            r == ParsedEventMask::spec_from_raw_event_mask(mask),
            mask.has(EventMask::Q_OVERFLOW) ==> r == Err::<ParsedEventMask, _>(
                EventMaskParseError::QueueOverflow,
            ),
    {
        if mask.contains(EventMask::Q_OVERFLOW) {
            return Err(EventMaskParseError::QueueOverflow);
        }
        let kind = match EventKind::from_raw_event_mask(mask) {
            Ok(kind) => kind,
            Err(e) => {
                return Err(e);
            },
        };
        let auxiliary_flags = EventAuxiliaryFlags::from_raw_event_mask(mask);
        Ok(ParsedEventMask::from_parts(kind, auxiliary_flags))
    }
}

/// The kind of an event. A mask names one kind at most.
#[derive(Clone, Copy, Debug, PartialEq, Eq, Hash, Structural)]
pub enum EventKind {
    /// File was accessed.
    Access,
    /// Metadata changed: permissions, timestamps, extended attributes, link
    /// count, user or group.
    Attrib,
    /// File opened for writing was closed.
    CloseWrite,
    /// File or directory not opened for writing was closed.
    CloseNowrite,
    /// File or directory was created in a watched directory.
    Create,
    /// File or directory was deleted from a watched directory.
    Delete,
    /// The watched file or directory itself was deleted.
    DeleteSelf,
    /// File was modified.
    Modify,
    /// The watched file or directory itself was moved.
    MoveSelf,
    /// Comes for the directory that held the old name when a file is renamed.
    MovedFrom,
    /// Comes for the directory that holds the new name when a file is renamed.
    MovedTo,
    /// File or directory was opened.
    Open,
}

/// The number of kinds.
pub const KINDS: usize = 12;

impl EventKind {
    /// The bit that stands for the kind in a mask.
    pub open spec fn spec_bit(self) -> u32 {
        match self {
            EventKind::Access => EventMask::ACCESS,
            EventKind::Attrib => EventMask::ATTRIB,
            EventKind::CloseWrite => EventMask::CLOSE_WRITE,
            EventKind::CloseNowrite => EventMask::CLOSE_NOWRITE,
            EventKind::Create => EventMask::CREATE,
            EventKind::Delete => EventMask::DELETE,
            EventKind::DeleteSelf => EventMask::DELETE_SELF,
            EventKind::Modify => EventMask::MODIFY,
            EventKind::MoveSelf => EventMask::MOVE_SELF,
            EventKind::MovedFrom => EventMask::MOVED_FROM,
            EventKind::MovedTo => EventMask::MOVED_TO,
            EventKind::Open => EventMask::OPEN,
        }
    }

    /// The place of the kind in the order in which a mask is searched.
    pub open spec fn index(self) -> int {
        match self {
            EventKind::Access => 0,
            EventKind::Attrib => 1,
            EventKind::CloseWrite => 2,
            EventKind::CloseNowrite => 3,
            EventKind::Create => 4,
            EventKind::Delete => 5,
            EventKind::DeleteSelf => 6,
            EventKind::Modify => 7,
            EventKind::MoveSelf => 8,
            EventKind::MovedFrom => 9,
            EventKind::MovedTo => 10,
            EventKind::Open => 11,
        }
    }

    /// The bit that stands for the kind in a mask.
    #[verifier::when_used_as_spec(spec_bit)]
    pub fn bit(self) -> (r: u32)
        ensures
            r == self.spec_bit(),
    {
        match self {
            EventKind::Access => EventMask::ACCESS,
            EventKind::Attrib => EventMask::ATTRIB,
            EventKind::CloseWrite => EventMask::CLOSE_WRITE,
            EventKind::CloseNowrite => EventMask::CLOSE_NOWRITE,
            EventKind::Create => EventMask::CREATE,
            EventKind::Delete => EventMask::DELETE,
            EventKind::DeleteSelf => EventMask::DELETE_SELF,
            EventKind::Modify => EventMask::MODIFY,
            EventKind::MoveSelf => EventMask::MOVE_SELF,
            EventKind::MovedFrom => EventMask::MOVED_FROM,
            EventKind::MovedTo => EventMask::MOVED_TO,
            EventKind::Open => EventMask::OPEN,
        }
    }

    /// The kind that stands at place `i`.
    fn at(i: usize) -> (k: EventKind)
        requires
            i < KINDS,
        ensures
            k.index() == i,
    {
        match i {
            0 => EventKind::Access,
            1 => EventKind::Attrib,
            2 => EventKind::CloseWrite,
            3 => EventKind::CloseNowrite,
            4 => EventKind::Create,
            5 => EventKind::Delete,
            6 => EventKind::DeleteSelf,
            7 => EventKind::Modify,
            8 => EventKind::MoveSelf,
            9 => EventKind::MovedFrom,
            10 => EventKind::MovedTo,
            _ => EventKind::Open,
        }
    }

    /// Finds the kind that a mask names.
    ///
    /// The result is `Ok(None)` where the mask names no kind, and an error
    /// that carries the mask where it names two or more.
    pub fn from_raw_event_mask(mask: EventMask) -> (r: Result<Option<Self>, EventMaskParseError>)
        ensures
            r == if mask.has_several_kinds() {
                Err::<Option<EventKind>, _>(EventMaskParseError::TooManyBitsSet(mask))
            } else {
                Ok(mask.kind())
            },
    {
        let mut kind: Option<EventKind> = None;
        let mut i: usize = 0;
        while i < KINDS
            invariant
                i <= KINDS,
                forall|k: EventKind|
                    k.index() < i && #[trigger] mask.has_kind(k) ==> kind == Some(k),
                kind matches Some(k) ==> k.index() < i && mask.has_kind(k),
            decreases KINDS - i,
        {
            let candidate = EventKind::at(i);
            if mask.contains(candidate.bit()) {
                if kind.is_some() {
                    assert(mask.has_kind(kind.unwrap()) && mask.has_kind(candidate));
                    return Err(EventMaskParseError::TooManyBitsSet(mask));
                }
                kind = Some(candidate);
            }
            i = i + 1;
        }
        proof {
            assert forall|j: EventKind, k: EventKind|
                #[trigger] mask.has_kind(j) && #[trigger] mask.has_kind(k) implies j == k by {
                assert(j.index() < KINDS && k.index() < KINDS);
            }
            if let Some(k) = kind {
                assert(mask.has_kind(k));
            } else {
                assert forall|k: EventKind| !mask.has_kind(k) by {
                    assert(k.index() < KINDS);
                }
            }
        }
        Ok(kind)
    }
}

/// What a mask says of an event besides its kind. Any of these may be set,
/// with any kind or with none.
#[derive(Clone, Copy, Debug, Hash, PartialEq, Eq, Structural)]
pub struct EventAuxiliaryFlags {
    /// The watch was removed: on request, or because the file was deleted or
    /// its file system unmounted.
    pub ignored: bool,
    /// The subject of the event is a directory.
    pub isdir: bool,
    /// The file system that held the watched object was unmounted.
    pub unmount: bool,
}

impl EventAuxiliaryFlags {
    /// The auxiliary flags that a mask holds.
    pub open spec fn spec_from_raw_event_mask(mask: EventMask) -> EventAuxiliaryFlags {
        EventAuxiliaryFlags {
            ignored: mask.has(EventMask::IGNORED),
            isdir: mask.has(EventMask::ISDIR),
            unmount: mask.has(EventMask::UNMOUNT),
        }
    }

    /// The bits that stand for the flags in a mask.
    pub open spec fn spec_bits(self) -> u32 {
        (if self.ignored {
            EventMask::IGNORED
        } else {
            0
        }) | (if self.isdir {
            EventMask::ISDIR
        } else {
            0
        }) | (if self.unmount {
            EventMask::UNMOUNT
        } else {
            0
        })
    }

    /// Reads the auxiliary flags of a mask.
    pub fn from_raw_event_mask(mask: EventMask) -> (r: Self)
        ensures
            r == EventAuxiliaryFlags::spec_from_raw_event_mask(mask),
    {
        EventAuxiliaryFlags {
            ignored: mask.contains(EventMask::IGNORED),
            isdir: mask.contains(EventMask::ISDIR),
            unmount: mask.contains(EventMask::UNMOUNT),
        }
    }
}

impl Default for EventAuxiliaryFlags {
    fn default() -> (r: Self)
        ensures
            r == (EventAuxiliaryFlags { ignored: false, isdir: false, unmount: false }),
    {
        EventAuxiliaryFlags { ignored: false, isdir: false, unmount: false }
    }
}

/// Whether `b` is the bit of a kind.
spec fn is_kind_bit(b: u32) -> bool {
    ||| b == IN_ACCESS
    ||| b == IN_ATTRIB
    ||| b == IN_CLOSE_WRITE
    ||| b == IN_CLOSE_NOWRITE
    ||| b == IN_CREATE
    ||| b == IN_DELETE
    ||| b == IN_DELETE_SELF
    ||| b == IN_MODIFY
    ||| b == IN_MOVE_SELF
    ||| b == IN_MOVED_FROM
    ||| b == IN_MOVED_TO
    ||| b == IN_OPEN
}

/// What is set in the bit of one kind joined with auxiliary bits.
proof fn lemma_bits_of_one_kind(b: u32, ignored: u32, isdir: u32, unmount: u32, c: u32)
    by (bit_vector)
    requires
        is_kind_bit(b),
        is_kind_bit(c),
        ignored == 0 || ignored == IN_IGNORED,
        isdir == 0 || isdir == IN_ISDIR,
        unmount == 0 || unmount == IN_UNMOUNT,
    ensures
        ((b | (ignored | isdir | unmount)) & c == c) == (b == c),
        (b | (ignored | isdir | unmount)) & IN_Q_OVERFLOW != IN_Q_OVERFLOW,
        ((b | (ignored | isdir | unmount)) & IN_IGNORED == IN_IGNORED) == (ignored == IN_IGNORED),
        ((b | (ignored | isdir | unmount)) & IN_ISDIR == IN_ISDIR) == (isdir == IN_ISDIR),
        ((b | (ignored | isdir | unmount)) & IN_UNMOUNT == IN_UNMOUNT) == (unmount == IN_UNMOUNT),
{
}

/// A mask that holds the bit of one kind, and auxiliary flags or none
/// besides, is sorted into that kind and those flags.
pub proof fn lemma_one_kind_with_auxiliary_flags(
    mask: EventMask,
    kind: EventKind,
    flags: EventAuxiliaryFlags,
)
    requires
        mask@ == kind.spec_bit() | flags.spec_bits(),
    ensures
        ParsedEventMask::spec_from_raw_event_mask(mask) == Ok::<_, EventMaskParseError>(
            ParsedEventMask { kind: Some(kind), auxiliary_flags: flags },
        ),
{
    let ignored = if flags.ignored { IN_IGNORED } else { 0 };
    let isdir = if flags.isdir { IN_ISDIR } else { 0 };
    let unmount = if flags.unmount { IN_UNMOUNT } else { 0 };
    assert forall|k: EventKind| #[trigger] mask.has_kind(k) == (k == kind) by {
        lemma_bits_of_one_kind(kind.spec_bit(), ignored, isdir, unmount, k.spec_bit());
    }
    lemma_bits_of_one_kind(kind.spec_bit(), ignored, isdir, unmount, kind.spec_bit());
    assert(mask.has_kind(kind));
    assert(!mask.has_several_kinds());
    assert(mask.kind() == Some(kind));
}

/// A mask that holds the bits of two kinds, and does not report an overflow
/// of the queue, is refused, and the error carries the mask.
pub proof fn lemma_two_kinds_are_refused(mask: EventMask, first: EventKind, second: EventKind)
    requires
        first != second,
        mask.has_kind(first),
        mask.has_kind(second),
        !mask.has(EventMask::Q_OVERFLOW),
    ensures
        ParsedEventMask::spec_from_raw_event_mask(mask) == Err::<ParsedEventMask, _>(
            EventMaskParseError::TooManyBitsSet(mask),
        ),
{
}

/// Why a mask could not be sorted into its parts.
#[derive(Clone, Copy, Debug, PartialEq, Eq, Structural)]
pub enum EventMaskParseError {
    /// The bits of two kinds or more were set. Holds the mask.
    TooManyBitsSet(EventMask),
    /// The mask reports that the kernel's event queue overflowed.
    QueueOverflow,
}

impl EventMaskParseError {
    /// Says in words what the error is.
    pub fn message(&self) -> (r: &'static str)
        ensures
            r@ == match self {
                EventMaskParseError::TooManyBitsSet(_) => {
                    "Error parsing event mask: too many event type bits set"@
                },
                EventMaskParseError::QueueOverflow => "Error: the kernel's event queue overflowed"@,
            },
    {
        match self {
            EventMaskParseError::TooManyBitsSet(_) => {
                "Error parsing event mask: too many event type bits set"
            },
            EventMaskParseError::QueueOverflow => "Error: the kernel's event queue overflowed",
        }
    }
}

} // verus!
