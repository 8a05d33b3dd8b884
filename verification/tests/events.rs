use inotify::ffi::{inotify_event, EVENT_SIZE};
use inotify::{Event, EventMask, EventOwned, Events, HandleManager, HandleObserver};

/// The bytes of one record, as the kernel writes them.
fn record(wd: i32, mask: u32, cookie: u32, name_field: &[u8]) -> Vec<u8> {
    let mut bytes = Vec::new();
    bytes.extend_from_slice(&wd.to_ne_bytes());
    bytes.extend_from_slice(&mask.to_ne_bytes());
    bytes.extend_from_slice(&cookie.to_ne_bytes());
    bytes.extend_from_slice(&(name_field.len() as u32).to_ne_bytes());
    bytes.extend_from_slice(name_field);
    bytes
}

#[test]
fn from_buffer_should_not_mistake_next_event_for_name_of_previous_event() {
    let mut buffer = [0u8; 1024];

    // First, put a normal event into the buffer
    let event = record(0, 0, 0, &[]); // no name following after event
    buffer[..event.len()].copy_from_slice(&event);

    // After that event, simulate an event that starts with a non-zero byte.
    buffer[event.len()] = 1;

    // Now create the event and verify that the name is actually `None`, as
    // dictated by the value `len` above.
    let (_, event) = Event::from_buffer(HandleObserver::new(), &buffer);
    assert_eq!(event.name, None);
}

#[test]
fn record_without_name_field_has_no_name() {
    let buffer = record(3, EventMask::MODIFY, 0, &[]);
    let (consumed, event) = Event::from_buffer(HandleObserver::new(), &buffer);
    assert_eq!(consumed, 16);
    assert_eq!(event.name, None);
    assert_eq!(event.wd.id, 3);
    assert_eq!(event.wd.get_watch_descriptor_id(), 3);
    assert_eq!(event.mask.bits(), EventMask::MODIFY);
    assert_eq!(event.cookie, 0);
}

#[test]
fn name_ends_at_first_nul_but_the_whole_field_is_consumed() {
    let buffer = record(1, EventMask::CREATE, 0, b"ab\0cd");
    let (consumed, event) = Event::from_buffer(HandleObserver::new(), &buffer);
    assert_eq!(event.name, Some(&b"ab"[..]));
    assert_eq!(consumed, 16 + 5);
}

#[test]
fn name_without_nul_is_the_whole_field() {
    let buffer = record(1, EventMask::CREATE, 0, b"abcd");
    let (consumed, event) = Event::from_buffer(HandleObserver::new(), &buffer);
    assert_eq!(event.name, Some(&b"abcd"[..]));
    assert_eq!(consumed, 20);
}

#[test]
fn name_field_of_padding_alone_is_no_name() {
    let buffer = record(1, EventMask::DELETE_SELF, 0, &[0u8; 16]);
    let (consumed, event) = Event::from_buffer(HandleObserver::new(), &buffer);
    assert_eq!(event.name, None);
    assert_eq!(consumed, 32);
}

#[test]
fn header_fields_are_read_in_the_byte_order_of_the_machine() {
    let buffer = record(-1, 0x0102_0304, 0xA1B2_C3D4, b"file.txt\0\0\0\0\0\0\0\0");
    let header = inotify_event::from_bytes(&buffer);
    assert_eq!(
        header,
        inotify_event { wd: -1, mask: 0x0102_0304, cookie: 0xA1B2_C3D4, len: 16 }
    );
    let (consumed, event) = Event::from_buffer(HandleObserver::new(), &buffer);
    assert_eq!(consumed, EVENT_SIZE + 16);
    assert_eq!(event.wd.id, -1);
    assert_eq!(event.mask.bits(), 0x0102_0304);
    assert_eq!(event.cookie, 0xA1B2_C3D4);
    assert_eq!(event.name, Some(&b"file.txt"[..]));
}

#[test]
fn header_has_the_size_of_the_kernel_structure() {
    assert_eq!(EVENT_SIZE, std::mem::size_of::<inotify_sys::inotify_event>());
}

#[test]
fn event_keeps_the_observer_it_was_read_for() {
    let mut handles = HandleManager::new();
    let handle = handles.acquire(5);
    let buffer = record(9, EventMask::OPEN, 0, &[]);
    let (_, event) = Event::from_buffer(handle.observe(), &buffer);
    assert_eq!(event.wd.fd, handle.observe());
    assert!(handles.is_live(&event.wd.fd));
}

#[test]
fn new_event_takes_an_empty_name_for_none() {
    let header = inotify_event { wd: 4, mask: EventMask::ATTRIB, cookie: 7, len: 0 };
    let event = Event::new(HandleObserver::new(), &header, b"");
    assert_eq!(event.name, None);
    let event = Event::new(HandleObserver::new(), &header, b"x");
    assert_eq!(event.name, Some(&b"x"[..]));
    assert_eq!(event.wd.id, 4);
    assert_eq!(event.cookie, 7);
    assert_eq!(event.mask, EventMask::from_bits_retain(EventMask::ATTRIB));
}

#[test]
fn to_owned_copies_every_field() {
    let buffer = record(2, EventMask::MOVED_TO | EventMask::ISDIR, 77, b"dir\0");
    let (_, event) = Event::from_buffer(HandleObserver::new(), &buffer);
    let owned = event.to_owned();
    assert_eq!(owned.wd.id, 2);
    assert_eq!(owned.mask, event.mask);
    assert_eq!(owned.cookie, 77);
    assert_eq!(owned.name, Some(b"dir".to_vec()));
    let owned = event.into_owned();
    assert_eq!(owned.name, Some(b"dir".to_vec()));

    let buffer = record(2, EventMask::MODIFY, 0, &[]);
    let (_, event) = Event::from_buffer(HandleObserver::new(), &buffer);
    assert_eq!(event.to_owned().name, None);
}

#[test]
fn concatenated_records_are_decoded_in_order_and_consume_the_buffer() {
    let names: [&[u8]; 5] =
        [b"", b"a\0\0\0", b"bc\0cd", b"none", b"a-longer-name.txt\0\0\0\0\0\0\0"];
    for count in 0..=names.len() {
        let mut buffer = Vec::new();
        for (i, name) in names.iter().take(count).enumerate() {
            buffer.extend(record(i as i32 + 1, EventMask::MODIFY, i as u32, name));
        }
        let valid = buffer.len();
        // What lies behind the valid bytes is never read.
        buffer.extend_from_slice(&[0xFF; 7]);
        assert!(inotify::events::holds_records(&buffer, valid));

        let mut consumed = 0;
        let mut decoded = 0;
        while consumed < valid {
            let (step, event) = Event::from_buffer(HandleObserver::new(), &buffer[consumed..valid]);
            assert_eq!(event.wd.id, decoded as i32 + 1);
            assert_eq!(event.cookie, decoded as u32);
            consumed += step;
            decoded += 1;
        }
        assert_eq!(decoded, count);
        assert_eq!(consumed, valid);

        let mut events = Events::new(HandleObserver::new(), &buffer, valid);
        let mut seen = Vec::new();
        while let Some(event) = events.next() {
            seen.push((event.wd.id, event.name.map(|n| n.to_vec())));
        }
        assert!(events.next().is_none());
        let expected: Vec<(i32, Option<Vec<u8>>)> = vec![
            (1, None),
            (2, Some(b"a".to_vec())),
            (3, Some(b"bc".to_vec())),
            (4, Some(b"none".to_vec())),
            (5, Some(b"a-longer-name.txt".to_vec())),
        ];
        assert_eq!(seen, expected[..count].to_vec());
    }
}

#[test]
fn into_owned_takes_all_events_that_are_left() {
    let mut buffer = record(1, EventMask::CREATE, 0, b"one\0");
    buffer.extend(record(2, EventMask::DELETE, 0, b"two\0"));
    buffer.extend(record(3, EventMask::MODIFY, 0, b"three\0\0\0"));
    let mut events = Events::new(HandleObserver::new(), &buffer, buffer.len());
    assert_eq!(events.next().map(|e| e.wd.id), Some(1));
    let rest = events.into_owned();
    assert_eq!(rest.len(), 2);
    assert_eq!(rest[0].wd.id, 2);
    assert_eq!(rest[0].name, Some(b"two".to_vec()));
    assert_eq!(rest[1].wd.id, 3);
    assert_eq!(rest[1].name, Some(b"three".to_vec()));
}

#[test]
fn no_valid_bytes_hold_no_events() {
    let buffer = [1u8; 64];
    assert!(inotify::events::holds_records(&buffer, 0));
    let mut events = Events::new(HandleObserver::new(), &buffer, 0);
    assert!(events.next().is_none());
    assert!(events.into_owned().is_empty());
}

#[test]
fn holds_records_refuses_what_is_cut_short() {
    let mut buffer = record(1, EventMask::CREATE, 0, b"one\0");
    buffer.extend(record(2, EventMask::DELETE, 0, b"two\0"));
    let len = buffer.len();
    assert!(inotify::events::holds_records(&buffer, len));
    // the first record alone
    assert!(inotify::events::holds_records(&buffer, 20));
    // a header that is cut short
    assert!(!inotify::events::holds_records(&buffer, 15));
    assert!(!inotify::events::holds_records(&buffer, 20 + 15));
    // a name field that is cut short
    assert!(!inotify::events::holds_records(&buffer, 19));
    assert!(!inotify::events::holds_records(&buffer, len - 1));
    // more bytes than the buffer has
    assert!(!inotify::events::holds_records(&buffer, len + 1));
}

#[test]
fn getters_read_the_flags_of_the_mask() {
    let flags: [(u32, fn(&EventOwned) -> bool); 16] = [
        (EventMask::ACCESS, EventOwned::is_access),
        (EventMask::MODIFY, EventOwned::is_modify),
        (EventMask::ATTRIB, EventOwned::is_attrib),
        (EventMask::CLOSE_WRITE, EventOwned::is_close_write),
        (EventMask::CLOSE_NOWRITE, EventOwned::is_close_nowrite),
        (EventMask::OPEN, EventOwned::is_open),
        (EventMask::MOVED_FROM, EventOwned::is_moved_from),
        (EventMask::MOVED_TO, EventOwned::is_moved_to),
        (EventMask::CREATE, EventOwned::is_create),
        (EventMask::DELETE, EventOwned::is_delete),
        (EventMask::DELETE_SELF, EventOwned::is_delete_self),
        (EventMask::MOVE_SELF, EventOwned::is_move_self),
        (EventMask::ISDIR, EventOwned::is_dir),
        (EventMask::UNMOUNT, EventOwned::is_unmount),
        (EventMask::Q_OVERFLOW, EventOwned::is_queue_overflow),
        (EventMask::IGNORED, EventOwned::is_ignored),
    ];
    for (set, _) in flags {
        let buffer = record(1, set, 0, &[]);
        let (_, event) = Event::from_buffer(HandleObserver::new(), &buffer);
        let event = event.to_owned();
        for (flag, getter) in flags {
            assert_eq!(getter(&event), flag == set);
        }
        assert_eq!(
            event.is_move(),
            set == EventMask::MOVED_FROM || set == EventMask::MOVED_TO
        );
        assert_eq!(
            event.is_close(),
            set == EventMask::CLOSE_WRITE || set == EventMask::CLOSE_NOWRITE
        );
    }
}
