use inotify::{
    Error, Event, EventMask, HandleManager, Inotify, OsError, WatchDescriptor, WatchMask, Watches,
};
use std::cmp::Ordering;

const NO_ERROR: OsError = OsError { code: 0, would_block: false };

/// The bytes of one record, as the kernel writes them.
fn record(wd: i32, mask: u32, cookie: u32, name_field: &[u8]) -> Vec<u8> {
    let mut bytes = Vec::new();
    bytes.extend_from_slice(&wd.to_ne_bytes());
    bytes.extend_from_slice(&mask.to_ne_bytes());
    bytes.extend_from_slice(&cookie.to_ne_bytes());
    bytes.extend_from_slice(&(name_field.len() as u32).to_ne_bytes());
    bytes.extend_from_slice(name_field);
    bytes
}

#[test]
fn it_should_not_accept_watchdescriptors_from_other_instances() {
    let mut handles = HandleManager::new();

    let inotify = Inotify::init(3, NO_ERROR, &mut handles).unwrap();
    let watches = inotify.watches(&mut handles).unwrap();
    let _ = watches.add(1, NO_ERROR).unwrap();

    let second_inotify = Inotify::init(4, NO_ERROR, &mut handles).unwrap();
    let wd2 = second_inotify.watches(&mut handles).unwrap().add(1, NO_ERROR).unwrap();

    assert_eq!(watches.remove(&wd2, &handles).unwrap_err(), Error::InvalidInput);
}

#[test]
fn main_it_should_not_accept_watchdescriptors_from_other_instances() {
    let mut handles = HandleManager::new();

    let inotify = Inotify::init(3, NO_ERROR, &mut handles).unwrap();
    let wd1 = inotify.add_watch(1, NO_ERROR).unwrap();

    let second_inotify = Inotify::init(4, NO_ERROR, &mut handles).unwrap();
    let wd2 = second_inotify.add_watch(1, NO_ERROR).unwrap();

    assert!(!wd1.eq(&wd2, &handles));
    assert_eq!(inotify.rm_watch(&wd2, &handles).unwrap_err(), Error::InvalidInput);
    assert_eq!(inotify.rm_watch(&wd1, &handles), Ok(1));
}

#[test]
fn watch_descriptors_from_different_inotify_instances_should_not_be_equal() {
    let mut handles = HandleManager::new();

    let inotify_1 = Inotify::init(3, NO_ERROR, &mut handles).unwrap();
    let inotify_2 = Inotify::init(4, NO_ERROR, &mut handles).unwrap();

    let wd_1 = inotify_1.watches(&mut handles).unwrap().add(1, NO_ERROR).unwrap();
    let wd_2 = inotify_2.watches(&mut handles).unwrap().add(1, NO_ERROR).unwrap();

    // As far as inotify is concerned, watch descriptors are just integers that
    // are scoped per inotify instance. This means that multiple instances will
    // produce the same watch descriptor number, a case we want to detect.
    assert!(!wd_1.eq(&wd_2, &handles));
}

#[test]
fn watch_descriptor_equality_should_not_be_confused_by_reused_fds() {
    let mut handles = HandleManager::new();

    // When a new inotify instance is created directly after closing another
    // one, the file descriptor may be reused immediately, and we end up with
    // a new instance that has the same file descriptor as the old one.
    let inotify_1 = Inotify::init(3, NO_ERROR, &mut handles).unwrap();
    let wd_1 = inotify_1.add_watch(1, NO_ERROR).unwrap();
    let fd_1 = inotify_1.fd(&handles);
    assert_eq!(inotify_1.close(&mut handles), Some(3));
    assert_eq!(Inotify::closed(0, NO_ERROR), Ok(()));

    let inotify_2 = Inotify::init(3, NO_ERROR, &mut handles).unwrap();
    assert_eq!(fd_1, inotify_2.fd(&handles));

    let wd_2 = inotify_2.add_watch(1, NO_ERROR).unwrap();

    // Both descriptors have the same number and the same file descriptor.
    // They still come from different inotify instances though, so they
    // shouldn't be equal.
    assert!(!wd_1.eq(&wd_2, &handles));
    assert!(!wd_2.eq(&wd_1, &handles));

    assert_eq!(inotify_2.close(&mut handles), Some(3));

    // A little extra gotcha: if both inotify instances are closed, both
    // observers are dead. That must not make them equal.
    assert!(!wd_1.eq(&wd_2, &handles));
    assert!(!wd_2.eq(&wd_1, &handles));
    // A descriptor whose session is gone is not even equal to itself.
    assert!(!wd_1.eq(&wd_1, &handles));
}

#[test]
fn it_should_watch_correctly_with_a_watches_clone() {
    let mut handles = HandleManager::new();
    let inotify = Inotify::init(3, NO_ERROR, &mut handles).unwrap();
    let watches1 = inotify.watches(&mut handles).unwrap();
    let watches2 = watches1.try_clone(&mut handles).unwrap();
    let watch1 = watches1.add(1, NO_ERROR).unwrap();
    let watch2 = watches2.add(1, NO_ERROR).unwrap();

    // same path and same Inotify should return same descriptor
    assert!(watch1.eq(&watch2, &handles));

    let buffer = record(1, EventMask::MODIFY, 0, &[]);
    let events = inotify.read_events(&buffer, buffer.len() as isize, NO_ERROR).unwrap();

    let mut num_events = 0;
    for event in events.into_owned() {
        assert!(watch2.eq(&event.wd, &handles));
        num_events += 1;
    }
    assert!(num_events > 0);
}

#[test]
fn registry_clone_holds_a_share_of_its_own() {
    let mut handles = HandleManager::new();
    let inotify = Inotify::init(3, NO_ERROR, &mut handles).unwrap();
    let watches = inotify.watches(&mut handles).unwrap();
    let clone = watches.try_clone(&mut handles).unwrap();
    let wd = clone.add(8, NO_ERROR).unwrap();

    assert_eq!(inotify.release(&mut handles), None);
    assert_eq!(handles.release(watches.into_handle()), None);
    // the clone alone keeps the session live
    assert!(handles.is_live(&wd.fd));
    assert_eq!(clone.remove(&wd, &handles), Ok(8));
    assert_eq!(handles.release(clone.into_handle()), Some(3));
    assert!(!handles.is_live(&wd.fd));

    // a registry whose session is gone cannot be cloned
    let mut others = HandleManager::new();
    let stray = Watches::new(others.acquire(1));
    assert!(stray.try_clone(&mut handles).is_none());
}

#[test]
fn descriptors_of_one_live_session_are_equal_by_number() {
    let mut handles = HandleManager::new();
    let inotify = Inotify::init(3, NO_ERROR, &mut handles).unwrap();
    let watches = inotify.watches(&mut handles).unwrap();
    let a = watches.add(1, NO_ERROR).unwrap();
    let b = watches.add(2, NO_ERROR).unwrap();
    assert!(a.eq(&a, &handles));
    assert!(!a.eq(&b, &handles));
    assert_eq!(a.get_watch_descriptor_id(), 1);
    assert_eq!(b.get_watch_descriptor_id(), 2);

    // an event of the session names the watch
    let buffer = record(2, EventMask::ACCESS, 0, &[]);
    let (_, event) = Event::from_buffer(watches.into_handle().observe(), &buffer);
    assert!(b.eq(&event.wd, &handles));
    assert!(!a.eq(&event.wd, &handles));
}

#[test]
fn descriptors_are_ordered_by_number_alone() {
    let mut handles = HandleManager::new();
    let one = Inotify::init(3, NO_ERROR, &mut handles).unwrap();
    let two = Inotify::init(4, NO_ERROR, &mut handles).unwrap();
    let a = one.add_watch(1, NO_ERROR).unwrap();
    let b = two.add_watch(1, NO_ERROR).unwrap();
    let c = two.add_watch(5, NO_ERROR).unwrap();
    assert_eq!(a.cmp(&b), Ordering::Equal);
    assert_eq!(a.cmp(&c), Ordering::Less);
    assert_eq!(c.cmp(&a), Ordering::Greater);
    assert_eq!(a.partial_cmp(&c), Some(Ordering::Less));
    assert_eq!(c.partial_cmp(&b), Some(Ordering::Greater));
    assert_eq!(b.partial_cmp(&a), Some(Ordering::Equal));
}

#[test]
fn failed_add_passes_the_error_on() {
    let mut handles = HandleManager::new();
    let inotify = Inotify::init(3, NO_ERROR, &mut handles).unwrap();
    let watches = inotify.watches(&mut handles).unwrap();
    let error = OsError { code: 2, would_block: false };
    assert_eq!(watches.add(-1, error).unwrap_err(), Error::Os(error));
    assert_eq!(inotify.add_watch(-1, error).unwrap_err(), Error::Os(error));
    let wd = watches.add(0, NO_ERROR).unwrap();
    assert_eq!(wd.id, 0);
    assert_eq!(wd.fd, watches.into_handle().observe());
}

#[test]
fn remove_hands_out_the_number_of_a_watch_of_this_session() {
    let mut handles = HandleManager::new();
    let inotify = Inotify::init(3, NO_ERROR, &mut handles).unwrap();
    let watches = inotify.watches(&mut handles).unwrap();
    let wd = watches.add(12, NO_ERROR).unwrap();
    assert_eq!(watches.fd(&handles), Some(3));
    assert_eq!(watches.remove(&wd, &handles), Ok(12));
    assert_eq!(Watches::removed(0, NO_ERROR), Ok(()));
    let error = OsError { code: 22, would_block: false };
    assert_eq!(Watches::removed(-1, error), Err(Error::Os(error)));

    // a descriptor that no session issued
    let forged = WatchDescriptor { id: 12, fd: inotify::HandleObserver::new() };
    assert_eq!(watches.remove(&forged, &handles), Err(Error::InvalidInput));

    // once the session is gone, nothing is removed from it
    let _ = inotify.release(&mut handles);
    let handle = watches.into_handle();
    let observer = handle.observe();
    let _ = handles.release(handle);
    assert!(!handles.is_live(&observer));
    let other = Inotify::init(3, NO_ERROR, &mut handles).unwrap();
    assert_eq!(other.rm_watch(&wd, &handles), Err(Error::InvalidInput));
}

#[test]
fn watch_masks_hold_the_bits_of_the_kernel() {
    assert_eq!(WatchMask::ACCESS, inotify_sys::IN_ACCESS);
    assert_eq!(WatchMask::ATTRIB, inotify_sys::IN_ATTRIB);
    assert_eq!(WatchMask::CLOSE_WRITE, inotify_sys::IN_CLOSE_WRITE);
    assert_eq!(WatchMask::CLOSE_NOWRITE, inotify_sys::IN_CLOSE_NOWRITE);
    assert_eq!(WatchMask::CREATE, inotify_sys::IN_CREATE);
    assert_eq!(WatchMask::DELETE, inotify_sys::IN_DELETE);
    assert_eq!(WatchMask::DELETE_SELF, inotify_sys::IN_DELETE_SELF);
    assert_eq!(WatchMask::MODIFY, inotify_sys::IN_MODIFY);
    assert_eq!(WatchMask::MOVE_SELF, inotify_sys::IN_MOVE_SELF);
    assert_eq!(WatchMask::MOVED_FROM, inotify_sys::IN_MOVED_FROM);
    assert_eq!(WatchMask::MOVED_TO, inotify_sys::IN_MOVED_TO);
    assert_eq!(WatchMask::OPEN, inotify_sys::IN_OPEN);
    assert_eq!(WatchMask::ALL_EVENTS, inotify_sys::IN_ALL_EVENTS);
    assert_eq!(WatchMask::MOVE, inotify_sys::IN_MOVE);
    assert_eq!(WatchMask::CLOSE, inotify_sys::IN_CLOSE);
    assert_eq!(WatchMask::DONT_FOLLOW, inotify_sys::IN_DONT_FOLLOW);
    assert_eq!(WatchMask::EXCL_UNLINK, inotify_sys::IN_EXCL_UNLINK);
    assert_eq!(WatchMask::MASK_ADD, inotify_sys::IN_MASK_ADD);
    assert_eq!(WatchMask::ONESHOT, inotify_sys::IN_ONESHOT);
    assert_eq!(WatchMask::ONLYDIR, inotify_sys::IN_ONLYDIR);
}

#[test]
fn watch_mask_keeps_or_refuses_bits() {
    let mask = WatchMask::from_bits_retain(WatchMask::MODIFY | WatchMask::CLOSE);
    assert_eq!(mask.bits(), 0x0000_001A);
    assert!(mask.contains(WatchMask::CLOSE_WRITE));
    assert!(mask.contains(WatchMask::CLOSE));
    assert!(!mask.contains(WatchMask::ALL_EVENTS));
    assert_eq!(WatchMask::from_bits(WatchMask::ALL).map(|m| m.bits()), Some(WatchMask::ALL));
    assert_eq!(WatchMask::from_bits(inotify_sys::IN_ISDIR), None);
    assert_eq!(WatchMask::from_bits(0x1000_0000), None);
    assert_eq!(WatchMask::from_bits_unchecked(0x1000_0000).bits(), 0x1000_0000);
}
