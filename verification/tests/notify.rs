use std::collections::HashMap;

use a10::notify::{
    parse_event, read_dir_error_ignored, trim_nulls, watch_mask, Event, EventPath, Events, EventsPoll, EventsState,
};
use a10::sys::{
    ENOTDIR, IN_CREATE, IN_DELETE, IN_DELETE_SELF, IN_DONT_FOLLOW, IN_EXCL_UNLINK, IN_IGNORED, IN_MASK_ADD,
    IN_MODIFY, IN_ONLYDIR, IN_Q_OVERFLOW,
};

/// An event as the kernel writes it, the name padded to `len` bytes.
fn record(wd: i32, mask: u32, cookie: u32, name: &[u8], len: usize) -> Vec<u8> {
    let mut buf = Vec::new();
    buf.extend_from_slice(&wd.to_le_bytes());
    buf.extend_from_slice(&mask.to_le_bytes());
    buf.extend_from_slice(&cookie.to_le_bytes());
    buf.extend_from_slice(&(len as u32).to_le_bytes());
    buf.extend_from_slice(name);
    buf.resize(16 + len, 0);
    buf
}

fn event(wd: i32, mask: u32, cookie: u32, name: &[u8]) -> Event {
    Event { wd, mask, cookie, name: name.to_vec() }
}

#[test]
fn trim_null_padding() {
    assert_eq!(trim_nulls(b"abc\0\0\0"), 3);
    assert_eq!(trim_nulls(b"abc"), 3);
    assert_eq!(trim_nulls(b"a\0b\0"), 3);
    // A name of only null bytes is empty.
    assert_eq!(trim_nulls(b"\0\0"), 0);
    assert_eq!(trim_nulls(b""), 0);
}

#[test]
fn parse_events() {
    let mut buf = record(1, IN_CREATE, 0, b"file.txt", 16);
    buf.extend(record(2, IN_DELETE_SELF, 7, b"", 0));
    let (first, next) = parse_event(&buf, 0).unwrap();
    assert_eq!(first, event(1, IN_CREATE, 0, b"file.txt"));
    assert_eq!(next, 32);
    let (second, next) = parse_event(&buf, next).unwrap();
    assert_eq!(second, event(2, IN_DELETE_SELF, 7, b""));
    assert_eq!(next, 48);
    assert!(parse_event(&buf, next).is_none());
}

#[test]
fn parse_event_cut_short() {
    let buf = record(1, IN_CREATE, 0, b"file.txt", 16);
    assert!(parse_event(&buf[..20], 0).is_none());
    assert!(parse_event(&buf[..10], 0).is_none());
    assert!(parse_event(&buf, 30).is_none());
    assert!(parse_event(&buf, usize::MAX).is_none());
}

#[test]
fn event_accessors() {
    let e = event(1, IN_MODIFY | IN_CREATE, 0, b"name");
    assert_eq!(e.mask(), IN_MODIFY | IN_CREATE);
    assert_eq!(e.file_path(), b"name");
    assert!(e.modified());
    assert!(e.file_created());
    assert!(!e.deleted());
    assert!(!e.file_deleted());
    let e = event(1, IN_DELETE | IN_DELETE_SELF, 0, b"");
    assert!(e.deleted());
    assert!(e.file_deleted());
    assert!(!e.modified());
}

#[test]
fn watch_masks() {
    let base = IN_DONT_FOLLOW | IN_EXCL_UNLINK | IN_MASK_ADD;
    assert_eq!(watch_mask(IN_MODIFY, false), IN_MODIFY | base);
    assert_eq!(watch_mask(IN_MODIFY, true), IN_MODIFY | IN_ONLYDIR | base);
}

fn watching() -> HashMap<i32, Vec<u8>> {
    let mut watching = HashMap::new();
    watching.insert(1, b"/tmp/dir".to_vec());
    watching.insert(2, b"/tmp/file".to_vec());
    watching
}

#[test]
fn events_flow() {
    let mut events = Events::new(watching());
    assert!(matches!(events.state, EventsState::Reading));
    assert!(matches!(events.next(), EventsPoll::NeedsRead));

    let mut buf = record(1, IN_CREATE, 0, b"new", 4);
    buf.extend(record(0, IN_Q_OVERFLOW, 0, b"", 0));
    buf.extend(record(2, IN_IGNORED, 0, b"", 0));
    buf.extend(record(2, IN_MODIFY, 0, b"", 0));
    assert_eq!(events.read_completed(Ok(buf)), None);

    match events.next() {
        EventsPoll::Event(e) => {
            assert_eq!(e, event(1, IN_CREATE, 0, b"new"));
            assert_eq!(
                events.path_for(&e),
                EventPath::Joined { dir: b"/tmp/dir".to_vec(), name: b"new".to_vec() }
            );
        },
        other => panic!("unexpected {other:?}"),
    }
    // The overflow is skipped, the ignored watch is removed.
    match events.next() {
        EventsPoll::Event(e) => {
            assert_eq!(e, event(2, IN_MODIFY, 0, b""));
            assert_eq!(events.path_for(&e), EventPath::Name(Vec::new()));
        },
        other => panic!("unexpected {other:?}"),
    }
    assert!(!events.watching.contains_key(&2));
    assert!(matches!(events.next(), EventsPoll::NeedsRead));
    assert!(matches!(events.state, EventsState::Reading));

    // An empty read means the watcher is closed.
    assert_eq!(events.read_completed(Ok(Vec::new())), None);
    assert!(matches!(events.next(), EventsPoll::Finished));
    assert!(matches!(events.next(), EventsPoll::Finished));
}

#[test]
fn events_path_of_watched_path() {
    let events = Events::new(watching());
    assert_eq!(
        events.path_for(&event(2, IN_MODIFY, 0, b"")),
        EventPath::Watched(b"/tmp/file".to_vec())
    );
}

#[test]
fn events_read_error() {
    let mut events = Events::new(watching());
    assert_eq!(events.read_completed(Err(9)), Some(9));
    assert!(matches!(events.state, EventsState::Done));
    assert!(matches!(events.next(), EventsPoll::Finished));
    assert_eq!(events.watching, watching());
}

#[test]
fn recursive_watch_errors() {
    assert!(read_dir_error_ignored(false, ENOTDIR));
    assert!(!read_dir_error_ignored(true, ENOTDIR));
    assert!(!read_dir_error_ignored(false, 13));
}
