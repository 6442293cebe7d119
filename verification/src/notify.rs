//! Filesystem notifications based on `inotify(7)`.
//!
//! The kernel fills a buffer with events: each is a header of four 32-bit
//! fields (watch descriptor, mask, cookie and length of the name) followed by
//! the name of the file, padded with null bytes. [`Events`] walks such a
//! buffer, keeping the table of watched paths up to date.

use std::collections::HashMap;

use vstd::prelude::*;

use crate::sys::{
    ENOTDIR, IN_CREATE, IN_DELETE, IN_DELETE_SELF, IN_DONT_FOLLOW, IN_EXCL_UNLINK, IN_IGNORED, IN_MASK_ADD,
    IN_MODIFY, IN_ONLYDIR, IN_Q_OVERFLOW,
};

verus! {

broadcast use vstd::std_specs::hash::group_hash_axioms;

/// Size of the header of an event.
pub const EVENT_HEADER_SIZE: usize = 16;

/// Size of the buffer events are read into: room for an event with the
/// longest name (`NAME_MAX`) and its null byte.
pub const READ_BUF_SIZE: usize = EVENT_HEADER_SIZE + 255 + 1;

/// The little endian 32-bit value at `at` in `buf`.
pub open spec fn le_u32(buf: Seq<u8>, at: int) -> int {
    buf[at] + buf[at + 1] * 0x100 + buf[at + 2] * 0x1_0000 + buf[at + 3] * 0x100_0000
}

/// True if the event starting at `at` lies within `buf`.
pub open spec fn record_fits(buf: Seq<u8>, at: int) -> bool {
    &&& 0 <= at
    &&& at + 16 <= buf.len()
    &&& at + 16 + le_u32(buf, at + 12) <= buf.len()
}

/// Start of the event after the one starting at `at`.
pub open spec fn next_record(buf: Seq<u8>, at: int) -> int {
    at + 16 + le_u32(buf, at + 12)
}

/// Length of `name` without the null bytes padding it at the end; a name of
/// only null bytes is empty.
pub open spec fn trimmed_len(name: Seq<u8>) -> int {
    if exists|i: int| 0 <= i < name.len() && name[i] != 0 {
        let last = choose|i: int|
            0 <= i < name.len() && name[i] != 0 && forall|j: int| i < j < name.len() ==> name[j] == 0;
        last + 1
    } else {
        0
    }
}

/// A filesystem event.
#[derive(Debug, PartialEq, Eq)]
pub struct Event {
    /// Watch descriptor the event is for.
    pub wd: i32,
    /// `IN_*` mask of the event.
    pub mask: u32,
    /// Cookie connecting the two events of a rename.
    pub cookie: u32,
    /// Name of the file in the watched directory, empty for events on the
    /// watched path itself.
    pub name: Vec<u8>,
}

/// The event at `at` in `buf`, as its fields.
pub open spec fn event_fields(buf: Seq<u8>, at: int) -> (i32, u32, u32, Seq<u8>) {
    let name = buf.subrange(at + 16, next_record(buf, at));
    (
        le_u32(buf, at) as u32 as i32,
        le_u32(buf, at + 4) as u32,
        le_u32(buf, at + 8) as u32,
        name.subrange(0, trimmed_len(name)),
    )
}

/// Reads the little endian 32-bit value at `at`.
fn read_u32(buf: &[u8], at: usize) -> (v: u32)
    requires
        at + 4 <= buf@.len(),
    ensures
        v == le_u32(buf@, at as int),
{
    (buf[at] as u32) + (buf[at + 1] as u32) * 0x100 + (buf[at + 2] as u32) * 0x1_0000
        + (buf[at + 3] as u32) * 0x100_0000
}

/// Returns the length of `name` without the null bytes padding it.
pub fn trim_nulls(name: &[u8]) -> (n: usize)
    ensures
        n == trimmed_len(name@),
        n <= name@.len(),
{
    let mut i = name.len();
    while i > 0
        invariant
            i <= name@.len(),
            forall|j: int| i <= j < name@.len() ==> name@[j] == 0,
        decreases i,
    {
        if name[i - 1] != 0 {
            proof {
                let last = (i - 1) as int;
                assert(0 <= last < name@.len() && name@[last] != 0);
                let c = choose|k: int|
                    0 <= k < name@.len() && name@[k] != 0 && forall|j: int|
                        k < j < name@.len() ==> name@[j] == 0;
                assert(c == last) by {
                    if c < last {
                        assert(name@[last] == 0);
                    } else if c > last {
                        assert(name@[c] == 0);
                    }
                }
            }
            return i;
        }
        i -= 1;
    }
    0
}

/// Copies `buf[start..end]`.
fn copy_range(buf: &[u8], start: usize, end: usize) -> (r: Vec<u8>)
    requires
        start <= end <= buf@.len(),
    ensures
        r@ == buf@.subrange(start as int, end as int),
{
    let mut out: Vec<u8> = Vec::new();
    let mut i = start;
    while i < end
        invariant
            start <= i <= end <= buf@.len(),
            out@ == buf@.subrange(start as int, i as int),
        decreases end - i,
    {
        out.push(buf[i]);
        i += 1;
        assert(out@ =~= buf@.subrange(start as int, i as int));
    }
    out
}

/// Parses the event starting at `at` in `buf`, returning it and the start of
/// the next event, or `None` if the event doesn't lie within `buf`.
pub fn parse_event(buf: &[u8], at: usize) -> (r: Option<(Event, usize)>)
    ensures
        match r {
            Some((event, next)) => {
                &&& record_fits(buf@, at as int)
                &&& next == next_record(buf@, at as int)
                &&& (event.wd, event.mask, event.cookie, event.name@) == event_fields(
                    buf@,
                    at as int,
                )
            },
            None => !record_fits(buf@, at as int),
        },
{
    if buf.len() < EVENT_HEADER_SIZE || at > buf.len() - EVENT_HEADER_SIZE {
        return None;
    }
    let len = read_u32(buf, at + 12) as usize;
    if len > buf.len() - at - EVENT_HEADER_SIZE {
        return None;
    }
    let wd = read_u32(buf, at);
    let mask = read_u32(buf, at + 4);
    let cookie = read_u32(buf, at + 8);
    let start = at + EVENT_HEADER_SIZE;
    let next = start + len;
    let ghost name_seq = buf@.subrange(start as int, next as int);
    let mut full = copy_range(buf, start, next);
    let name_len = trim_nulls(full.as_slice());
    full.truncate(name_len);
    assert(full@ =~= name_seq.subrange(0, trimmed_len(name_seq)));
    Some((Event { wd: wd as i32, mask, cookie, name: full }, next))
}

impl Event {
    /// The mask of the event.
    pub fn mask(&self) -> (m: u32)
        ensures
            m == self.mask,
    {
        self.mask
    }

    /// The name of the file the event is for, relative to the watched path.
    pub fn file_path(&self) -> (p: &[u8])
        ensures
            p@ == self.name@,
    {
        self.name.as_slice()
    }

    /// The file was modified.
    pub fn modified(&self) -> (r: bool)
        ensures
            r == (self.mask & IN_MODIFY != 0),
    {
        self.mask & IN_MODIFY != 0
    }

    /// The watched path was deleted.
    pub fn deleted(&self) -> (r: bool)
        ensures
            r == (self.mask & IN_DELETE_SELF != 0),
    {
        self.mask & IN_DELETE_SELF != 0
    }

    /// A file was created in the watched directory.
    pub fn file_created(&self) -> (r: bool)
        ensures
            r == (self.mask & IN_CREATE != 0),
    {
        self.mask & IN_CREATE != 0
    }

    /// A file was deleted from the watched directory.
    pub fn file_deleted(&self) -> (r: bool)
        ensures
            r == (self.mask & IN_DELETE != 0),
    {
        self.mask & IN_DELETE != 0
    }
}

/// The mask to watch a path with for `interest`: symbolic links aren't
/// followed, files moved out of a watched directory don't generate events
/// and the interest is combined with that of an existing watch. With
/// `dir_only` only directories are watched.
pub fn watch_mask(interest: u32, dir_only: bool) -> (mask: u32)
    ensures
        mask == ((if dir_only { interest | IN_ONLYDIR } else { interest }) | IN_DONT_FOLLOW
            | IN_EXCL_UNLINK | IN_MASK_ADD),
{
    let interest = if dir_only { interest | IN_ONLYDIR } else { interest };
    interest | IN_DONT_FOLLOW | IN_EXCL_UNLINK | IN_MASK_ADD
}

/// Whether a failure with `errno` to read a directory while watching
/// recursively is ignored: the path given to watch may be a file, unless only
/// directories are watched.
pub fn read_dir_error_ignored(dir_only: bool, errno: i32) -> (r: bool)
    ensures
        r == (!dir_only && errno == ENOTDIR),
{
    !dir_only && errno == ENOTDIR
}

/// State of [`Events`].
#[derive(Debug)]
pub enum EventsState {
    /// Waiting for a read of the next events.
    Reading,
    /// Processing read events.
    Processing { buf: Vec<u8>, processed: usize },
    /// No more events.
    Done,
}

/// What [`Events::next`] found.
#[derive(Debug)]
pub enum EventsPoll {
    /// The next event.
    Event(Event),
    /// All events in the buffer are processed, read more.
    NeedsRead,
    /// No more events.
    Finished,
}

/// Where the path of an event lies.
#[derive(Debug, PartialEq, Eq)]
pub enum EventPath {
    /// The event is for the watched path itself.
    Watched(Vec<u8>),
    /// The event is for the file `name` in the watched directory `dir`.
    Joined { dir: Vec<u8>, name: Vec<u8> },
    /// The watched path is unknown, only the name is.
    Name(Vec<u8>),
}

/// The watched paths after skipping, from `at` on, the events that aren't
/// given out, and the start of the first event that is, if any.
pub open spec fn scan(buf: Seq<u8>, at: int, watching: Map<i32, Vec<u8>>) -> (
    Option<int>,
    Map<i32, Vec<u8>>,
)
    decreases buf.len() - at,
{
    if at < 0 || at >= buf.len() || !record_fits(buf, at) {
        (None, watching)
    } else {
        let (wd, mask, _, _) = event_fields(buf, at);
        if mask & IN_IGNORED != 0 {
            // The file is no longer watched.
            scan(buf, next_record(buf, at), watching.remove(wd))
        } else if mask & IN_Q_OVERFLOW != 0 {
            scan(buf, next_record(buf, at), watching)
        } else {
            (Some(at), watching)
        }
    }
}

/// Events read from a watcher.
#[derive(Debug)]
pub struct Events {
    /// The watched paths by their watch descriptor.
    pub watching: HashMap<i32, Vec<u8>>,
    /// Where reading and processing is.
    pub state: EventsState,
}

impl Events {
    /// Start reading events for the paths in `watching`.
    pub fn new(watching: HashMap<i32, Vec<u8>>) -> (e: Events)
        ensures
            e.watching@ == watching@,
            e.state is Reading,
    {
        Events { watching, state: EventsState::Reading }
    }

    /// A read of events completed with `result`: an error, no events (the
    /// watcher is closed), or a buffer of events to process.
    pub fn read_completed(&mut self, result: Result<Vec<u8>, i32>) -> (err: Option<i32>)
        ensures
            final(self).watching@ == old(self).watching@,
            match result {
                Err(e) => err == Some(e) && final(self).state is Done,
                Ok(buf) => err is None && if buf@.len() == 0 {
                    final(self).state is Done
                } else {
                    final(self).state == (EventsState::Processing { buf, processed: 0 })
                },
            },
    {
        match result {
            Ok(buf) => {
                if buf.len() == 0 {
                    self.state = EventsState::Done;
                } else {
                    self.state = EventsState::Processing { buf, processed: 0 };
                }
                None
            },
            Err(e) => {
                // Ensure that we don't poll the read again.
                self.state = EventsState::Done;
                Some(e)
            },
        }
    }

    /// The next event.
    ///
    /// Events about watches that ended remove the watch from the watched
    /// paths, events about the event queue overflowing are skipped. Once all
    /// events in the buffer are processed more must be read.
    pub fn next(&mut self) -> (r: EventsPoll)
        ensures
            match old(self).state {
                EventsState::Reading => r is NeedsRead && final(self).state is Reading
                    && final(self).watching@ == old(self).watching@,
                EventsState::Done => r is Finished && final(self).state is Done
                    && final(self).watching@ == old(self).watching@,
                EventsState::Processing { buf, processed } => {
                    let (found, watching) = scan(buf@, processed as int, old(self).watching@);
                    &&& final(self).watching@ == watching
                    &&& match found {
                        Some(at) => match r {
                            EventsPoll::Event(event) => {
                                &&& (event.wd, event.mask, event.cookie, event.name@) == event_fields(buf@, at)
                                &&& final(self).state == (EventsState::Processing {
                                    buf,
                                    processed: next_record(buf@, at) as usize,
                                })
                            },
                            _ => false,
                        },
                        None => r is NeedsRead && final(self).state is Reading,
                    }
                },
            },
    {
        let mut state = EventsState::Done;
        std::mem::swap(&mut state, &mut self.state);
        match state {
            EventsState::Reading => {
                self.state = EventsState::Reading;
                EventsPoll::NeedsRead
            },
            EventsState::Done => EventsPoll::Finished,
            EventsState::Processing { buf, processed } => {
                let mut at = processed;
                loop
                    invariant
                        old(self).state == (EventsState::Processing { buf, processed }),
                        scan(buf@, at as int, self.watching@) == scan(
                            buf@,
                            processed as int,
                            old(self).watching@,
                        ),
                    decreases buf@.len() - at,
                {
                    if at >= buf.len() {
                        // Processed all events in the buffer, switch to
                        // reading again.
                        self.state = EventsState::Reading;
                        return EventsPoll::NeedsRead;
                    }
                    match parse_event(buf.as_slice(), at) {
                        None => {
                            self.state = EventsState::Reading;
                            return EventsPoll::NeedsRead;
                        },
                        Some((event, next)) => {
                            proof {
                                assert(record_fits(buf@, at as int));
                            }
                            if event.mask & IN_IGNORED != 0 {
                                // `IN_IGNORED` means the file is no longer
                                // watched.
                                let _ = self.watching.remove(&event.wd);
                                at = next;
                            } else if event.mask & IN_Q_OVERFLOW != 0 {
                                at = next;
                            } else {
                                self.state = EventsState::Processing { buf, processed: next };
                                return EventsPoll::Event(event);
                            }
                        },
                    }
                }
            },
        }
    }

    /// Where the path of `event` lies: the watched path, the watched directory
    /// joined with the name of the file, or only the name if the watched path
    /// is unknown.
    pub fn path_for(&self, event: &Event) -> (p: EventPath)
        ensures
            match p {
                EventPath::Watched(dir) => self.watching@.contains_key(event.wd)
                    && event.name@.len() == 0 && dir@ == self.watching@[event.wd]@,
                EventPath::Joined { dir, name } => self.watching@.contains_key(event.wd)
                    && event.name@.len() != 0 && dir@ == self.watching@[event.wd]@
                    && name@ == event.name@,
                EventPath::Name(name) => !self.watching@.contains_key(event.wd) && name@
                    == event.name@,
            },
    {
        match self.watching.get(&event.wd) {
            Some(path) => {
                if event.name.len() == 0 {
                    EventPath::Watched(path.clone())
                } else {
                    EventPath::Joined { dir: path.clone(), name: event.name.clone() }
                }
            },
            None => EventPath::Name(event.name.clone()),
        }
    }
}

} // verus!
