//! File notifications with kqueue: files and directories are watched with
//! `EVFILT_VNODE` registrations, and the events are rewritten to tell what
//! happened inside a watched directory, as inotify does.

use vstd::prelude::*;

use crate::kqueue::{Filter, KEvent, EV_ADD, EV_CLEAR};

verus! {

/// The file was deleted.
pub const NOTE_DELETE: u32 = 0x1;
/// The file was written to.
pub const NOTE_WRITE: u32 = 0x2;
/// The file was extended.
pub const NOTE_EXTEND: u32 = 0x4;
/// The attributes of the file changed.
pub const NOTE_ATTRIB: u32 = 0x8;
/// The file was renamed.
pub const NOTE_RENAME: u32 = 0x20;
/// The file was opened (FreeBSD and NetBSD).
pub const NOTE_OPEN: u32 = 0x80;
/// The file was closed, it wasn't open for writing (FreeBSD and NetBSD).
pub const NOTE_CLOSE: u32 = 0x100;
/// The file was closed, it was open for writing (FreeBSD and NetBSD).
pub const NOTE_CLOSE_WRITE: u32 = 0x200;
/// The file was read (FreeBSD and NetBSD).
pub const NOTE_READ: u32 = 0x400;
/// The file was truncated (OpenBSD).
pub const NOTE_TRUNCATE: u32 = 0x80;

/// Interest in a file being read.
pub const INTEREST_ACCESS: u32 = 0x1;
/// Interest in a file being modified.
pub const INTEREST_MODIFY: u32 = 0x2;
/// Interest in the metadata of a file changing.
pub const INTEREST_METADATA: u32 = 0x4;
/// Interest in a file being closed after writing.
pub const INTEREST_CLOSE_WRITE: u32 = 0x8;
/// Interest in a file being closed without writing.
pub const INTEREST_CLOSE_NOWRITE: u32 = 0x10;
/// Interest in a file being closed.
pub const INTEREST_CLOSE: u32 = INTEREST_CLOSE_WRITE | INTEREST_CLOSE_NOWRITE;
/// Interest in a file being opened.
pub const INTEREST_OPEN: u32 = 0x20;
/// Interest in a file being moved into a watched directory.
pub const INTEREST_MOVE_INTO: u32 = 0x40;
/// Interest in a file being moved out of a watched directory.
pub const INTEREST_MOVE_FROM: u32 = 0x80;
/// Interest in a file being moved.
pub const INTEREST_MOVE: u32 = INTEREST_MOVE_INTO | INTEREST_MOVE_FROM;
/// Interest in a file being created in a watched directory.
pub const INTEREST_CREATE: u32 = 0x100;
/// Interest in a file being deleted from a watched directory.
pub const INTEREST_DELETE: u32 = 0x200;
/// Interest in the watched path being deleted.
pub const INTEREST_DELETE_SELF: u32 = 0x400;
/// Interest in the watched path being moved.
pub const INTEREST_MOVE_SELF: u32 = 0x800;
/// Interest in everything.
pub const INTEREST_ALL: u32 = INTEREST_ACCESS | INTEREST_MODIFY | INTEREST_METADATA | INTEREST_CLOSE
    | INTEREST_OPEN | INTEREST_MOVE | INTEREST_CREATE | INTEREST_DELETE | INTEREST_DELETE_SELF
    | INTEREST_MOVE_SELF;

/// In the user data of an event: the watched path is a directory.
pub const EVENT_EXTRA_IS_DIR: u32 = 0x1;
/// In the user data of an event: the file was moved out of its directory.
pub const EVENT_EXTRA_FILE_MOVED_FROM: u32 = 0x2;
/// In the user data of an event: a file was created in the directory.
pub const EVENT_EXTRA_FILE_CREATED: u32 = 0x8;

/// The system, as far as the flags of file notifications differ.
#[derive(Copy, Clone, Debug, PartialEq, Eq, Structural)]
pub enum Platform {
    /// FreeBSD and NetBSD: opening, closing and reading are reported.
    FreeBsdOrNetBsd,
    /// OpenBSD: truncating is reported.
    OpenBsd,
    /// macOS and the others.
    Other,
}

/// `flag` if `cond`, else no flag.
pub open spec fn flag_if(cond: bool, flag: u32) -> u32 {
    if cond {
        flag
    } else {
        0
    }
}

/// The `NOTE_*` flags to watch a path with for `interest`; `is_dir` if the
/// path is a directory, `has_parent` if it's watched as part of a watched
/// directory.
pub open spec fn spec_vnode_fflags(interest: u32, is_dir: bool, has_parent: bool, platform: Platform) -> u32 {
    let fbsd = platform == Platform::FreeBsdOrNetBsd;
    flag_if(fbsd && interest & INTEREST_ACCESS != 0, NOTE_READ) | flag_if(
        interest & INTEREST_MODIFY != 0,
        NOTE_WRITE | NOTE_EXTEND | flag_if(platform == Platform::OpenBsd, NOTE_TRUNCATE),
    ) | flag_if(interest & INTEREST_METADATA != 0, NOTE_ATTRIB) | flag_if(
        fbsd && interest & INTEREST_CLOSE_WRITE != 0,
        NOTE_CLOSE_WRITE,
    ) | flag_if(fbsd && interest & INTEREST_CLOSE_NOWRITE != 0, NOTE_CLOSE) | flag_if(
        fbsd && interest & INTEREST_OPEN != 0,
        NOTE_OPEN,
    )
    // kqueue can't tell a file moved into a directory from one created in
    // it: both are a write on the directory.
     | flag_if(interest & INTEREST_MOVE_INTO != 0, NOTE_WRITE)
    // A move out of a directory is a write on the directory and a rename of
    // the file.
     | flag_if(interest & INTEREST_MOVE_FROM != 0 && is_dir, NOTE_WRITE) | flag_if(
        interest & INTEREST_MOVE_FROM != 0 && has_parent,
        NOTE_RENAME,
    ) | flag_if(interest & INTEREST_CREATE != 0 && is_dir, NOTE_WRITE) | flag_if(
        interest & INTEREST_DELETE != 0 && has_parent,
        NOTE_DELETE,
    )
    // The *_SELF interests only apply to the watched path itself.
     | flag_if(!has_parent && interest & INTEREST_DELETE_SELF != 0, NOTE_DELETE) | flag_if(
        !has_parent && interest & INTEREST_MOVE_SELF != 0,
        NOTE_RENAME,
    )
}

/// A flag set in one of thirteen values is set in their union.
proof fn lemma_union_has(
    t1: u32, t2: u32, t3: u32, t4: u32, t5: u32, t6: u32, t7: u32, t8: u32, t9: u32, t10: u32,
    t11: u32, t12: u32, t13: u32, b: u32,
) by (bit_vector)
    ensures
        ({
            let u = t1 | t2 | t3 | t4 | t5 | t6 | t7 | t8 | t9 | t10 | t11 | t12 | t13;
            &&& (t1 & b == b || t2 & b == b || t3 & b == b || t4 & b == b || t5 & b == b || t6
                & b == b || t7 & b == b || t8 & b == b || t9 & b == b || t10 & b == b || t11 & b
                == b || t12 & b == b || t13 & b == b) ==> u & b == b
        }),
        (t1 == 0 && t2 == 0 && t3 == 0 && t4 == 0 && t5 == 0 && t6 == 0 && t7 == 0 && t8 == 0
            && t9 == 0 && t10 == 0 && t11 == 0 && t12 == 0 && t13 == 0) ==> t1 | t2 | t3 | t4 | t5
            | t6 | t7 | t8 | t9 | t10 | t11 | t12 | t13 == 0,
{
}

/// What a watch registers for: each interest gives the `NOTE_*` flags that
/// report it, on every system, and no interest gives no flags.
///
/// Writes and growth report modifications (and truncation on OpenBSD); a
/// write on a watched directory reports a file moved into it, created in it
/// or moved out of it; a rename of a file in a watched directory reports it
/// moved out; the deletion or rename of the watched path itself reports it
/// deleted or moved. FreeBSD and NetBSD also report reads, opens and closes.
pub proof fn lemma_vnode_fflags(interest: u32, is_dir: bool, has_parent: bool, platform: Platform)
    ensures
        ({
            let f = spec_vnode_fflags(interest, is_dir, has_parent, platform);
            let fbsd = platform == Platform::FreeBsdOrNetBsd;
            &&& interest & 0x2 != 0 ==> f & 0x2 == 0x2 && f & 0x4 == 0x4
            &&& interest & 0x2 != 0 && platform == Platform::OpenBsd ==> f & 0x80 == 0x80
            &&& interest & 0x4 != 0 ==> f & 0x8 == 0x8
            &&& interest & 0x40 != 0 ==> f & 0x2 == 0x2
            &&& interest & 0x80 != 0 && is_dir ==> f & 0x2 == 0x2
            &&& interest & 0x80 != 0 && has_parent ==> f & 0x20 == 0x20
            &&& interest & 0x100 != 0 && is_dir ==> f & 0x2 == 0x2
            &&& interest & 0x200 != 0 && has_parent ==> f & 0x1 == 0x1
            &&& interest & 0x400 != 0 && !has_parent ==> f & 0x1 == 0x1
            &&& interest & 0x800 != 0 && !has_parent ==> f & 0x20 == 0x20
            &&& fbsd && interest & 0x1 != 0 ==> f & 0x400 == 0x400
            &&& fbsd && interest & 0x8 != 0 ==> f & 0x200 == 0x200
            &&& fbsd && interest & 0x10 != 0 ==> f & 0x100 == 0x100
            &&& fbsd && interest & 0x20 != 0 ==> f & 0x80 == 0x80
            &&& interest == 0 ==> f == 0
        }),
{
    let fbsd = platform == Platform::FreeBsdOrNetBsd;
    let t1 = flag_if(fbsd && interest & INTEREST_ACCESS != 0, NOTE_READ);
    let t2 = flag_if(
        interest & INTEREST_MODIFY != 0,
        NOTE_WRITE | NOTE_EXTEND | flag_if(platform == Platform::OpenBsd, NOTE_TRUNCATE),
    );
    let t3 = flag_if(interest & INTEREST_METADATA != 0, NOTE_ATTRIB);
    let t4 = flag_if(fbsd && interest & INTEREST_CLOSE_WRITE != 0, NOTE_CLOSE_WRITE);
    let t5 = flag_if(fbsd && interest & INTEREST_CLOSE_NOWRITE != 0, NOTE_CLOSE);
    let t6 = flag_if(fbsd && interest & INTEREST_OPEN != 0, NOTE_OPEN);
    let t7 = flag_if(interest & INTEREST_MOVE_INTO != 0, NOTE_WRITE);
    let t8 = flag_if(interest & INTEREST_MOVE_FROM != 0 && is_dir, NOTE_WRITE);
    let t9 = flag_if(interest & INTEREST_MOVE_FROM != 0 && has_parent, NOTE_RENAME);
    let t10 = flag_if(interest & INTEREST_CREATE != 0 && is_dir, NOTE_WRITE);
    let t11 = flag_if(interest & INTEREST_DELETE != 0 && has_parent, NOTE_DELETE);
    let t12 = flag_if(!has_parent && interest & INTEREST_DELETE_SELF != 0, NOTE_DELETE);
    let t13 = flag_if(!has_parent && interest & INTEREST_MOVE_SELF != 0, NOTE_RENAME);
    let f = spec_vnode_fflags(interest, is_dir, has_parent, platform);
    assert(f == t1 | t2 | t3 | t4 | t5 | t6 | t7 | t8 | t9 | t10 | t11 | t12 | t13);
    assert((0x6u32 | 0x80u32) & 0x2 == 0x2 && (0x6u32 | 0x80u32) & 0x4 == 0x4 && (0x6u32
        | 0x80u32) & 0x80 == 0x80 && (0x6u32 | 0u32) & 0x2 == 0x2 && (0x6u32 | 0u32) & 0x4 == 0x4)
        by (bit_vector);
    assert(0x2u32 & 0x2 == 0x2 && 0x8u32 & 0x8 == 0x8 && 0x20u32 & 0x20 == 0x20 && 0x1u32 & 0x1
        == 0x1 && 0x400u32 & 0x400 == 0x400 && 0x200u32 & 0x200 == 0x200 && 0x100u32 & 0x100
        == 0x100 && 0x80u32 & 0x80 == 0x80) by (bit_vector);
    assert(0u32 & 0x2 == 0 && 0u32 & 0x1 == 0 && 0u32 & 0x4 == 0 && 0u32 & 0x8 == 0 && 0u32 & 0x10
        == 0 && 0u32 & 0x20 == 0 && 0u32 & 0x40 == 0 && 0u32 & 0x80 == 0 && 0u32 & 0x100 == 0
        && 0u32 & 0x200 == 0 && 0u32 & 0x400 == 0 && 0u32 & 0x800 == 0) by (bit_vector);
    lemma_union_has(t1, t2, t3, t4, t5, t6, t7, t8, t9, t10, t11, t12, t13, 0x1);
    lemma_union_has(t1, t2, t3, t4, t5, t6, t7, t8, t9, t10, t11, t12, t13, 0x2);
    lemma_union_has(t1, t2, t3, t4, t5, t6, t7, t8, t9, t10, t11, t12, t13, 0x4);
    lemma_union_has(t1, t2, t3, t4, t5, t6, t7, t8, t9, t10, t11, t12, t13, 0x8);
    lemma_union_has(t1, t2, t3, t4, t5, t6, t7, t8, t9, t10, t11, t12, t13, 0x20);
    lemma_union_has(t1, t2, t3, t4, t5, t6, t7, t8, t9, t10, t11, t12, t13, 0x80);
    lemma_union_has(t1, t2, t3, t4, t5, t6, t7, t8, t9, t10, t11, t12, t13, 0x100);
    lemma_union_has(t1, t2, t3, t4, t5, t6, t7, t8, t9, t10, t11, t12, t13, 0x200);
    lemma_union_has(t1, t2, t3, t4, t5, t6, t7, t8, t9, t10, t11, t12, t13, 0x400);
    assert(0x2u32 | 0x4u32 == 0x6u32 && (0x6u32 | 0x80u32) == 0x86u32) by (bit_vector);
    assert(0x86u32 & 0x2 == 0x2 && 0x86u32 & 0x4 == 0x4 && 0x86u32 & 0x80 == 0x80) by (bit_vector);
    assert(interest & 0x2 != 0 ==> f & 0x2 == 0x2 && f & 0x4 == 0x4);
    assert(interest & 0x2 != 0 && platform == Platform::OpenBsd ==> f & 0x80 == 0x80);
    assert(interest & 0x4 != 0 ==> f & 0x8 == 0x8);
    assert(interest & 0x40 != 0 ==> f & 0x2 == 0x2);
    assert(interest & 0x80 != 0 && is_dir ==> f & 0x2 == 0x2);
    assert(interest & 0x80 != 0 && has_parent ==> f & 0x20 == 0x20);
    assert(interest & 0x100 != 0 && is_dir ==> f & 0x2 == 0x2);
    assert(interest & 0x200 != 0 && has_parent ==> f & 0x1 == 0x1);
    assert(interest & 0x400 != 0 && !has_parent ==> f & 0x1 == 0x1);
    assert(interest & 0x800 != 0 && !has_parent ==> f & 0x20 == 0x20);
    assert(fbsd && interest & 0x1 != 0 ==> f & 0x400 == 0x400);
    assert(fbsd && interest & 0x8 != 0 ==> f & 0x200 == 0x200);
    assert(fbsd && interest & 0x10 != 0 ==> f & 0x100 == 0x100);
    assert(fbsd && interest & 0x20 != 0 ==> f & 0x80 == 0x80);
    assert(interest == 0 ==> f == 0);
}

fn flag_when(cond: bool, flag: u32) -> (f: u32)
    ensures
        f == flag_if(cond, flag),
{
    if cond {
        flag
    } else {
        0
    }
}

/// Map `interest` to the `NOTE_*` flags to watch a path with.
pub fn vnode_fflags(interest: u32, is_dir: bool, has_parent: bool, platform: Platform) -> (f: u32)
    ensures
        f == spec_vnode_fflags(interest, is_dir, has_parent, platform),
{
    let fbsd = platform == Platform::FreeBsdOrNetBsd;
    flag_when(fbsd && interest & INTEREST_ACCESS != 0, NOTE_READ) | flag_when(
        interest & INTEREST_MODIFY != 0,
        NOTE_WRITE | NOTE_EXTEND | flag_when(platform == Platform::OpenBsd, NOTE_TRUNCATE),
    ) | flag_when(interest & INTEREST_METADATA != 0, NOTE_ATTRIB) | flag_when(
        fbsd && interest & INTEREST_CLOSE_WRITE != 0,
        NOTE_CLOSE_WRITE,
    ) | flag_when(fbsd && interest & INTEREST_CLOSE_NOWRITE != 0, NOTE_CLOSE) | flag_when(
        fbsd && interest & INTEREST_OPEN != 0,
        NOTE_OPEN,
    ) | flag_when(interest & INTEREST_MOVE_INTO != 0, NOTE_WRITE) | flag_when(
        interest & INTEREST_MOVE_FROM != 0 && is_dir,
        NOTE_WRITE,
    ) | flag_when(interest & INTEREST_MOVE_FROM != 0 && has_parent, NOTE_RENAME) | flag_when(
        interest & INTEREST_CREATE != 0 && is_dir,
        NOTE_WRITE,
    ) | flag_when(interest & INTEREST_DELETE != 0 && has_parent, NOTE_DELETE) | flag_when(
        !has_parent && interest & INTEREST_DELETE_SELF != 0,
        NOTE_DELETE,
    ) | flag_when(!has_parent && interest & INTEREST_MOVE_SELF != 0, NOTE_RENAME)
}

/// The user data of a watch: whether the path is a directory in the lowest
/// bit, the file descriptor of the watched directory it's in, if any, in the
/// upper half.
pub open spec fn spec_watch_udata(is_dir: bool, parent: Option<i32>) -> u64 {
    ((match parent {
        Some(fd) => fd * 0x1_0000_0000,
        None => 0,
    }) + flag_if(is_dir, EVENT_EXTRA_IS_DIR)) as u64
}

/// The user data of a watch, see [`spec_watch_udata`].
pub fn watch_udata(is_dir: bool, parent: Option<i32>) -> (udata: u64)
    requires
        parent matches Some(fd) ==> fd >= 0,
    ensures
        udata == spec_watch_udata(is_dir, parent),
{
    let extra = flag_when(is_dir, EVENT_EXTRA_IS_DIR) as u64;
    match parent {
        Some(fd) => (fd as u64) * 0x1_0000_0000 + extra,
        None => extra,
    }
}

/// Register the watch of the file descriptor `fd`, see [`vnode_fflags`] and
/// [`watch_udata`].
pub fn watch_registration(
    fd: i32,
    interest: u32,
    is_dir: bool,
    parent: Option<i32>,
    platform: Platform,
) -> (e: KEvent)
    requires
        fd >= 0,
        parent matches Some(p) ==> p >= 0,
    ensures
        e == (KEvent {
            ident: fd as u64,
            filter: Filter::Vnode,
            flags: EV_ADD | EV_CLEAR,
            fflags: spec_vnode_fflags(interest, is_dir, parent is Some, platform),
            data: 0,
            udata: spec_watch_udata(is_dir, parent),
        }),
{
    KEvent {
        ident: fd as u64,
        filter: Filter::Vnode,
        flags: EV_ADD | EV_CLEAR,
        fflags: vnode_fflags(interest, is_dir, parent.is_some(), platform),
        data: 0,
        udata: watch_udata(is_dir, parent),
    }
}

/// The watched directory of the event with user data `udata`, if any.
pub open spec fn spec_parent_fd(udata: u64) -> Option<i32> {
    let fd = (udata as i64) >> 32u64;
    if fd == 0 {
        None
    } else {
        Some(fd as i32)
    }
}

/// The watched directory of the event with user data `udata`, if any.
pub fn parent_fd(udata: u64) -> (r: Option<i32>)
    ensures
        r == spec_parent_fd(udata),
{
    let fd = (#[verifier::truncate] (udata as i64)) >> 32u64;
    if fd == 0 {
        None
    } else {
        Some(#[verifier::truncate] (fd as i32))
    }
}

/// The extra event bits in the user data `udata`: its lower half.
pub open spec fn spec_mask_extra(udata: u64) -> u32 {
    udata as u32
}

/// The extra event bits in the user data `udata`.
pub fn mask_extra(udata: u64) -> (r: u32)
    ensures
        r == spec_mask_extra(udata),
{
    #[verifier::truncate] (udata as u32)
}

/// The event is for a directory.
pub fn is_dir(event: &KEvent) -> (r: bool)
    ensures
        r == (spec_mask_extra(event.udata) & EVENT_EXTRA_IS_DIR != 0),
{
    mask_extra(event.udata) & EVENT_EXTRA_IS_DIR != 0
}

/// The flags that mean a file was modified.
pub open spec fn modified_flags(platform: Platform) -> u32 {
    NOTE_WRITE | NOTE_EXTEND | flag_if(platform == Platform::OpenBsd, NOTE_TRUNCATE)
}

/// The file was modified. Changes in a directory are reported by the events
/// of the files in it, not as a modification of the directory.
pub fn modified(event: &KEvent, platform: Platform) -> (r: bool)
    ensures
        r == (spec_mask_extra(event.udata) & EVENT_EXTRA_IS_DIR == 0 && event.fflags
            & modified_flags(platform) != 0),
{
    if is_dir(event) {
        false
    } else {
        event.fflags & (NOTE_WRITE | NOTE_EXTEND | flag_when(platform == Platform::OpenBsd, NOTE_TRUNCATE)) != 0
    }
}

/// The watched path itself was deleted.
pub fn deleted(event: &KEvent) -> (r: bool)
    ensures
        r == (spec_parent_fd(event.udata) is None && event.fflags & NOTE_DELETE != 0),
{
    match parent_fd(event.udata) {
        Some(_) => false,
        None => event.fflags & NOTE_DELETE != 0,
    }
}

/// A file was deleted from a watched directory.
pub fn file_deleted(event: &KEvent) -> (r: bool)
    ensures
        r == (spec_parent_fd(event.udata) is Some && event.fflags & NOTE_DELETE != 0),
{
    match parent_fd(event.udata) {
        Some(_) => event.fflags & NOTE_DELETE != 0,
        None => false,
    }
}

/// A file was moved out of a watched directory.
pub fn file_moved_from(event: &KEvent) -> (r: bool)
    ensures
        r == (spec_mask_extra(event.udata) & EVENT_EXTRA_FILE_MOVED_FROM != 0),
{
    mask_extra(event.udata) & EVENT_EXTRA_FILE_MOVED_FROM != 0
}

/// A file was created in a watched directory.
pub fn file_created(event: &KEvent) -> (r: bool)
    ensures
        r == (spec_mask_extra(event.udata) & EVENT_EXTRA_FILE_CREATED != 0),
{
    mask_extra(event.udata) & EVENT_EXTRA_FILE_CREATED != 0
}

/// `event` is a write on a watched directory: something happened in it.
pub open spec fn is_dir_write(event: KEvent) -> bool {
    spec_mask_extra(event.udata) & EVENT_EXTRA_IS_DIR != 0 && event.fflags & NOTE_WRITE != 0
}

/// `event` is about a file in the watched directory `dir` and has `flag`.
pub open spec fn in_dir_with(event: KEvent, dir: u64, flag: u32) -> bool {
    spec_parent_fd(event.udata) == Some(dir as i32) && event.fflags & flag != 0
}

/// Index of the first event, from `from` on, of a file in `dir` that was
/// renamed.
pub open spec fn first_renamed(events: Seq<KEvent>, dir: u64, from: int) -> Option<int>
    decreases events.len() - from,
{
    if from < 0 || from >= events.len() {
        None
    } else if in_dir_with(events[from], dir, NOTE_RENAME) {
        Some(from)
    } else {
        first_renamed(events, dir, from + 1)
    }
}

/// The first renamed file lies from `from` on.
pub proof fn lemma_first_renamed_bounds(events: Seq<KEvent>, dir: u64, from: int)
    ensures
        first_renamed(events, dir, from) matches Some(j) ==> from <= j < events.len(),
    decreases events.len() - from,
{
    if 0 <= from < events.len() && !in_dir_with(events[from], dir, NOTE_RENAME) {
        lemma_first_renamed_bounds(events, dir, from + 1);
    }
}

/// The rename found for a write on the directory `dir` is the first event
/// from `from` on, wherever it lies, of a file whose watched directory is
/// `dir` and that was renamed; without such an event there is none.
pub proof fn lemma_first_renamed_is_first(events: Seq<KEvent>, dir: u64, from: int)
    requires
        0 <= from,
    ensures
        first_renamed(events, dir, from) matches Some(k) ==> {
            &&& from <= k < events.len()
            &&& spec_parent_fd(events[k].udata) == Some(dir as i32)
            &&& events[k].fflags & NOTE_RENAME != 0
            &&& forall|j: int|
                from <= j < k ==> !(spec_parent_fd(#[trigger] events[j].udata) == Some(dir as i32)
                    && events[j].fflags & NOTE_RENAME != 0)
        },
        first_renamed(events, dir, from) is None ==> forall|j: int|
            from <= j < events.len() ==> !(spec_parent_fd(#[trigger] events[j].udata) == Some(
                dir as i32,
            ) && events[j].fflags & NOTE_RENAME != 0),
    decreases events.len() - from,
{
    if from < events.len() && !in_dir_with(events[from], dir, NOTE_RENAME) {
        lemma_first_renamed_is_first(events, dir, from + 1);
    }
}

/// One of the first `to` events is the deletion of a file in `dir`.
pub open spec fn deleted_in(events: Seq<KEvent>, dir: u64, to: int) -> bool {
    exists|j: int| 0 <= j < to && #[trigger] in_dir_with(events[j], dir, NOTE_DELETE)
}

/// `event` marked as a file moved out of its directory.
pub open spec fn as_moved_from(event: KEvent) -> KEvent {
    KEvent {
        udata: event.udata | (EVENT_EXTRA_FILE_MOVED_FROM as u64),
        fflags: event.fflags & !NOTE_RENAME,
        ..event
    }
}

/// `event` on a directory marked as a file created in it.
pub open spec fn as_created(event: KEvent) -> KEvent {
    KEvent { fflags: event.fflags & !NOTE_WRITE, udata: event.udata | (EVENT_EXTRA_FILE_CREATED as u64), ..event }
}

/// `events` after rewriting from the event at `i` on: a write on a
/// watched directory says something happened in it, but not what.
///
/// * If a file in the directory was renamed later on, the file moved out of
///   the directory: the write is dropped, the rename marked as a move out.
/// * Else, if a file in the directory was deleted up to here, the write
///   comes with that deletion: it's dropped (the event after it is skipped).
/// * Else a file was created in the directory.
pub open spec fn rewritten(events: Seq<KEvent>, i: int) -> Seq<KEvent>
    decreases events.len() + 1 - i,
{
    if i < 0 || i >= events.len() {
        events
    } else if is_dir_write(events[i]) {
        let dir = events[i].ident;
        match first_renamed(events, dir, i + 1) {
            Some(j) => {
                proof {
                    lemma_first_renamed_bounds(events, dir, i + 1);
                }
                rewritten(events.remove(i).update(j - 1, as_moved_from(events[j])), i)
            },
            None => if deleted_in(events, dir, i + 1) {
                rewritten(events.remove(i), i + 1)
            } else {
                rewritten(events.update(i, as_created(events[i])), i + 1)
            },
        }
    } else {
        rewritten(events, i + 1)
    }
}

/// `event` is about a file in `dir` and has `flag`.
fn event_in_dir_with(event: &KEvent, dir: u64, flag: u32) -> (r: bool)
    ensures
        r == in_dir_with(*event, dir, flag),
{
    let dir_fd: i32 = #[verifier::truncate] (dir as i32);
    match parent_fd(event.udata) {
        Some(fd) => fd == dir_fd && event.fflags & flag != 0,
        None => false,
    }
}

/// Index of the first event from `from` on of a file in `dir` that was
/// renamed.
fn find_renamed(events: &Vec<KEvent>, dir: u64, from: usize) -> (r: Option<usize>)
    ensures
        match r {
            Some(j) => from <= j < events@.len() && first_renamed(events@, dir, from as int) == Some(
                j as int,
            ),
            None => first_renamed(events@, dir, from as int) is None,
        },
{
    let mut k = from;
    while k < events.len()
        invariant
            from <= k,
            first_renamed(events@, dir, from as int) == first_renamed(events@, dir, k as int),
        decreases events@.len() - k,
    {
        if event_in_dir_with(&events[k], dir, NOTE_RENAME) {
            return Some(k);
        }
        k += 1;
    }
    None
}

/// One of the first `to` events is the deletion of a file in `dir`.
fn any_deleted(events: &Vec<KEvent>, dir: u64, to: usize) -> (r: bool)
    requires
        to <= events@.len(),
    ensures
        r == deleted_in(events@, dir, to as int),
{
    let mut k: usize = 0;
    while k < to
        invariant
            k <= to <= events@.len(),
            forall|j: int| 0 <= j < k ==> !#[trigger] in_dir_with(events@[j], dir, NOTE_DELETE),
        decreases to - k,
    {
        if event_in_dir_with(&events[k], dir, NOTE_DELETE) {
            return true;
        }
        k += 1;
    }
    false
}

/// Rewrite the events read from a watcher, see [`rewritten`].
pub fn rewrite_events(events: &mut Vec<KEvent>)
    ensures
        final(events)@ == rewritten(old(events)@, 0),
{
    let mut i: usize = 0;
    while i < events.len()
        invariant
            i <= events@.len() + 1,
            rewritten(events@, i as int) == rewritten(old(events)@, 0),
        decreases events@.len() + 1 - i,
    {
        let event = events[i];
        if is_dir(&event) && event.fflags & NOTE_WRITE != 0 {
            let dir = event.ident;
            match find_renamed(events, dir, i + 1) {
                Some(j) => {
                    // When a file is moved out of a watched directory we get
                    // a write on the directory and a rename of the file.
                    let ghost before = events@;
                    let moved = events[j];
                    events.remove(i);
                    events.set(
                        j - 1,
                        KEvent {
                            udata: moved.udata | (EVENT_EXTRA_FILE_MOVED_FROM as u64),
                            fflags: moved.fflags & !NOTE_RENAME,
                            ..moved
                        },
                    );
                    proof {
                        assert(events@ =~= before.remove(i as int).update(
                            j - 1,
                            as_moved_from(before[j as int]),
                        ));
                    }
                    // Don't move on: an event took the place of the write.
                },
                None => {
                    if any_deleted(events, dir, i + 1) {
                        // A deletion in the directory comes with a write on
                        // it, which tells nothing more.
                        events.remove(i);
                    } else {
                        // A file was created in the directory.
                        let ghost before = events@;
                        events.set(
                            i,
                            KEvent {
                                fflags: event.fflags & !NOTE_WRITE,
                                udata: event.udata | (EVENT_EXTRA_FILE_CREATED as u64),
                                ..event
                            },
                        );
                        proof {
                            assert(events@ =~= before.update(i as int, as_created(before[i as int])));
                        }
                    }
                    i += 1;
                },
            }
        } else {
            i += 1;
        }
    }
}

/// Rewriting never adds events.
pub proof fn lemma_rewrite_never_adds(events: Seq<KEvent>, i: int)
    ensures
        rewritten(events, i).len() <= events.len(),
    decreases events.len() + 1 - i,
{
    if i < 0 || i >= events.len() {
    } else if is_dir_write(events[i]) {
        let dir = events[i].ident;
        match first_renamed(events, dir, i + 1) {
            Some(j) => {
                lemma_first_renamed_bounds(events, dir, i + 1);
                lemma_rewrite_never_adds(events.remove(i).update(j - 1, as_moved_from(events[j])), i);
            },
            None => if deleted_in(events, dir, i + 1) {
                lemma_rewrite_never_adds(events.remove(i), i + 1);
            } else {
                lemma_rewrite_never_adds(events.update(i, as_created(events[i])), i + 1);
            },
        }
    } else {
        lemma_rewrite_never_adds(events, i + 1);
    }
}

/// A file moved out of a watched directory gives a write on the directory and
/// a rename of the file: rewritten, that's one event, a move out of the file.
pub proof fn lemma_move_out_of_dir(write: KEvent, rename: KEvent)
    requires
        is_dir_write(write),
        in_dir_with(rename, write.ident, NOTE_RENAME),
        !is_dir_write(as_moved_from(rename)),
    ensures
        rewritten(seq![write, rename], 0) == seq![as_moved_from(rename)],
{
    let events = seq![write, rename];
    assert(first_renamed(events, write.ident, 1) == Some(1int));
    let after = events.remove(0).update(0, as_moved_from(rename));
    assert(after =~= seq![as_moved_from(rename)]);
    assert(rewritten(after, 1) == after);
    assert(rewritten(after, 0) == rewritten(after, 1));
}

/// A write on a watched directory with nothing else to explain it is the
/// creation of a file in it.
pub proof fn lemma_write_is_creation(write: KEvent)
    requires
        is_dir_write(write),
        !in_dir_with(write, write.ident, NOTE_DELETE),
    ensures
        rewritten(seq![write], 0) == seq![as_created(write)],
{
    let events = seq![write];
    assert(first_renamed(events, write.ident, 1) is None);
    assert(!deleted_in(events, write.ident, 1)) by {
        assert forall|j: int| 0 <= j < 1 implies !#[trigger] in_dir_with(events[j], write.ident, NOTE_DELETE) by {
            assert(events[j] == write);
        }
    }
    let after = events.update(0, as_created(write));
    assert(after =~= seq![as_created(write)]);
    assert(rewritten(after, 1) == after);
}

/// Events that are no writes on a watched directory are left as they are.
proof fn lemma_rewrite_keeps(events: Seq<KEvent>, i: int)
    requires
        0 <= i,
        forall|j: int| i <= j < events.len() ==> !is_dir_write(#[trigger] events[j]),
    ensures
        rewritten(events, i) == events,
    decreases events.len() + 1 - i,
{
    if i < events.len() {
        lemma_rewrite_keeps(events, i + 1);
    }
}

/// A file moved out of a watched directory gives a write on the directory and,
/// anywhere later, a rename of the file: rewritten, the write is dropped and
/// the rename is a move out of the file, whatever other events lie between.
pub proof fn lemma_move_out_later(write: KEvent, others: Seq<KEvent>, rename: KEvent)
    requires
        is_dir_write(write),
        spec_parent_fd(rename.udata) == Some(write.ident as i32),
        rename.fflags & NOTE_RENAME != 0,
        !is_dir_write(as_moved_from(rename)),
        forall|j: int|
            0 <= j < others.len() ==> !is_dir_write(#[trigger] others[j]) && !(spec_parent_fd(
                others[j].udata,
            ) == Some(write.ident as i32) && others[j].fflags & NOTE_RENAME != 0),
    ensures
        rewritten(seq![write] + others + seq![rename], 0) == others + seq![as_moved_from(rename)],
{
    let events = seq![write] + others + seq![rename];
    let n = others.len() as int;
    let dir = write.ident;
    assert(events[0] == write);
    assert(events[n + 1] == rename);
    assert forall|j: int| 1 <= j < n + 1 implies events[j] == others[j - 1] by {}
    lemma_first_renamed_is_first(events, dir, 1);
    match first_renamed(events, dir, 1) {
        Some(k) => {
            if k < n + 1 {
                assert(events[k] == others[k - 1]);
            }
            assert(k == n + 1);
        },
        None => {
            assert(events[n + 1] == rename);
        },
    }
    let after = events.remove(0).update(n, as_moved_from(rename));
    assert(after =~= others + seq![as_moved_from(rename)]);
    assert forall|j: int| 0 <= j < after.len() implies !is_dir_write(#[trigger] after[j]) by {
        if j < n {
            assert(after[j] == others[j]);
        }
    }
    lemma_rewrite_keeps(after, 0);
}

} // verus!
