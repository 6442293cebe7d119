use a10::kqueue::names::{filter_name, EventNames, System};
use a10::kqueue::{
    dispatch, drop_state_event, evented_step, event_action, events_len, filter_of, readiness_step,
    receipt_error, registration, wake_registration, ReadinessPoll,
    wake_event, Attempt, ChangeList, EventAction, EventedPoll, EventedState, FdWaiters, Filter,
    KEvent, OpKind, DEFAULT_CHANGE_FLAGS, EV_ADD, EV_CLEAR, EV_DISPATCH, EV_ENABLE, EV_EOF,
    EV_ERROR, EV_RECEIPT, NOTE_TRIGGER, WAKE_UDATA,
};
use a10::kqueue::buf_pool::{allocation_size, BufPool};
use a10::kqueue::notify::{
    deleted, file_created, file_deleted, file_moved_from, is_dir, mask_extra, modified, parent_fd,
    rewrite_events, vnode_fflags, watch_registration, watch_udata, Platform,
    EVENT_EXTRA_FILE_CREATED, EVENT_EXTRA_FILE_MOVED_FROM, EVENT_EXTRA_IS_DIR, INTEREST_ACCESS,
    INTEREST_ALL, INTEREST_CREATE, INTEREST_DELETE, INTEREST_DELETE_SELF, INTEREST_MODIFY,
    INTEREST_MOVE_FROM, INTEREST_MOVE_SELF, INTEREST_OPEN, NOTE_ATTRIB, NOTE_CLOSE,
    NOTE_CLOSE_WRITE, NOTE_DELETE, NOTE_EXTEND, NOTE_OPEN, NOTE_READ, NOTE_RENAME, NOTE_TRUNCATE,
    NOTE_WRITE,
};

fn event(filter: Filter, flags: u16, data: i64, udata: u64) -> KEvent {
    KEvent { ident: 3, filter, flags, fflags: 0, data, udata }
}

#[test]
fn registrations() {
    assert_eq!(DEFAULT_CHANGE_FLAGS, EV_CLEAR | EV_DISPATCH | EV_ENABLE | EV_ADD | EV_RECEIPT);
    let r = registration(5, Filter::Read, 0x10);
    assert_eq!(
        r,
        KEvent { ident: 5, filter: Filter::Read, flags: DEFAULT_CHANGE_FLAGS, fflags: 0, data: 0, udata: 0x10 }
    );
    let w = wake_event();
    assert_eq!((w.filter, w.flags, w.fflags, w.udata), (Filter::User, EV_ADD, NOTE_TRIGGER, WAKE_UDATA));
    let d = drop_state_event(0x20);
    assert_eq!((d.ident, d.filter, d.flags, d.udata), (0x20, Filter::User, DEFAULT_CHANGE_FLAGS, 0));
}

#[test]
fn change_list_batches() {
    let mut list = ChangeList::new(3);
    let a = registration(1, Filter::Read, 1);
    let b = registration(2, Filter::Write, 2);
    let c = registration(3, Filter::Read, 3);
    assert_eq!(list.add(a, false), None);
    assert_eq!(list.add(b, false), None);
    assert_eq!(list.changes, vec![a, b]);
    // The third change fills the list: all are submitted.
    assert_eq!(list.add(c, false), Some(vec![a, b, c]));
    assert!(list.changes.is_empty());
    assert_eq!(list.max_size, 3);
}

#[test]
fn change_list_wake_up_submits_now() {
    let mut list = ChangeList::new(64);
    let a = registration(1, Filter::Read, 1);
    assert_eq!(list.add(a, false), None);
    assert_eq!(list.add(wake_event(), true), Some(vec![a, wake_event()]));
    assert!(list.changes.is_empty());
    assert_eq!(list.take_changes(), Vec::new());
}

#[test]
fn remove_unsubmitted_events_of_fd() {
    let mut list = ChangeList::new(64);
    let changes = [
        registration(1, Filter::Read, 1),
        registration(2, Filter::Write, 2),
        registration(1, Filter::Write, 3),
        registration(1, Filter::Proc, 4),
        registration(3, Filter::Read, 5),
    ];
    for change in changes {
        assert_eq!(list.add(change, false), None);
    }
    list.remove_unsubmitted_events(1);
    assert_eq!(list.changes, vec![changes[1], changes[3], changes[4]]);
    assert_eq!(list.take_changes(), vec![changes[1], changes[3], changes[4]]);
}

#[test]
fn number_of_events() {
    assert_eq!(events_len(5, false), 5);
    assert_eq!(events_len(5, true), 4);
    assert_eq!(events_len(0, false), 0);
}

#[test]
fn event_actions() {
    // A change submitted without error.
    assert_eq!(event_action(&event(Filter::Read, EV_ERROR, 0, 9)), EventAction::Ignore);
    // A change that failed is handled like its filter.
    assert_eq!(event_action(&event(Filter::Read, EV_ERROR, 9, 9)), EventAction::WakeOperations(9, Filter::Read));
    assert_eq!(event_action(&event(Filter::Write, 0, 0, 9)), EventAction::WakeOperations(9, Filter::Write));
    assert_eq!(event_action(&event(Filter::User, 0, 0, WAKE_UDATA)), EventAction::Ignore);
    assert_eq!(event_action(&event(Filter::User, 0, 0, 7)), EventAction::DropState(7));
    assert_eq!(event_action(&event(Filter::Proc, 0, 0, 7)), EventAction::Ignore);
    assert_eq!(event_action(&event(Filter::Proc, EV_EOF, 0, 7)), EventAction::WakeProcess(7));
    assert_eq!(event_action(&event(Filter::Proc, EV_ERROR, 3, 7)), EventAction::WakeProcess(7));
    assert_eq!(event_action(&event(Filter::Other(-100), 0, 0, 7)), EventAction::Ignore);

    let events = [event(Filter::User, 0, 0, WAKE_UDATA), event(Filter::Read, 0, 0, 1)];
    assert_eq!(dispatch(&events), vec![EventAction::Ignore, EventAction::WakeOperations(1, Filter::Read)]);
    assert_eq!(dispatch(&[]), Vec::new());
}

#[test]
fn fd_waiters_share_registrations() {
    let mut waiters = FdWaiters::new();
    assert!(!waiters.has_waiting_op(OpKind::Read));
    assert!(waiters.register(OpKind::Read, 1));
    assert!(waiters.register(OpKind::Write, 2));
    // A second read shares the registration of the first.
    assert!(!waiters.register(OpKind::Read, 3));
    assert!(waiters.has_waiting_op(OpKind::Read));
    assert_eq!(filter_of(OpKind::Read), Filter::Read);
    assert_eq!(filter_of(OpKind::Write), Filter::Write);

    assert_eq!(waiters.wake(Filter::Read), vec![1, 3]);
    assert_eq!(waiters.ops, vec![(OpKind::Write, 2)]);
    assert!(!waiters.has_waiting_op(OpKind::Read));
    assert_eq!(waiters.wake(Filter::Proc), Vec::<u64>::new());
    assert_eq!(waiters.wake(Filter::Write), vec![2]);
    assert!(waiters.ops.is_empty());
}

#[test]
fn evented_operation_steps() {
    assert_eq!(evented_step(EventedState::NotStarted, Attempt::Done), (EventedState::ToSubmit, EventedPoll::Continue));
    assert_eq!(evented_step(EventedState::NotStarted, Attempt::Failed), (EventedState::NotStarted, EventedPoll::Ready));
    assert_eq!(evented_step(EventedState::NotStarted, Attempt::WouldBlock), (EventedState::NotStarted, EventedPoll::Ready));
    assert_eq!(evented_step(EventedState::ToSubmit, Attempt::Done), (EventedState::Waiting, EventedPoll::Pending));
    assert_eq!(evented_step(EventedState::Waiting, Attempt::WouldBlock), (EventedState::ToSubmit, EventedPoll::Continue));
    assert_eq!(evented_step(EventedState::Waiting, Attempt::Done), (EventedState::Complete, EventedPoll::Ready));
    assert_eq!(evented_step(EventedState::Waiting, Attempt::Failed), (EventedState::Complete, EventedPoll::Ready));
}

fn vnode(ident: u64, fflags: u32, udata: u64) -> KEvent {
    KEvent { ident, filter: Filter::Vnode, flags: EV_ADD | EV_CLEAR, fflags, data: 0, udata }
}

#[test]
fn watch_flags_for_interest() {
    // A watched directory, interested in everything.
    assert_eq!(
        vnode_fflags(INTEREST_ALL, true, false, Platform::Other),
        NOTE_WRITE | NOTE_EXTEND | NOTE_ATTRIB | NOTE_DELETE | NOTE_RENAME
    );
    assert_eq!(
        vnode_fflags(INTEREST_ALL, true, false, Platform::FreeBsdOrNetBsd),
        NOTE_READ | NOTE_WRITE | NOTE_EXTEND | NOTE_ATTRIB | NOTE_CLOSE_WRITE | NOTE_CLOSE
            | NOTE_OPEN | NOTE_DELETE | NOTE_RENAME
    );
    assert_eq!(
        vnode_fflags(INTEREST_MODIFY, false, false, Platform::OpenBsd),
        NOTE_WRITE | NOTE_EXTEND | NOTE_TRUNCATE
    );
    // A file in a watched directory: deleting and moving it out are about
    // the file, the *_SELF interests aren't.
    assert_eq!(vnode_fflags(INTEREST_DELETE | INTEREST_MOVE_FROM, false, true, Platform::Other), NOTE_DELETE | NOTE_RENAME);
    assert_eq!(vnode_fflags(INTEREST_DELETE_SELF | INTEREST_MOVE_SELF, false, true, Platform::Other), 0);
    assert_eq!(vnode_fflags(INTEREST_DELETE_SELF | INTEREST_MOVE_SELF, false, false, Platform::Other), NOTE_DELETE | NOTE_RENAME);
    // Creating a file is a write on a directory only.
    assert_eq!(vnode_fflags(INTEREST_CREATE, true, false, Platform::Other), NOTE_WRITE);
    assert_eq!(vnode_fflags(INTEREST_CREATE, false, false, Platform::Other), 0);
    assert_eq!(vnode_fflags(INTEREST_ACCESS | INTEREST_OPEN, false, false, Platform::Other), 0);
}

#[test]
fn watch_user_data() {
    assert_eq!(watch_udata(false, None), 0);
    assert_eq!(watch_udata(true, None), EVENT_EXTRA_IS_DIR as u64);
    assert_eq!(watch_udata(true, Some(7)), (7 << 32) | 1);
    assert_eq!(parent_fd(watch_udata(true, Some(7))), Some(7));
    assert_eq!(parent_fd(watch_udata(true, None)), None);
    assert_eq!(mask_extra(watch_udata(true, Some(7))), EVENT_EXTRA_IS_DIR);

    let r = watch_registration(5, INTEREST_MODIFY, false, Some(3), Platform::Other);
    assert_eq!(r, vnode(5, NOTE_WRITE | NOTE_EXTEND, 3 << 32));
}

#[test]
fn vnode_event_predicates() {
    let file = vnode(5, NOTE_WRITE | NOTE_DELETE, 3 << 32);
    assert!(!is_dir(&file));
    assert!(modified(&file, Platform::Other));
    assert!(file_deleted(&file));
    assert!(!deleted(&file));
    assert!(!file_created(&file));
    assert!(!file_moved_from(&file));

    let root = vnode(3, NOTE_DELETE | NOTE_WRITE, EVENT_EXTRA_IS_DIR as u64);
    assert!(is_dir(&root));
    assert!(!modified(&root, Platform::Other));
    assert!(deleted(&root));
    assert!(!file_deleted(&root));
    assert!(modified(&vnode(5, NOTE_TRUNCATE, 0), Platform::OpenBsd));
    assert!(!modified(&vnode(5, NOTE_TRUNCATE, 0), Platform::Other));
}

#[test]
fn rewrite_move_out_of_directory() {
    let dir = vnode(3, NOTE_WRITE, EVENT_EXTRA_IS_DIR as u64);
    let moved = vnode(5, NOTE_RENAME, 3 << 32);
    let mut events = vec![dir, moved];
    rewrite_events(&mut events);
    assert_eq!(events, vec![vnode(5, 0, (3 << 32) | EVENT_EXTRA_FILE_MOVED_FROM as u64)]);
    assert!(file_moved_from(&events[0]));
}

#[test]
fn rewrite_creation_in_directory() {
    let dir = vnode(3, NOTE_WRITE | NOTE_ATTRIB, EVENT_EXTRA_IS_DIR as u64);
    let mut events = vec![dir];
    rewrite_events(&mut events);
    assert_eq!(
        events,
        vec![vnode(3, NOTE_ATTRIB, (EVENT_EXTRA_IS_DIR | EVENT_EXTRA_FILE_CREATED) as u64)]
    );
    assert!(file_created(&events[0]));
}

#[test]
fn rewrite_deletion_in_directory() {
    let deleted_file = vnode(5, NOTE_DELETE, 3 << 32);
    let dir = vnode(3, NOTE_WRITE, EVENT_EXTRA_IS_DIR as u64);
    let other = vnode(6, NOTE_ATTRIB, 0);
    let mut events = vec![deleted_file, dir, other];
    rewrite_events(&mut events);
    // The write on the directory comes with the deletion and is dropped.
    assert_eq!(events, vec![deleted_file, other]);

    let mut events = vec![other, vnode(7, NOTE_WRITE, 0)];
    rewrite_events(&mut events);
    assert_eq!(events, vec![other, vnode(7, NOTE_WRITE, 0)]);
    let mut none: Vec<KEvent> = Vec::new();
    rewrite_events(&mut none);
    assert!(none.is_empty());
}

#[test]
fn wake_registration_and_receipts() {
    let w = wake_registration();
    assert_eq!((w.ident, w.filter, w.flags, w.udata), (0, Filter::User, EV_ADD | EV_CLEAR | EV_RECEIPT, WAKE_UDATA));
    assert_eq!(receipt_error(&event(Filter::User, EV_ERROR, 0, 0)), None);
    assert_eq!(receipt_error(&event(Filter::User, EV_ERROR, 22, 0)), Some(22));
    assert_eq!(receipt_error(&event(Filter::User, 0, 22, 0)), None);
}

#[test]
fn readiness_steps() {
    assert_eq!(readiness_step(EventedState::NotStarted, false), (EventedState::Waiting, ReadinessPoll::Pending));
    assert_eq!(readiness_step(EventedState::ToSubmit, true), (EventedState::Waiting, ReadinessPoll::Pending));
    assert_eq!(readiness_step(EventedState::Waiting, true), (EventedState::Waiting, ReadinessPoll::Pending));
    assert_eq!(readiness_step(EventedState::Waiting, false), (EventedState::ToSubmit, ReadinessPoll::Ready));
    assert_eq!(readiness_step(EventedState::Complete, false), (EventedState::Complete, ReadinessPoll::Done));
}

#[test]
fn buffer_pool_hands_out_lowest_first() {
    let mut pool = BufPool::new(4, 16, 4096).unwrap();
    assert_eq!(pool.buf_size(), 16);
    assert_eq!(pool.get_buf(), Some((0, 0)));
    assert_eq!(pool.get_buf(), Some((1, 16)));
    assert_eq!(pool.get_buf(), Some((2, 32)));
    assert_eq!(pool.get_buf(), Some((3, 48)));
    assert_eq!(pool.get_buf(), None);
    assert_eq!(pool.get_buf(), None);
    // A released buffer is handed out again.
    pool.release(16);
    assert_eq!(pool.get_buf(), Some((1, 16)));
    pool.release(48);
    pool.release(0);
    assert_eq!(pool.get_buf(), Some((0, 0)));
    assert_eq!(pool.get_buf(), Some((3, 48)));
    assert_eq!(pool.get_buf(), None);
}

#[test]
fn buffer_pool_allocation() {
    assert_eq!(allocation_size(4, 16, 4096), Some(64));
    assert_eq!(allocation_size(0, 16, 4096), Some(0));
    assert_eq!(allocation_size(u16::MAX, u32::MAX, 4096), Some(u16::MAX as usize * u32::MAX as usize));
    // Rounded up to a page it doesn't fit.
    assert_eq!(allocation_size(1, 1, usize::MAX), None);
    assert!(BufPool::new(1, 1, usize::MAX).is_none());
    let mut empty = BufPool::new(0, 16, 4096).unwrap();
    assert_eq!(empty.get_buf(), None);
}

#[test]
fn event_names() {
    let names = wake_registration().names(System::FreeBsd);
    assert_eq!(
        names,
        EventNames {
            filter: Some("EVFILT_USER"),
            flags: vec!["EV_ADD", "EV_CLEAR", "EV_RECEIPT"],
            fflags: Some(vec![]),
        }
    );
    let names = wake_event().names(System::Apple);
    assert_eq!(names.fflags, Some(vec!["NOTE_TRIGGER"]));

    let event = KEvent {
        ident: 3,
        filter: Filter::Vnode,
        flags: EV_ADD | EV_EOF | 0x1000,
        fflags: 0x80 | 0x2,
        data: 0,
        udata: 0,
    };
    // The same bits have other names on other systems.
    let freebsd = event.names(System::FreeBsd);
    assert_eq!(freebsd.flags, vec!["EV_ADD", "EV_DROP", "EV_EOF"]);
    assert_eq!(freebsd.fflags, Some(vec!["NOTE_OPEN", "NOTE_WRITE"]));
    let openbsd = event.names(System::OpenBsd);
    assert_eq!(openbsd.flags, vec!["EV_ADD", "EV_EOF"]);
    assert_eq!(openbsd.fflags, Some(vec!["NOTE_WRITE", "NOTE_TRUNCATE"]));
    assert_eq!(event.names(System::DragonFly).flags, vec!["EV_ADD", "EV_EOF", "EV_NODATA"]);

    let other = KEvent { filter: Filter::Other(-100), ..event };
    assert_eq!(other.names(System::Apple).filter, None);
    assert_eq!(other.names(System::Apple).fflags, None);

    let signal = KEvent { filter: Filter::Signal, fflags: 0x0800_0000, ..event };
    assert_eq!(signal.names(System::Apple).filter, Some("EVFILT_SIGNAL"));
    assert_eq!(signal.names(System::Apple).fflags, Some(vec!["NOTE_SIGNAL"]));
    assert_eq!(signal.names(System::FreeBsd).fflags, Some(vec![]));
    let timer = KEvent { filter: Filter::Timer, ..event };
    assert_eq!(timer.names(System::OpenBsd).filter, Some("EVFILT_TIMER"));
    assert_eq!(timer.names(System::OpenBsd).fflags, None);
    assert_eq!(filter_name(Filter::Machport), Some("EVFILT_MACHPORT"));
    assert_eq!(filter_name(Filter::Other(7)), None);
    assert_eq!(event_action(&signal), EventAction::Ignore);
}
