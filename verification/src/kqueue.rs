//! The kqueue backend's decisions: batching registrations into a change list,
//! what to do with the events `kevent(2)` returns, the operations waiting on
//! a descriptor and the state machine of an operation that waits for its
//! descriptor to become ready.
//!
//! Events are plain values: the filter as [`Filter`] (its number differs
//! between the BSDs and macOS), the flags as the `EV_*` bits, which don't.

pub mod buf_pool;
pub mod names;
pub mod notify;

use vstd::prelude::*;

verus! {

/// Add the event.
pub const EV_ADD: u16 = 0x1;
/// Enable the event.
pub const EV_ENABLE: u16 = 0x4;
/// Reset the state after the event is retrieved.
pub const EV_CLEAR: u16 = 0x20;
/// Return the result of a change as an event, without draining events.
pub const EV_RECEIPT: u16 = 0x40;
/// Disable the event after it's delivered.
pub const EV_DISPATCH: u16 = 0x80;
/// An error, its number in `data`.
pub const EV_ERROR: u16 = 0x4000;
/// End of file.
pub const EV_EOF: u16 = 0x8000;
/// Trigger a user event.
pub const NOTE_TRIGGER: u32 = 0x0100_0000;

/// The flags of every registration: edge triggered, disabled once delivered,
/// enabled and added, each change answered.
pub const DEFAULT_CHANGE_FLAGS: u16 = EV_CLEAR | EV_DISPATCH | EV_ENABLE | EV_ADD | EV_RECEIPT;

/// User data of the event that only wakes up the polling thread.
pub const WAKE_UDATA: u64 = 0;

/// Filter of an event.
///
/// The numbers of the filters differ between the systems, so a filter is
/// known by its name; one the library doesn't name keeps its number.
#[derive(Copy, Clone, Debug, PartialEq, Eq, Structural)]
pub enum Filter {
    /// `EVFILT_READ`
    Read,
    /// `EVFILT_WRITE`
    Write,
    /// `EVFILT_AIO`
    Aio,
    /// `EVFILT_VNODE`
    Vnode,
    /// `EVFILT_PROC`
    Proc,
    /// `EVFILT_SIGNAL`
    Signal,
    /// `EVFILT_TIMER`
    Timer,
    /// `EVFILT_PROCDESC` (FreeBSD)
    Procdesc,
    /// `EVFILT_FS` (FreeBSD, DragonFly, macOS)
    Fs,
    /// `EVFILT_LIO` (FreeBSD)
    Lio,
    /// `EVFILT_USER`
    User,
    /// `EVFILT_SENDFILE` (FreeBSD)
    Sendfile,
    /// `EVFILT_EMPTY` (FreeBSD)
    Empty,
    /// `EVFILT_EXCEPT` (DragonFly)
    Except,
    /// `EVFILT_MACHPORT` (macOS)
    Machport,
    /// `EVFILT_VM` (macOS)
    Vm,
    /// Any other filter, by its number.
    Other(i16),
}

/// A registration, or an event `kevent(2)` returned (`struct kevent`).
#[derive(Copy, Clone, Debug, PartialEq, Eq)]
pub struct KEvent {
    /// Identifier, e.g. the file descriptor.
    pub ident: u64,
    pub filter: Filter,
    /// `EV_*` flags.
    pub flags: u16,
    /// Filter specific flags (`NOTE_*`).
    pub fflags: u32,
    /// Filter specific data, the error number for an `EV_ERROR` event.
    pub data: i64,
    /// User data: what the event is for.
    pub udata: u64,
}

/// A registration of `filter` for `ident`, with the default flags.
pub open spec fn spec_registration(ident: u64, filter: Filter, udata: u64) -> KEvent {
    KEvent { ident, filter, flags: DEFAULT_CHANGE_FLAGS, fflags: 0, data: 0, udata }
}

/// Register `filter` for `ident`, with user data `udata`.
pub fn registration(ident: u64, filter: Filter, udata: u64) -> (e: KEvent)
    ensures
        e == spec_registration(ident, filter, udata),
{
    KEvent { ident, filter, flags: DEFAULT_CHANGE_FLAGS, fflags: 0, data: 0, udata }
}

/// The user event that wakes up the polling thread.
pub fn wake_event() -> (e: KEvent)
    ensures
        e == (KEvent {
            ident: 0,
            filter: Filter::User,
            flags: EV_ADD,
            fflags: NOTE_TRIGGER,
            data: 0,
            udata: WAKE_UDATA,
        }),
{
    KEvent { ident: 0, filter: Filter::User, flags: EV_ADD, fflags: NOTE_TRIGGER, data: 0, udata: WAKE_UDATA }
}

/// The user event registered when the kqueue is set up, which
/// [`wake_event`] later triggers.
pub fn wake_registration() -> (e: KEvent)
    ensures
        e == (KEvent {
            ident: 0,
            filter: Filter::User,
            flags: EV_ADD | EV_CLEAR | EV_RECEIPT,
            fflags: 0,
            data: 0,
            udata: WAKE_UDATA,
        }),
{
    KEvent {
        ident: 0,
        filter: Filter::User,
        flags: EV_ADD | EV_CLEAR | EV_RECEIPT,
        fflags: 0,
        data: 0,
        udata: WAKE_UDATA,
    }
}

/// The error of a registration, from its receipt: the error number if
/// `EV_ERROR` is set with a non-zero error.
pub fn receipt_error(receipt: &KEvent) -> (err: Option<i64>)
    ensures
        err == (if receipt.flags & EV_ERROR != 0 && receipt.data != 0 {
            Some(receipt.data)
        } else {
            None
        }),
{
    if receipt.flags & EV_ERROR != 0 && receipt.data != 0 {
        Some(receipt.data)
    } else {
        None
    }
}

/// The user event, identified by `state`, asking the polling thread to
/// deallocate the state of a descriptor's operations once it no longer uses
/// it.
pub fn drop_state_event(state: u64) -> (e: KEvent)
    ensures
        e == spec_registration(state, Filter::User, 0),
{
    registration(state, Filter::User, 0)
}

/// Registrations waiting to be submitted to the kernel.
#[derive(Debug)]
pub struct ChangeList {
    /// The registrations, in the order they were added.
    pub changes: Vec<KEvent>,
    /// Number of registrations that are submitted without waiting on a poll.
    pub max_size: usize,
}

/// True if `change` is a read or write registration for `fd`.
pub open spec fn is_fd_change(change: KEvent, fd: u64) -> bool {
    change.ident == fd && (change.filter == Filter::Read || change.filter == Filter::Write)
}

/// `changes` without the read and write registrations for `fd`, in order.
pub open spec fn without_fd(changes: Seq<KEvent>, fd: u64) -> Seq<KEvent>
    decreases changes.len(),
{
    if changes.len() == 0 {
        changes
    } else {
        let rest = without_fd(changes.drop_last(), fd);
        if is_fd_change(changes.last(), fd) {
            rest
        } else {
            rest.push(changes.last())
        }
    }
}

impl ChangeList {
    /// An empty change list, submitted once it holds `max_size`
    /// registrations.
    pub fn new(max_size: usize) -> (l: ChangeList)
        ensures
            l.changes@ == Seq::<KEvent>::empty(),
            l.max_size == max_size,
    {
        ChangeList { changes: Vec::new(), max_size }
    }

    /// Add `change`. If the list is now full, or a wake up is `forced`, all
    /// registrations are returned to be submitted now and the list is left
    /// empty.
    pub fn add(&mut self, change: KEvent, forced: bool) -> (submit: Option<Vec<KEvent>>)
        requires
            old(self).changes@.len() < usize::MAX,
        ensures
            final(self).max_size == old(self).max_size,
            submit is Some <==> (forced || old(self).changes@.len() + 1 >= old(self).max_size),
            match submit {
                Some(changes) => {
                    &&& changes@ == old(self).changes@.push(change)
                    &&& final(self).changes@ == Seq::<KEvent>::empty()
                },
                None => final(self).changes@ == old(self).changes@.push(change),
            },
    {
        self.changes.push(change);
        // If we haven't collected enough events yet and we're not waking
        // up, we're done quickly.
        if !forced && self.changes.len() < self.max_size {
            return None;
        }
        Some(self.take_changes())
    }

    /// Take all registrations, leaving the list empty.
    pub fn take_changes(&mut self) -> (changes: Vec<KEvent>)
        ensures
            changes@ == old(self).changes@,
            final(self).changes@ == Seq::<KEvent>::empty(),
            final(self).max_size == old(self).max_size,
    {
        let mut changes = Vec::new();
        std::mem::swap(&mut changes, &mut self.changes);
        changes
    }

    /// Remove all registrations to read or write `fd` that are not submitted
    /// yet.
    pub fn remove_unsubmitted_events(&mut self, fd: u64)
        ensures
            final(self).changes@ == without_fd(old(self).changes@, fd),
            final(self).max_size == old(self).max_size,
    {
        let changes = self.take_changes();
        let mut kept: Vec<KEvent> = Vec::new();
        let mut i: usize = 0;
        while i < changes.len()
            invariant
                i <= changes@.len(),
                kept@ == without_fd(changes@.subrange(0, i as int), fd),
            decreases changes@.len() - i,
        {
            let change = changes[i];
            proof {
                assert(changes@.subrange(0, i as int + 1).drop_last() =~= changes@.subrange(0, i as int));
            }
            if !(change.ident == fd && (change.filter == Filter::Read || change.filter
                == Filter::Write)) {
                kept.push(change);
            }
            i += 1;
        }
        proof {
            assert(changes@.subrange(0, changes@.len() as int) =~= changes@);
        }
        self.changes = kept;
    }
}

/// Number of events `kevent(2)` may return when submitting `changes` in
/// place: one less than the changes when the last one is a wake up, so the
/// wake up itself isn't returned and still wakes the polling thread.
pub fn events_len(changes_len: usize, with_wake_up: bool) -> (n: usize)
    requires
        with_wake_up ==> changes_len > 0,
    ensures
        n == (if with_wake_up { changes_len - 1 } else { changes_len as int }),
{
    if with_wake_up {
        changes_len - 1
    } else {
        changes_len
    }
}

/// What to do with an event `kevent(2)` returned.
#[derive(Copy, Clone, Debug, PartialEq, Eq)]
pub enum EventAction {
    /// Nothing: a change that was submitted successfully, a wake up, an
    /// intermediate process event or an unexpected event.
    Ignore,
    /// Deallocate the operation state of a descriptor at the user data.
    DropState(u64),
    /// Wake the operations of the descriptor state at the user data that wait
    /// for the event's filter.
    WakeOperations(u64, Filter),
    /// Wake the future waiting for the process.
    WakeProcess(u64),
}

/// What to do with `event`.
pub open spec fn spec_event_action(event: KEvent) -> EventAction {
    if event.flags & EV_ERROR != 0 && event.data == 0 {
        // The change was submitted successfully.
        EventAction::Ignore
    } else {
        match event.filter {
            Filter::User => if event.udata == WAKE_UDATA {
                EventAction::Ignore
            } else {
                EventAction::DropState(event.udata)
            },
            Filter::Read => EventAction::WakeOperations(event.udata, Filter::Read),
            Filter::Write => EventAction::WakeOperations(event.udata, Filter::Write),
            Filter::Proc => if event.flags & (EV_EOF | EV_ERROR) == 0 {
                // Only the last event of a process is used: another one can
                // follow an earlier one.
                EventAction::Ignore
            } else {
                EventAction::WakeProcess(event.udata)
            },
            // File notifications are read from a kqueue of their own; other
            // events are unexpected.
            _ => EventAction::Ignore,
        }
    }
}

/// Decide what to do with `event`.
pub fn event_action(event: &KEvent) -> (a: EventAction)
    ensures
        a == spec_event_action(*event),
{
    if event.flags & EV_ERROR != 0 && event.data == 0 {
        // If the error number is zero the event was successfully submitted
        // and can be ignored.
        return EventAction::Ignore;
    }
    match event.filter {
        Filter::User => if event.udata == WAKE_UDATA {
            EventAction::Ignore
        } else {
            EventAction::DropState(event.udata)
        },
        Filter::Read => EventAction::WakeOperations(event.udata, Filter::Read),
        Filter::Write => EventAction::WakeOperations(event.udata, Filter::Write),
        Filter::Proc => if event.flags & (EV_EOF | EV_ERROR) == 0 {
            EventAction::Ignore
        } else {
            EventAction::WakeProcess(event.udata)
        },
        _ => EventAction::Ignore,
    }
}

/// Decide what to do with each of `events`, in order.
pub fn dispatch(events: &[KEvent]) -> (actions: Vec<EventAction>)
    ensures
        actions@.len() == events@.len(),
        forall|i: int| 0 <= i < events@.len() ==> #[trigger] actions@[i] == spec_event_action(events@[i]),
{
    let mut actions: Vec<EventAction> = Vec::new();
    let mut i: usize = 0;
    while i < events.len()
        invariant
            i <= events@.len(),
            actions@.len() == i,
            forall|j: int| 0 <= j < i ==> #[trigger] actions@[j] == spec_event_action(events@[j]),
        decreases events@.len() - i,
    {
        actions.push(event_action(&events[i]));
        i += 1;
    }
    actions
}

/// Kind of operation waiting on a descriptor.
#[derive(Copy, Clone, Debug, PartialEq, Eq, Structural)]
pub enum OpKind {
    /// Waits for `EVFILT_READ`.
    Read,
    /// Waits for `EVFILT_WRITE`.
    Write,
}

/// The filter an operation of `kind` waits for.
pub open spec fn op_filter(kind: OpKind) -> Filter {
    match kind {
        OpKind::Read => Filter::Read,
        OpKind::Write => Filter::Write,
    }
}

/// The filter an operation of `kind` waits for.
pub fn filter_of(kind: OpKind) -> (f: Filter)
    ensures
        f == op_filter(kind),
{
    match kind {
        OpKind::Read => Filter::Read,
        OpKind::Write => Filter::Write,
    }
}

/// The waiters, in order, woken by an event of `filter`.
pub open spec fn woken_by(ops: Seq<(OpKind, u64)>, filter: Filter) -> Seq<u64>
    decreases ops.len(),
{
    if ops.len() == 0 {
        Seq::empty()
    } else {
        let rest = woken_by(ops.drop_last(), filter);
        if op_filter(ops.last().0) == filter {
            rest.push(ops.last().1)
        } else {
            rest
        }
    }
}

/// The operations, in order, still waiting after an event of `filter`.
pub open spec fn waiting_after(ops: Seq<(OpKind, u64)>, filter: Filter) -> Seq<(OpKind, u64)>
    decreases ops.len(),
{
    if ops.len() == 0 {
        ops
    } else {
        let rest = waiting_after(ops.drop_last(), filter);
        if op_filter(ops.last().0) == filter {
            rest
        } else {
            rest.push(ops.last())
        }
    }
}

/// The operations waiting on a descriptor, with the waiter to wake for each.
///
/// kqueue identifies a registration by descriptor and filter, so operations
/// of the same kind share one registration.
#[derive(Debug)]
pub struct FdWaiters {
    /// The operations in the order they started waiting.
    pub ops: Vec<(OpKind, u64)>,
}

impl FdWaiters {
    /// No operations waiting.
    pub fn new() -> (w: FdWaiters)
        ensures
            w.ops@ == Seq::<(OpKind, u64)>::empty(),
    {
        FdWaiters { ops: Vec::new() }
    }

    /// Returns true if an operation of `kind` is waiting.
    pub fn has_waiting_op(&self, kind: OpKind) -> (r: bool)
        ensures
            r == exists|i: int| 0 <= i < self.ops@.len() && #[trigger] self.ops@[i].0 == kind,
    {
        let mut i: usize = 0;
        while i < self.ops.len()
            invariant
                i <= self.ops@.len(),
                forall|j: int| 0 <= j < i ==> #[trigger] self.ops@[j].0 != kind,
            decreases self.ops@.len() - i,
        {
            if self.ops[i].0 == kind {
                return true;
            }
            i += 1;
        }
        false
    }

    /// Add `waiter` for an operation of `kind`. Returns true if it's the
    /// first of its kind, then an event must be registered with the kernel.
    pub fn register(&mut self, kind: OpKind, waiter: u64) -> (needs_register: bool)
        ensures
            needs_register == !exists|i: int|
                0 <= i < old(self).ops@.len() && #[trigger] old(self).ops@[i].0 == kind,
            final(self).ops@ == old(self).ops@.push((kind, waiter)),
    {
        let needs_register = !self.has_waiting_op(kind);
        self.ops.push((kind, waiter));
        needs_register
    }

    /// An event of `filter` arrived: returns the waiters of the operations
    /// waiting for it, in order, which no longer wait.
    pub fn wake(&mut self, filter: Filter) -> (woken: Vec<u64>)
        ensures
            woken@ == woken_by(old(self).ops@, filter),
            final(self).ops@ == waiting_after(old(self).ops@, filter),
    {
        let mut ops: Vec<(OpKind, u64)> = Vec::new();
        std::mem::swap(&mut ops, &mut self.ops);
        let mut woken: Vec<u64> = Vec::new();
        let mut waiting: Vec<(OpKind, u64)> = Vec::new();
        let mut i: usize = 0;
        while i < ops.len()
            invariant
                i <= ops@.len(),
                ops@ == old(self).ops@,
                woken@ == woken_by(ops@.subrange(0, i as int), filter),
                waiting@ == waiting_after(ops@.subrange(0, i as int), filter),
            decreases ops@.len() - i,
        {
            let op = ops[i];
            proof {
                assert(ops@.subrange(0, i as int + 1).drop_last() =~= ops@.subrange(0, i as int));
            }
            if filter_of(op.0) == filter {
                woken.push(op.1);
            } else {
                waiting.push(op);
            }
            i += 1;
        }
        proof {
            assert(ops@.subrange(0, ops@.len() as int) =~= ops@);
        }
        self.ops = waiting;
        woken
    }
}

/// State of an operation that waits for its descriptor to become ready and
/// then makes the system call.
#[derive(Copy, Clone, Debug, PartialEq, Eq)]
pub enum EventedState {
    /// The setup has not run.
    NotStarted,
    /// Waiting needs to be registered.
    ToSubmit,
    /// Registered, the system call can be tried when woken.
    Waiting,
    /// The operation returned its result.
    Complete,
}

/// Outcome of the setup (in `NotStarted`) or the system call (in
/// `Waiting`).
#[derive(Copy, Clone, Debug, PartialEq, Eq)]
pub enum Attempt {
    /// It succeeded.
    Done,
    /// The descriptor isn't ready (`EWOULDBLOCK`).
    WouldBlock,
    /// It failed otherwise.
    Failed,
}

/// What polling the operation does after a step.
#[derive(Copy, Clone, Debug, PartialEq, Eq)]
pub enum EventedPoll {
    /// Take the next step.
    Continue,
    /// Register the waiting and wait to be woken.
    Pending,
    /// Return the result (of the system call, or the error of the setup or
    /// system call).
    Ready,
}

/// The state and what to do after a step in `state`, with the `attempt` the
/// state makes: the setup in `NotStarted`, the system call in `Waiting`;
/// `ToSubmit` makes none.
pub open spec fn spec_evented_step(state: EventedState, attempt: Attempt) -> (EventedState, EventedPoll) {
    match state {
        EventedState::NotStarted => match attempt {
            Attempt::Done => (EventedState::ToSubmit, EventedPoll::Continue),
            // A failed setup returns its error, the operation can be polled
            // again.
            _ => (EventedState::NotStarted, EventedPoll::Ready),
        },
        EventedState::ToSubmit => (EventedState::Waiting, EventedPoll::Pending),
        EventedState::Waiting => match attempt {
            Attempt::Done => (EventedState::Complete, EventedPoll::Ready),
            // Not ready after all: wait for the next event.
            Attempt::WouldBlock => (EventedState::ToSubmit, EventedPoll::Continue),
            Attempt::Failed => (EventedState::Complete, EventedPoll::Ready),
        },
        EventedState::Complete => (EventedState::Complete, EventedPoll::Ready),
    }
}

/// Take a step of polling an operation in `state`.
///
/// Polling a completed operation is a misuse: it's left out.
pub fn evented_step(state: EventedState, attempt: Attempt) -> (r: (EventedState, EventedPoll))
    requires
        state != EventedState::Complete,
    ensures
        r == spec_evented_step(state, attempt),
{
    match state {
        EventedState::NotStarted => match attempt {
            Attempt::Done => (EventedState::ToSubmit, EventedPoll::Continue),
            _ => (EventedState::NotStarted, EventedPoll::Ready),
        },
        EventedState::ToSubmit => (EventedState::Waiting, EventedPoll::Pending),
        EventedState::Waiting => match attempt {
            Attempt::Done => (EventedState::Complete, EventedPoll::Ready),
            Attempt::WouldBlock => (EventedState::ToSubmit, EventedPoll::Continue),
            Attempt::Failed => (EventedState::Complete, EventedPoll::Ready),
        },
        EventedState::Complete => (EventedState::Complete, EventedPoll::Ready),
    }
}

/// What polling a readiness stream (such as the ring's own descriptor) does.
#[derive(Copy, Clone, Debug, PartialEq, Eq)]
pub enum ReadinessPoll {
    /// Wait to be woken.
    Pending,
    /// The descriptor is ready; the next poll waits again.
    Ready,
    /// The stream ended.
    Done,
}

/// Take a step of polling a readiness stream in `state`. In `NotStarted` and
/// `ToSubmit` the waiting is registered; in `Waiting`, `still_waiting` tells
/// if the waiter wasn't woken yet.
pub fn readiness_step(state: EventedState, still_waiting: bool) -> (r: (EventedState, ReadinessPoll))
    ensures
        r == (match state {
            EventedState::NotStarted | EventedState::ToSubmit => (EventedState::Waiting, ReadinessPoll::Pending),
            EventedState::Waiting => if still_waiting {
                (EventedState::Waiting, ReadinessPoll::Pending)
            } else {
                (EventedState::ToSubmit, ReadinessPoll::Ready)
            },
            EventedState::Complete => (EventedState::Complete, ReadinessPoll::Done),
        }),
{
    match state {
        EventedState::NotStarted | EventedState::ToSubmit => (EventedState::Waiting, ReadinessPoll::Pending),
        EventedState::Waiting => if still_waiting {
            // Polled before we got an event.
            (EventedState::Waiting, ReadinessPoll::Pending)
        } else {
            // Ready, and wait for the next event.
            (EventedState::ToSubmit, ReadinessPoll::Ready)
        },
        EventedState::Complete => (EventedState::Complete, ReadinessPoll::Done),
    }
}

/// Every poll of an operation ends within a bounded number of steps: after
/// at most two steps from any state but `Complete` it waits or returns.
pub proof fn lemma_evented_poll_ends(state: EventedState, first: Attempt, second: Attempt)
    requires
        state != EventedState::Complete,
    ensures
        ({
            let (next, poll) = spec_evented_step(state, first);
            poll != EventedPoll::Continue || spec_evented_step(next, second).1
                != EventedPoll::Continue
        }),
{
}

/// An operation is only complete once its system call succeeded or failed,
/// and a failed setup leaves it to be polled again.
pub proof fn lemma_evented_complete_only_after_call(state: EventedState, attempt: Attempt)
    requires
        state != EventedState::Complete,
    ensures
        spec_evented_step(state, attempt).0 == EventedState::Complete ==> state
            == EventedState::Waiting && attempt != Attempt::WouldBlock,
        state == EventedState::NotStarted && attempt != Attempt::Done ==> spec_evented_step(
            state,
            attempt,
        ) == (EventedState::NotStarted, EventedPoll::Ready),
{
}

} // verus!
