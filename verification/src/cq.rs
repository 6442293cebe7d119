//! Completion queue: processing of completion events.
//!
//! Every queued operation gets an id from an [`AtomicBitMap`] and a slot in
//! [`QueuedOperations`]. Completion events name the operation by its id; the
//! slot then holds the result until the operation's `Future` takes it.

use vstd::prelude::*;

use crate::bitmap::AtomicBitMap;
use crate::sq::QueueFull;
use crate::io::traits::BufId;
use crate::sys::{
    ECANCELED, EINTR, EINVAL, IORING_CQE_BUFFER_SHIFT, IORING_CQE_F_BUFFER, IORING_CQE_F_MORE,
    IORING_CQE_F_NOTIF,
};

verus! {

/// Id of completion events that only wake up the polling thread.
pub const WAKE_ID: usize = usize::MAX;

/// Id of submissions that don't expect a completion event, their completion
/// only arrives when they failed.
pub const NO_COMPLETION_ID: usize = usize::MAX - 1;

/// Completion event.
#[derive(Copy, Clone, Debug, PartialEq, Eq)]
pub struct Completion {
    /// Id of the operation the event is for.
    pub user_data: u64,
    /// Result of the operation.
    pub res: i32,
    /// `IORING_CQE_F_*` flags.
    pub flags: u32,
}

impl Completion {
    /// Identifier of the operation.
    pub fn id(&self) -> (id: usize)
        ensures
            id == self.user_data as usize,
    {
        #[verifier::truncate]
        (self.user_data as usize)
    }

    /// Returns true if more events are expected for the same operation.
    pub fn more_events(&self) -> (more: bool)
        ensures
            more == (self.flags & IORING_CQE_F_MORE != 0),
    {
        self.flags & IORING_CQE_F_MORE != 0
    }

    /// Returns the id of the buffer the kernel selected, or 0 if it didn't
    /// select one.
    pub fn operation_flags(&self) -> (flags: u16)
        ensures
            flags == (if self.flags & IORING_CQE_F_BUFFER != 0 {
                (self.flags >> IORING_CQE_BUFFER_SHIFT) as u16
            } else {
                0
            }),
    {
        if self.flags & IORING_CQE_F_BUFFER != 0 {
            (self.flags >> IORING_CQE_BUFFER_SHIFT) as u16
        } else {
            0
        }
    }
}

/// Completion flags: the buffer the kernel selected, if any.
#[derive(Copy, Clone, Debug, PartialEq, Eq)]
pub struct CompletionFlags(pub u32);

impl CompletionFlags {
    /// No flags.
    pub fn empty() -> (f: CompletionFlags)
        ensures
            f.0 == 0,
    {
        CompletionFlags(0)
    }

    /// If `IORING_CQE_F_BUFFER` is set this returns the buffer id.
    pub fn buf_id(self) -> (id: Option<BufId>)
        ensures
            id == (if self.0 & IORING_CQE_F_BUFFER != 0 {
                Some(BufId((self.0 >> IORING_CQE_BUFFER_SHIFT) as u16))
            } else {
                None
            }),
    {
        if self.0 & IORING_CQE_F_BUFFER != 0 {
            Some(BufId((self.0 >> IORING_CQE_BUFFER_SHIFT) as u16))
        } else {
            None
        }
    }
}

impl Completion {
    /// The result as a count, or the error number if the operation failed.
    pub fn check_result(&self) -> (r: Result<u32, i32>)
        requires
            self.res != i32::MIN,
        ensures
            r == (if self.res >= 0 { Ok::<u32, i32>(self.res as u32) } else { Err((-self.res) as i32) }),
    {
        if self.res >= 0 {
            Ok(self.res as u32)
        } else {
            // If the result is negative then we return an error.
            Err(-self.res)
        }
    }
}

/// Error of an operation.
#[derive(Copy, Clone, Debug, PartialEq, Eq)]
pub enum OpError {
    /// The operating system's error number.
    Os(i32),
    /// The operation isn't supported by the running kernel.
    Unsupported,
}

/// Maps the error of an operation: an invalid argument means the kernel
/// doesn't know the operation, which a newer kernel would support.
pub fn fallback(err: OpError) -> (r: OpError)
    ensures
        r == (if err == OpError::Os(EINVAL) { OpError::Unsupported } else { err }),
{
    match err {
        OpError::Os(errno) => if errno == EINVAL {
            OpError::Unsupported
        } else {
            err
        },
        OpError::Unsupported => err,
    }
}

/// State of a queued operation.
#[derive(Debug)]
pub struct QueuedOperation {
    /// Results not yet taken by the `Future`.
    pub results: Vec<Completion>,
    /// The operation gives many results.
    pub multishot: bool,
    /// No more completion events will come.
    pub done: bool,
    /// The `Future` was dropped, no one will take the results.
    pub dropped: bool,
}

/// The state of a queued operation, as values.
pub ghost struct OpState {
    pub results: Seq<Completion>,
    pub multishot: bool,
    pub done: bool,
    pub dropped: bool,
}

impl QueuedOperation {
    /// The state as values.
    pub open spec fn state(&self) -> OpState {
        OpState {
            results: self.results@,
            multishot: self.multishot,
            done: self.done,
            dropped: self.dropped,
        }
    }
}

/// The slots as values.
pub open spec fn slot_states(ops: Seq<Option<QueuedOperation>>) -> Seq<Option<OpState>> {
    Seq::new(
        ops.len(),
        |i: int|
            match ops[i] {
                Some(op) => Some(op.state()),
                None => None,
            },
    )
}

/// A newly queued operation.
pub open spec fn new_operation(multishot: bool) -> OpState {
    OpState { results: Seq::empty(), multishot, done: false, dropped: false }
}

/// What [`QueuedOperations::complete`] did with a completion event.
#[derive(Copy, Clone, Debug, PartialEq, Eq)]
pub enum CompletionAction {
    /// The event was only meant to wake up the polling thread.
    WakeUp,
    /// An operation without a completion event failed.
    NoCompletionFailed,
    /// The event is for an id that no operation can have.
    Unknown,
    /// The operation is gone, the event is dropped.
    Gone,
    /// The result is stored and the `Future` must be woken; it takes the
    /// result once it's allowed to: a single result operation gives its result
    /// only after its last event.
    Wake,
    /// The `Future` was dropped and no more events come: the slot was made
    /// available again.
    Released,
}

/// What [`QueuedOperations::take_result`] found.
#[derive(Copy, Clone, Debug, PartialEq, Eq)]
pub enum Taken {
    /// The next result; `done` if no more events come for the operation,
    /// `last` if it was the last result (the id is then available again).
    Result { completion: Completion, done: bool, last: bool },
    /// No result yet.
    Pending,
    /// No more results will come (or the id isn't in use).
    Finished,
}

/// Table of queued operations, indexed by their id.
pub struct QueuedOperations {
    ops: Vec<Option<QueuedOperation>>,
    op_ids: AtomicBitMap,
}

impl QueuedOperations {
    /// The slots, `None` for available ids.
    pub closed spec fn spec_ops(&self) -> Seq<Option<OpState>> {
        slot_states(self.ops@)
    }

    /// Every slot is in use iff its id is claimed in the bitmap.
    pub closed spec fn wf(&self) -> bool {
        &&& self.ops@.len() == self.op_ids@.len()
        &&& forall|i: int|
            0 <= i < self.ops@.len() ==> (#[trigger] self.ops@[i] is Some) == self.op_ids@[i]
    }

    /// Create a table for at least `entries` operations, all ids available.
    pub fn new(entries: usize) -> (q: QueuedOperations)
        requires
            entries + 63 <= usize::MAX,
        ensures
            q.wf(),
            q.spec_ops().len() == crate::bitmap::rounded_capacity(entries as int),
            forall|i: int| 0 <= i < q.spec_ops().len() ==> #[trigger] q.spec_ops()[i] is None,
    {
        let op_ids = *AtomicBitMap::new(entries);
        let n = op_ids.capacity();
        let mut ops: Vec<Option<QueuedOperation>> = Vec::new();
        while ops.len() < n
            invariant
                ops@.len() <= n,
                n == op_ids@.len(),
                forall|i: int| 0 <= i < ops@.len() ==> #[trigger] ops@[i] is None,
            decreases n - ops.len(),
        {
            ops.push(None);
        }
        QueuedOperations { ops, op_ids }
    }

    /// Number of operations the table can hold.
    pub fn capacity(&self) -> (n: usize)
        ensures
            n == self.spec_ops().len(),
    {
        self.ops.len()
    }

    /// Returns true if the id is in use.
    pub fn is_queued(&self, id: usize) -> (r: bool)
        ensures
            r == (id < self.spec_ops().len() && self.spec_ops()[id as int] is Some),
    {
        id < self.ops.len() && self.ops[id].is_some()
    }

    /// Takes the slot `id` out, leaving it empty.
    fn take_slot(&mut self, id: usize) -> (slot: Option<QueuedOperation>)
        requires
            id < old(self).ops@.len(),
        ensures
            slot == old(self).ops@[id as int],
            final(self).ops@ == old(self).ops@.update(id as int, None),
            final(self).op_ids == old(self).op_ids,
    {
        let mut slot = None;
        std::mem::swap(&mut slot, &mut self.ops[id]);
        slot
    }

    /// Puts `op` in slot `id`, which was taken out.
    fn put_slot(&mut self, id: usize, op: QueuedOperation)
        requires
            id < old(self).ops@.len(),
            old(self).ops@.len() == old(self).op_ids@.len(),
            old(self).op_ids@[id as int],
            forall|i: int|
                0 <= i < old(self).ops@.len() && i != id ==> (#[trigger] old(self).ops@[i] is Some)
                    == old(self).op_ids@[i],
        ensures
            final(self).wf(),
            final(self).ops@ == old(self).ops@.update(id as int, Some(op)),
            final(self).op_ids == old(self).op_ids,
    {
        self.ops.set(id, Some(op));
    }

    /// Frees the slot `id` that was taken out, making the id available again.
    fn release(&mut self, id: usize)
        requires
            id < old(self).ops@.len(),
            old(self).ops@.len() == old(self).op_ids@.len(),
            old(self).ops@[id as int] is None,
            old(self).op_ids@[id as int],
            forall|i: int|
                0 <= i < old(self).ops@.len() && i != id ==> (#[trigger] old(self).ops@[i] is Some)
                    == old(self).op_ids@[i],
        ensures
            final(self).wf(),
            final(self).ops@ == old(self).ops@,
    {
        self.op_ids.make_available(id);
    }

    /// Queue a new operation, returning its id: the lowest available one.
    pub fn queue(&mut self, multishot: bool) -> (r: Result<usize, QueueFull>)
        requires
            old(self).wf(),
        ensures
            final(self).wf(),
            match r {
                Ok(id) => {
                    &&& id < old(self).spec_ops().len()
                    &&& old(self).spec_ops()[id as int] is None
                    &&& forall|j: int| 0 <= j < id ==> #[trigger] old(self).spec_ops()[j] is Some
                    &&& final(self).spec_ops() == old(self).spec_ops().update(
                        id as int,
                        Some(new_operation(multishot)),
                    )
                },
                Err(_) => {
                    &&& forall|j: int|
                        0 <= j < old(self).spec_ops().len() ==> #[trigger] old(self).spec_ops()[j] is Some
                    &&& final(self).spec_ops() == old(self).spec_ops()
                },
            },
    {
        match self.op_ids.next_available() {
            Some(id) => {
                let op = QueuedOperation { results: Vec::new(), multishot, done: false, dropped: false };
                self.ops.set(id, Some(op));
                proof {
                    assert forall|i: int| 0 <= i < self.ops@.len() implies (#[trigger] self.ops@[i] is Some)
                        == self.op_ids@[i] by {
                        if i != id {
                            assert(old(self).ops@[i] is Some == old(self).op_ids@[i]);
                        }
                    }
                    assert forall|j: int| 0 <= j < id implies #[trigger] old(self).spec_ops()[j] is Some by {
                        assert(old(self).op_ids@[j]);
                    }
                    assert(self.spec_ops() =~= old(self).spec_ops().update(id as int, Some(new_operation(multishot))));
                }
                Ok(id)
            },
            None => {
                proof {
                    assert forall|j: int| 0 <= j < old(self).spec_ops().len() implies
                        #[trigger] old(self).spec_ops()[j] is Some by {
                        assert(old(self).op_ids@[j]);
                    }
                }
                Err(QueueFull)
            },
        }
    }

    /// Process a completion event.
    ///
    /// The result is stored for the operation and its `Future` is woken for
    /// every event, unless the `Future` was dropped and this is its last
    /// event: then the slot is made available again.
    pub fn complete(&mut self, completion: Completion) -> (action: CompletionAction)
        requires
            old(self).wf(),
        ensures
            final(self).wf(),
            action == completion_action(old(self).spec_ops(), completion),
            final(self).spec_ops() == completed(old(self).spec_ops(), completion),
    {
        let id = completion.id();
        if id >= self.ops.len() {
            if id == WAKE_ID {
                return CompletionAction::WakeUp;
            } else if id == NO_COMPLETION_ID {
                return CompletionAction::NoCompletionFailed;
            } else {
                return CompletionAction::Unknown;
            }
        }
        proof {
            assert(old(self).ops@[id as int] is Some == old(self).op_ids@[id as int]);
        }
        match self.take_slot(id) {
            None => CompletionAction::Gone,
            Some(mut op) => {
                let more_events = completion.more_events();
                if op.multishot {
                    op.results.push(completion);
                } else if completion.flags & IORING_CQE_F_NOTIF == 0 {
                    // A zero copy notification only marks the operation
                    // done, it doesn't overwrite the result.
                    op.results = Vec::new();
                    op.results.push(completion);
                }
                op.done = !more_events;
                if op.dropped && !more_events {
                    // The Future was previously dropped so no one is waiting
                    // on the result. We can make the slot available again.
                    self.release(id);
                    proof {
                        assert(self.spec_ops() =~= completed(old(self).spec_ops(), completion));
                    }
                    CompletionAction::Released
                } else {
                    self.put_slot(id, op);
                    proof {
                        assert(self.spec_ops() =~= completed(old(self).spec_ops(), completion));
                    }
                    CompletionAction::Wake
                }
            },
        }
    }

    /// Take the next result of the operation `id` for its `Future`.
    ///
    /// A single result operation gives its result once it's done; a multishot
    /// operation gives its results in order. The slot is made available again
    /// once the last result is taken.
    pub fn take_result(&mut self, id: usize) -> (r: Taken)
        requires
            old(self).wf(),
        ensures
            final(self).wf(),
            r == taken_result(old(self).spec_ops(), id as int),
            final(self).spec_ops() == taken(old(self).spec_ops(), id as int),
    {
        if id >= self.ops.len() {
            return Taken::Finished;
        }
        proof {
            assert(old(self).ops@[id as int] is Some == old(self).op_ids@[id as int]);
        }
        match self.take_slot(id) {
            None => Taken::Finished,
            Some(mut op) => {
                if op.results.len() == 0 {
                    if op.done {
                        self.release(id);
                        proof {
                            assert(self.spec_ops() =~= taken(old(self).spec_ops(), id as int));
                        }
                        Taken::Finished
                    } else {
                        self.put_slot(id, op);
                        proof {
                            assert(self.spec_ops() =~= taken(old(self).spec_ops(), id as int));
                        }
                        Taken::Pending
                    }
                } else if !op.multishot && !op.done {
                    self.put_slot(id, op);
                    proof {
                        assert(self.spec_ops() =~= taken(old(self).spec_ops(), id as int));
                    }
                    Taken::Pending
                } else {
                    let result = op.results.remove(0);
                    let done = op.done;
                    let last = op.results.len() == 0 && op.done;
                    if last {
                        self.release(id);
                    } else {
                        self.put_slot(id, op);
                    }
                    proof {
                        assert(self.spec_ops() =~= taken(old(self).spec_ops(), id as int));
                    }
                    Taken::Result { completion: result, done, last }
                }
            },
        }
    }

    /// The `Future` of operation `id` was dropped: if no more events come the
    /// slot is made available, else the slot is kept until the last event.
    pub fn drop_operation(&mut self, id: usize)
        requires
            old(self).wf(),
        ensures
            final(self).wf(),
            final(self).spec_ops() == dropped(old(self).spec_ops(), id as int),
    {
        if id >= self.ops.len() {
            return;
        }
        proof {
            assert(old(self).ops@[id as int] is Some == old(self).op_ids@[id as int]);
        }
        match self.take_slot(id) {
            Some(mut op) => {
                if op.done {
                    self.release(id);
                } else {
                    op.dropped = true;
                    self.put_slot(id, op);
                }
                proof {
                    assert(self.spec_ops() =~= dropped(old(self).spec_ops(), id as int));
                }
            },
            None => {
                proof {
                    assert(self.spec_ops() =~= dropped(old(self).spec_ops(), id as int));
                }
            },
        }
    }
}

/// What [`QueuedOperations::complete`] does with `completion`.
pub open spec fn completion_action(ops: Seq<Option<OpState>>, completion: Completion) -> CompletionAction {
    let id = (completion.user_data as usize) as int;
    if id >= ops.len() {
        if id == WAKE_ID {
            CompletionAction::WakeUp
        } else if id == NO_COMPLETION_ID {
            CompletionAction::NoCompletionFailed
        } else {
            CompletionAction::Unknown
        }
    } else {
        match ops[id] {
            None => CompletionAction::Gone,
            Some(op) => if op.dropped && completion.flags & IORING_CQE_F_MORE == 0 {
                CompletionAction::Released
            } else {
                CompletionAction::Wake
            },
        }
    }
}

/// The results of an operation after `completion` arrived: appended for a
/// multishot operation, replaced for others (unless it's only a zero copy
/// notification).
pub open spec fn updated_results(op: OpState, completion: Completion) -> Seq<Completion> {
    if op.multishot {
        op.results.push(completion)
    } else if completion.flags & IORING_CQE_F_NOTIF == 0 {
        seq![completion]
    } else {
        op.results
    }
}

/// The slots after [`QueuedOperations::complete`] processed `completion`.
pub open spec fn completed(ops: Seq<Option<OpState>>, completion: Completion) -> Seq<Option<OpState>> {
    let id = (completion.user_data as usize) as int;
    if id >= ops.len() {
        ops
    } else {
        match ops[id] {
            None => ops,
            Some(op) => if op.dropped && completion.flags & IORING_CQE_F_MORE == 0 {
                ops.update(id, None)
            } else {
                ops.update(
                    id,
                    Some(
                        OpState {
                            results: updated_results(op, completion),
                            done: completion.flags & IORING_CQE_F_MORE == 0,
                            ..op
                        },
                    ),
                )
            },
        }
    }
}

/// What [`QueuedOperations::take_result`] returns for `id`.
pub open spec fn taken_result(ops: Seq<Option<OpState>>, id: int) -> Taken {
    if 0 <= id < ops.len() {
        match ops[id] {
            Some(op) => if op.results.len() == 0 {
                if op.done {
                    Taken::Finished
                } else {
                    Taken::Pending
                }
            } else if !op.multishot && !op.done {
                Taken::Pending
            } else {
                Taken::Result {
                    completion: op.results[0],
                    done: op.done,
                    last: op.results.len() == 1 && op.done,
                }
            },
            None => Taken::Finished,
        }
    } else {
        Taken::Finished
    }
}

/// The slots after [`QueuedOperations::take_result`] for `id`.
pub open spec fn taken(ops: Seq<Option<OpState>>, id: int) -> Seq<Option<OpState>> {
    if 0 <= id < ops.len() {
        match ops[id] {
            Some(op) => if op.results.len() == 0 {
                if op.done {
                    ops.update(id, None)
                } else {
                    ops
                }
            } else if !op.multishot && !op.done {
                ops
            } else if op.results.len() == 1 && op.done {
                ops.update(id, None)
            } else {
                ops.update(id, Some(OpState { results: op.results.drop_first(), ..op }))
            },
            None => ops,
        }
    } else {
        ops
    }
}

/// The slots after [`QueuedOperations::drop_operation`] for `id`.
pub open spec fn dropped(ops: Seq<Option<OpState>>, id: int) -> Seq<Option<OpState>> {
    if 0 <= id < ops.len() {
        match ops[id] {
            Some(op) => if op.done {
                ops.update(id, None)
            } else {
                ops.update(id, Some(OpState { dropped: true, ..op }))
            },
            None => ops,
        }
    } else {
        ops
    }
}

/// The completion the `Future` takes, if any.
pub open spec fn taken_completion(t: Taken) -> Option<Completion> {
    match t {
        Taken::Result { completion, .. } => Some(completion),
        _ => None,
    }
}

/// The last completion event of a queued single result operation wakes its
/// `Future`, which takes that result, after which the operation's id is
/// available again.
pub proof fn lemma_complete_then_take(ops: Seq<Option<OpState>>, completion: Completion)
    requires
        (completion.user_data as usize) < ops.len(),
        ops[(completion.user_data as usize) as int] == Some(new_operation(false)),
        completion.flags & IORING_CQE_F_MORE == 0,
        completion.flags & IORING_CQE_F_NOTIF == 0,
    ensures
        completion_action(ops, completion) == CompletionAction::Wake,
        taken_result(completed(ops, completion), (completion.user_data as usize) as int)
            == (Taken::Result { completion, done: true, last: true }),
        taken(completed(ops, completion), (completion.user_data as usize) as int) == ops.update(
            (completion.user_data as usize) as int,
            None,
        ),
{
    let id = (completion.user_data as usize) as int;
    assert(completed(ops, completion).update(id, None) =~= ops.update(id, None));
}

/// A single result operation gives no result before its last completion
/// event, though every event wakes its `Future`: a zero copy send first
/// reports the bytes sent and then, in its last event, that the buffer can be
/// reused.
pub proof fn lemma_single_result_waits_for_last_event(
    ops: Seq<Option<OpState>>,
    first: Completion,
    last: Completion,
)
    requires
        first.user_data == last.user_data,
        (first.user_data as usize) < ops.len(),
        ops[(first.user_data as usize) as int] == Some(new_operation(false)),
        first.flags & IORING_CQE_F_MORE != 0,
        first.flags & IORING_CQE_F_NOTIF == 0,
        last.flags & IORING_CQE_F_MORE == 0,
        last.flags & IORING_CQE_F_NOTIF != 0,
    ensures
        completion_action(ops, first) == CompletionAction::Wake,
        taken_result(completed(ops, first), (first.user_data as usize) as int) == Taken::Pending,
        completion_action(completed(ops, first), last) == CompletionAction::Wake,
        taken_result(completed(completed(ops, first), last), (first.user_data as usize) as int)
            == (Taken::Result { completion: first, done: true, last: true }),
{
}

/// A multishot operation gives its results in the order the events came.
pub proof fn lemma_multishot_order(ops: Seq<Option<OpState>>, first: Completion, second: Completion)
    requires
        first.user_data == second.user_data,
        (first.user_data as usize) < ops.len(),
        ops[(first.user_data as usize) as int] == Some(new_operation(true)),
        first.flags & IORING_CQE_F_MORE != 0,
    ensures
        completion_action(ops, first) == CompletionAction::Wake,
        taken_completion(
            taken_result(completed(completed(ops, first), second), (first.user_data as usize) as int),
        ) == Some(first),
        taken_completion(
            taken_result(
                taken(completed(completed(ops, first), second), (first.user_data as usize) as int),
                (first.user_data as usize) as int,
            ),
        ) == Some(second),
{
    let id = (first.user_data as usize) as int;
    let after = completed(completed(ops, first), second);
    assert(after[id]->Some_0.results =~= seq![first, second]);
    assert(seq![first, second].drop_first() =~= seq![second]);
}

/// When the `Future` of an operation is dropped before its last completion
/// event, the operation stays until that last event, which makes the
/// operation's id available again.
pub proof fn lemma_drop_then_complete(ops: Seq<Option<OpState>>, completion: Completion)
    requires
        (completion.user_data as usize) < ops.len(),
        ops[(completion.user_data as usize) as int] is Some,
        !ops[(completion.user_data as usize) as int]->Some_0.done,
    ensures
        completion.flags & IORING_CQE_F_MORE == 0 ==> completion_action(
            dropped(ops, (completion.user_data as usize) as int),
            completion,
        ) == CompletionAction::Released,
        completion.flags & IORING_CQE_F_MORE == 0 ==> completed(
            dropped(ops, (completion.user_data as usize) as int),
            completion,
        ) == ops.update((completion.user_data as usize) as int, None),
        completion.flags & IORING_CQE_F_MORE != 0 ==> (completed(
            dropped(ops, (completion.user_data as usize) as int),
            completion,
        )[(completion.user_data as usize) as int] matches Some(op) && op.dropped && !op.done),
{
    let id = (completion.user_data as usize) as int;
    assert(dropped(ops, id).update(id, None) =~= ops.update(id, None));
}

/// Events for ids outside the table leave it unchanged.
pub proof fn lemma_foreign_events_change_nothing(ops: Seq<Option<OpState>>, completion: Completion)
    requires
        (completion.user_data as usize) >= ops.len(),
    ensures
        completed(ops, completion) == ops,
        completion_action(ops, completion) != CompletionAction::Wake,
        completion_action(ops, completion) != CompletionAction::Released,
{
}

/// What the `Future` of an operation does with what it took.
#[derive(Copy, Clone, Debug, PartialEq, Eq)]
pub enum PollOutcome {
    /// Wait for the next completion event.
    Pending,
    /// The operation succeeded with result `res`, with the completion flags.
    Ready { res: u32, flags: u32 },
    /// The operation failed.
    Failed(OpError),
    /// The operation was interrupted or canceled: it is submitted again, so
    /// callers don't have to deal with these errors.
    Restart,
    /// A multishot operation gave all its results.
    Done,
}

/// The operation was interrupted or canceled.
pub open spec fn is_restart_error(res: i32) -> bool {
    res == -EINTR || res == -ECANCELED
}

/// What the `Future` does with `taken`.
///
/// An error of a multishot operation that goes on is returned as is; an
/// error that ends an operation is retried if it's an interruption or
/// cancellation, else mapped by [`fallback`].
pub open spec fn poll_outcome_of(taken: Taken) -> PollOutcome {
    match taken {
        Taken::Pending => PollOutcome::Pending,
        Taken::Finished => PollOutcome::Done,
        Taken::Result { completion, done, .. } => if completion.res >= 0 {
            PollOutcome::Ready { res: completion.res as u32, flags: completion.flags }
        } else if !done {
            PollOutcome::Failed(OpError::Os(-completion.res as i32))
        } else if is_restart_error(completion.res) {
            PollOutcome::Restart
        } else if -completion.res == EINVAL {
            PollOutcome::Failed(OpError::Unsupported)
        } else {
            PollOutcome::Failed(OpError::Os(-completion.res as i32))
        },
    }
}

/// Decide what the `Future` of an operation does with what
/// [`QueuedOperations::take_result`] returned.
///
/// An operation is only restarted once it gave its last result.
pub fn poll_outcome(taken: Taken) -> (o: PollOutcome)
    requires
        taken matches Taken::Result { completion, .. } ==> completion.res != i32::MIN,
        taken matches Taken::Result { completion, done, last } ==> (done && is_restart_error(
            completion.res,
        ) ==> last),
    ensures
        o == poll_outcome_of(taken),
{
    match taken {
        Taken::Pending => PollOutcome::Pending,
        Taken::Finished => PollOutcome::Done,
        Taken::Result { completion, done, .. } => match completion.check_result() {
            Ok(res) => PollOutcome::Ready { res, flags: completion.flags },
            Err(errno) => if !done {
                // A multishot operation that goes on.
                PollOutcome::Failed(OpError::Os(errno))
            } else if errno == EINTR || errno == ECANCELED {
                // If the operation was interrupted or canceled we restart it
                // so callers don't have to deal with the errors.
                PollOutcome::Restart
            } else {
                PollOutcome::Failed(fallback(OpError::Os(errno)))
            },
        },
    }
}

/// What the `Future` of an operation gets from what it took: a completion
/// with a non-negative result is that result, with the completion's flags,
/// whether or not more results come; a negative result is the error it
/// names, an interruption or cancellation of a finished operation is tried
/// again and an invalid argument means the kernel doesn't know the
/// operation. Nothing taken yet is waited for, no more results end it.
pub proof fn lemma_poll_outcome(completion: Completion, done: bool, last: bool)
    ensures
        completion.res >= 0 ==> poll_outcome_of(Taken::Result { completion, done, last })
            == (PollOutcome::Ready { res: completion.res as u32, flags: completion.flags }),
        completion.res < 0 && !done ==> poll_outcome_of(Taken::Result { completion, done, last })
            == PollOutcome::Failed(OpError::Os(-completion.res as i32)),
        completion.res < 0 && done && (completion.res == -4 || completion.res == -125)
            ==> poll_outcome_of(Taken::Result { completion, done, last }) == PollOutcome::Restart,
        completion.res == -22 && done ==> poll_outcome_of(Taken::Result { completion, done, last })
            == PollOutcome::Failed(OpError::Unsupported),
        completion.res < 0 && done && completion.res != -4 && completion.res != -125
            && completion.res != -22 ==> poll_outcome_of(Taken::Result { completion, done, last })
            == PollOutcome::Failed(OpError::Os(-completion.res as i32)),
        poll_outcome_of(Taken::Pending) == PollOutcome::Pending,
        poll_outcome_of(Taken::Finished) == PollOutcome::Done,
{
}

} // verus!
