//! The [`Ring`]: the operations in progress and the processing of their
//! completions.

use vstd::prelude::*;

use crate::config::Config;
use crate::cq::{completed, completion_action, Completion, CompletionAction, OpState, QueuedOperations, Taken};
use crate::sq::QueueFull;

verus! {

/// The slots after processing `completions` in order.
pub open spec fn completed_all(
    ops: Seq<Option<OpState>>,
    completions: Seq<Completion>,
) -> Seq<Option<OpState>>
    decreases completions.len(),
{
    if completions.len() == 0 {
        ops
    } else {
        completed(completed_all(ops, completions.drop_last()), completions.last())
    }
}

/// Ring.
///
/// Keeps track of the operations in progress; [`Ring::poll`] processes their
/// completion events.
pub struct Ring {
    config: Config,
    ops: QueuedOperations,
}

impl Ring {
    /// The configuration the ring was built with.
    pub closed spec fn spec_config(&self) -> Config {
        self.config
    }

    /// The slots of the operations, `None` for available ids.
    pub closed spec fn spec_ops(&self) -> Seq<Option<OpState>> {
        self.ops.spec_ops()
    }

    /// The ring is consistent.
    pub closed spec fn wf(&self) -> bool {
        self.ops.wf()
    }

    pub(crate) fn from_parts(config: Config, ops: QueuedOperations) -> (ring: Ring)
        ensures
            ring.spec_config() == config,
            ring.spec_ops() == ops.spec_ops(),
            ring.wf() == ops.wf(),
    {
        Ring { config, ops }
    }

    /// Configure a `Ring` keeping track of `queued_operations` operations.
    pub fn config(queued_operations: usize) -> (c: Config)
        ensures
            c == (Config { queued_operations, max_events: None, max_change_list_size: None }),
    {
        Config::new(queued_operations)
    }

    /// Create a new `Ring` with the default configuration for
    /// `queued_operations` operations.
    pub fn new(queued_operations: usize) -> (ring: Ring)
        requires
            queued_operations + 63 <= usize::MAX,
        ensures
            ring.wf(),
            ring.spec_config() == (Config {
                queued_operations,
                max_events: None,
                max_change_list_size: None,
            }),
            ring.spec_ops().len() == crate::bitmap::rounded_capacity(queued_operations as int),
            forall|i: int| 0 <= i < ring.spec_ops().len() ==> #[trigger] ring.spec_ops()[i] is None,
    {
        Ring::config(queued_operations).build()
    }

    /// Returns the configuration of the ring.
    pub fn configuration(&self) -> (c: Config)
        ensures
            c == self.spec_config(),
    {
        self.config
    }

    /// Queue a new operation, returning its id.
    pub fn queue(&mut self, multishot: bool) -> (r: Result<usize, QueueFull>)
        requires
            old(self).wf(),
        ensures
            final(self).wf(),
            final(self).spec_config() == old(self).spec_config(),
            match r {
                Ok(id) => {
                    &&& id < old(self).spec_ops().len()
                    &&& old(self).spec_ops()[id as int] is None
                    &&& forall|j: int| 0 <= j < id ==> #[trigger] old(self).spec_ops()[j] is Some
                    &&& final(self).spec_ops() == old(self).spec_ops().update(
                        id as int,
                        Some(crate::cq::new_operation(multishot)),
                    )
                },
                Err(_) => {
                    &&& forall|j: int|
                        0 <= j < old(self).spec_ops().len() ==> #[trigger] old(self).spec_ops()[j] is Some
                    &&& final(self).spec_ops() == old(self).spec_ops()
                },
            },
    {
        self.ops.queue(multishot)
    }

    /// Take the result of operation `id`, see [`QueuedOperations::take_result`].
    pub fn take_result(&mut self, id: usize) -> (r: Taken)
        requires
            old(self).wf(),
        ensures
            final(self).wf(),
            final(self).spec_config() == old(self).spec_config(),
            r == crate::cq::taken_result(old(self).spec_ops(), id as int),
            final(self).spec_ops() == crate::cq::taken(old(self).spec_ops(), id as int),
    {
        self.ops.take_result(id)
    }

    /// The `Future` of operation `id` was dropped, see
    /// [`QueuedOperations::drop_operation`].
    pub fn drop_operation(&mut self, id: usize)
        requires
            old(self).wf(),
        ensures
            final(self).wf(),
            final(self).spec_config() == old(self).spec_config(),
            final(self).spec_ops() == crate::cq::dropped(old(self).spec_ops(), id as int),
    {
        self.ops.drop_operation(id)
    }

    /// Process the completion events the kernel returned when polled.
    ///
    /// Returns, for every event, what was done with it: the `Future`s of the
    /// events with [`CompletionAction::Wake`] must be woken.
    pub fn poll(&mut self, completions: &[Completion]) -> (actions: Vec<CompletionAction>)
        requires
            old(self).wf(),
        ensures
            final(self).wf(),
            final(self).spec_config() == old(self).spec_config(),
            final(self).spec_ops() == completed_all(old(self).spec_ops(), completions@),
            actions@.len() == completions@.len(),
            forall|i: int|
                0 <= i < completions@.len() ==> #[trigger] actions@[i] == completion_action(
                    completed_all(old(self).spec_ops(), completions@.subrange(0, i)),
                    completions@[i],
                ),
    {
        let mut actions: Vec<CompletionAction> = Vec::new();
        let mut i: usize = 0;
        while i < completions.len()
            invariant
                i <= completions@.len(),
                self.wf(),
                self.config == old(self).config,
                self.spec_ops() == completed_all(old(self).spec_ops(), completions@.subrange(0, i as int)),
                actions@.len() == i,
                forall|j: int|
                    0 <= j < i ==> #[trigger] actions@[j] == completion_action(
                        completed_all(old(self).spec_ops(), completions@.subrange(0, j)),
                        completions@[j],
                    ),
            decreases completions@.len() - i,
        {
            let action = self.ops.complete(completions[i]);
            actions.push(action);
            proof {
                let next = completions@.subrange(0, i as int + 1);
                assert(next.drop_last() =~= completions@.subrange(0, i as int));
                assert(next.last() == completions@[i as int]);
            }
            i += 1;
        }
        assert(completions@.subrange(0, completions@.len() as int) =~= completions@);
        actions
    }
}

} // verus!
