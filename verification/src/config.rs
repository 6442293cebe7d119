//! Configuration of a [`Ring`].

use vstd::prelude::*;

use crate::cq::QueuedOperations;
use crate::kqueue::{ChangeList, KEvent};
use crate::ring::Ring;

verus! {

/// Configuration of a [`Ring`].
///
/// Created by calling [`Ring::config`].
#[derive(Copy, Clone, Debug, PartialEq, Eq)]
pub struct Config {
    /// Number of operations that can be in progress at the same time.
    pub queued_operations: usize,
    /// Maximum number of events collected in a single call to `kevent(2)`.
    pub max_events: Option<usize>,
    /// Maximum number of submissions buffered before submitting them to the
    /// kernel.
    pub max_change_list_size: Option<usize>,
}

/// Maximum number of events collected by `kevent(2)`: as set, or the number
/// of queued operations.
pub open spec fn spec_max_events(config: Config) -> usize {
    match config.max_events {
        Some(n) => n,
        None => config.queued_operations,
    }
}

/// Maximum number of buffered changes: as set, or 64.
pub open spec fn spec_max_change_list_size(config: Config) -> usize {
    match config.max_change_list_size {
        Some(n) => n,
        None => 64,
    }
}

impl Config {
    /// Configuration for a ring keeping track of `queued_operations`
    /// operations.
    pub fn new(queued_operations: usize) -> (c: Config)
        ensures
            c == (Config { queued_operations, max_events: None, max_change_list_size: None }),
    {
        Config { queued_operations, max_events: None, max_change_list_size: None }
    }

    /// Set the maximum number of events that can be collected in a single call
    /// to `kevent(2)`.
    ///
    /// Defaults to the same value as the maximum number of queued operations.
    pub fn max_events(self, max_events: usize) -> (c: Self)
        ensures
            c == (Config { max_events: Some(max_events), ..self }),
    {
        Config { max_events: Some(max_events), ..self }
    }

    /// Set the maximum number of submissions that are buffered before
    /// submitting to the kernel, without waiting on a call to [`Ring::poll`].
    ///
    /// This must be larger or equal to [`Config::max_events`]. Defaults to 64
    /// changes.
    pub fn max_change_list_size(self, max: usize) -> (c: Self)
        ensures
            c == (Config { max_change_list_size: Some(max), ..self }),
    {
        Config { max_change_list_size: Some(max), ..self }
    }

    /// The maximum number of events per `kevent(2)` call and of buffered
    /// changes this configuration gives.
    pub fn kqueue_sizes(&self) -> (r: (usize, usize))
        ensures
            r == (spec_max_events(*self), spec_max_change_list_size(*self)),
    {
        let max_events = match self.max_events {
            Some(n) => n,
            None => self.queued_operations,
        };
        let max_change_list_size = match self.max_change_list_size {
            Some(n) => n,
            None => 64,
        };
        (max_events, max_change_list_size)
    }

    /// The empty change list of a kqueue built with this configuration: its
    /// changes are submitted once it holds the maximum number of changes.
    pub fn change_list(&self) -> (l: ChangeList)
        ensures
            l.changes@ == Seq::<KEvent>::empty(),
            l.max_size == spec_max_change_list_size(*self),
    {
        let (_, max_change_list_size) = self.kqueue_sizes();
        ChangeList::new(max_change_list_size)
    }

    /// Build a new [`Ring`].
    pub fn build(self) -> (ring: Ring)
        requires
            self.queued_operations + 63 <= usize::MAX,
        ensures
            ring.wf(),
            ring.spec_config() == self,
            ring.spec_ops().len() == crate::bitmap::rounded_capacity(self.queued_operations as int),
            forall|i: int| 0 <= i < ring.spec_ops().len() ==> #[trigger] ring.spec_ops()[i] is None,
    {
        let ops = QueuedOperations::new(self.queued_operations);
        Ring::from_parts(self, ops)
    }
}

} // verus!
