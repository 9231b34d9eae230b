//! Execution core of a time-stepped circuit simulator: an exclusive-ownership
//! store, the state of signal carriers and delayed drivers, and the decisions
//! of the phased step scheduler.

use vstd::prelude::*;

pub mod error;
pub mod library;
pub mod opin;
pub mod sim;
pub mod wire;

verus! {

/// Identifier used to look up simulation components.
pub type Id = usize;

/// Iterator over the identifiers `0..end`, in ascending order.
pub struct IdIter {
    /// Next identifier to hand out.
    id: Id,
    /// Iteration terminator (exclusive).
    end: Id,
}

impl IdIter {
    pub closed spec fn wf(&self) -> bool {
        self.id <= self.end
    }

    pub closed spec fn next_id(&self) -> Id {
        self.id
    }

    pub closed spec fn end_id(&self) -> Id {
        self.end
    }

    /// Create an iterator over `0..end`.
    pub fn new(end: Id) -> (r: Self)
        ensures
            r.wf(),
            r.next_id() == 0,
            r.end_id() == end,
    {
        Self { id: 0, end }
    }

    /// Hand out the next identifier, or `None` once `end` is reached.
    pub fn next(&mut self) -> (r: Option<Id>)
        requires
            old(self).wf(),
        ensures
            final(self).wf(),
            final(self).end_id() == old(self).end_id(),
            old(self).next_id() < old(self).end_id() ==> r == Some(old(self).next_id())
                && final(self).next_id() == old(self).next_id() + 1,
            old(self).next_id() >= old(self).end_id() ==> r.is_none()
                && final(self).next_id() == old(self).next_id(),
    {
        let id = self.id;
        if id < self.end {
            self.id = id + 1;
            Some(id)
        } else {
            None
        }
    }

    /// Number of identifiers that are still to come.
    pub fn count(self) -> (r: usize)
        requires
            self.wf(),
        ensures
            r == self.end_id() - self.next_id(),
    {
        self.end - self.id
    }
}

} // verus!
