//! A store that holds items and lets them be checked out temporarily by Id.

use vstd::prelude::*;

use crate::error::SimError;
use crate::{Id, IdIter};

verus! {

/// A container that hands out exclusive, temporary ownership of its items by Id.
///
/// Each slot is either occupied (`Some`) or empty because its item is checked out
/// (`None`). Slots are only ever appended, never removed.
#[derive(Debug)]
pub struct Library<T> {
    /// The "shelves" of the Library.
    items: Vec<Option<T>>,
}

/// Whether every slot of a store model is occupied.
pub open spec fn all_present<T>(s: Seq<Option<T>>) -> bool {
    forall|i: int| 0 <= i < s.len() ==> (#[trigger] s[i]).is_some()
}

/// Whether `checkin(id, ..)` is accepted by a store whose model is `s`.
pub open spec fn checkin_ok<T>(s: Seq<Option<T>>, id: int) -> bool {
    0 <= id < s.len() && s[id].is_none()
}

/// The store model after `checkout(id)`.
pub open spec fn after_checkout<T>(s: Seq<Option<T>>, id: int) -> Seq<Option<T>> {
    if 0 <= id < s.len() {
        s.update(id, None)
    } else {
        s
    }
}

/// The store model after `checkin(id, item)`.
pub open spec fn after_checkin<T>(s: Seq<Option<T>>, id: int, item: T) -> Seq<Option<T>> {
    if checkin_ok(s, id) {
        s.update(id, Some(item))
    } else {
        s
    }
}

impl<T> View for Library<T> {
    type V = Seq<Option<T>>;

    closed spec fn view(&self) -> Seq<Option<T>> {
        self.items@
    }
}

impl<T> Library<T> {
    /// Create a new, empty Library.
    pub fn new() -> (r: Self)
        ensures
            r@ == Seq::<Option<T>>::empty(),
    {
        Self { items: Vec::new() }
    }

    /// Number of slots, occupied or not.
    pub fn len(&self) -> (r: usize)
        ensures
            r == self@.len(),
    {
        self.items.len()
    }

    /// Add a new item and return the Id under which it can be looked up later.
    pub fn add(&mut self, item: T) -> (r: Id)
        requires
            old(self)@.len() < usize::MAX,
        ensures
            r == old(self)@.len(),
            final(self)@ == old(self)@.push(Some(item)),
    {
        let result = self.items.len();
        self.items.push(Some(item));
        result
    }

    /// An iterator over every Id from 0 up to the number of slots, occupied or not.
    pub fn iter(&self) -> (r: IdIter)
        ensures
            r.wf(),
            r.next_id() == 0,
            r.end_id() == self@.len(),
    {
        IdIter::new(self.items.len())
    }

    /// Look at an item without checking it out: `None` when the slot is empty or
    /// does not exist.
    pub fn inspect(&self, id: Id) -> (r: &Option<T>)
        ensures
            id < self@.len() ==> *r == self@[id as int],
            id >= self@.len() ==> r.is_none(),
    {
        if id < self.items.len() {
            &self.items[id]
        } else {
            &None
        }
    }

    /// Check an item out, leaving its slot empty: `None` when the slot is already
    /// empty or does not exist.
    pub fn checkout(&mut self, id: Id) -> (r: Option<T>)
        ensures
            id < old(self)@.len() ==> r == old(self)@[id as int],
            id >= old(self)@.len() ==> r.is_none(),
            final(self)@ == after_checkout(old(self)@, id as int),
    {
        if id < self.items.len() {
            self.items[id].take()
        } else {
            None
        }
    }

    /// Check an item back into its empty slot.
    pub fn checkin(&mut self, id: Id, item: T) -> (r: Result<Id, SimError>)
        ensures
            checkin_ok(old(self)@, id as int) ==> r == Ok::<Id, SimError>(id),
            !checkin_ok(old(self)@, id as int) ==> r == Err::<Id, SimError>(
                SimError::InvalidCheckin,
            ),
            final(self)@ == after_checkin(old(self)@, id as int, item),
    {
        if id < self.items.len() && self.items[id].is_none() {
            self.items.set(id, Some(item));
            Ok(id)
        } else {
            Err(SimError::InvalidCheckin)
        }
    }

    /// Check that every item is checked in.
    pub fn audit(&self) -> (r: Result<(), SimError>)
        ensures
            all_present(self@) ==> r.is_ok(),
            !all_present(self@) ==> r == Err::<(), SimError>(SimError::IncompleteAudit),
    {
        let mut i: usize = 0;
        while i < self.items.len()
            invariant
                i <= self@.len(),
                forall|j: int| 0 <= j < i ==> (#[trigger] self@[j]).is_some(),
            decreases self@.len() - i,
        {
            if self.items[i].is_none() {
                return Err(SimError::IncompleteAudit);
            }
            i = i + 1;
        }
        Ok(())
    }
}

/// One call that changes a [`Library`], as it appears in a history of calls.
pub enum StoreOp<T> {
    Add(T),
    Checkout(Id),
    Checkin(Id, T),
}

/// The store model after one call.
pub open spec fn apply_op<T>(s: Seq<Option<T>>, op: StoreOp<T>) -> Seq<Option<T>> {
    match op {
        StoreOp::Add(item) => s.push(Some(item)),
        StoreOp::Checkout(id) => after_checkout(s, id as int),
        StoreOp::Checkin(id, item) => after_checkin(s, id as int, item),
    }
}

/// The store model after a history of calls on a new Library.
pub open spec fn replay<T>(ops: Seq<StoreOp<T>>) -> Seq<Option<T>>
    decreases ops.len(),
{
    if ops.len() == 0 {
        Seq::empty()
    } else {
        apply_op(replay(ops.drop_last()), ops.last())
    }
}

/// What one call adds to the balance of `id`: +1 for an accepted check-in,
/// -1 for a checkout that took an item, 0 otherwise.
pub open spec fn op_balance<T>(s: Seq<Option<T>>, op: StoreOp<T>, id: int) -> int {
    match op {
        StoreOp::Add(_) => 0,
        StoreOp::Checkout(k) => if k == id && 0 <= id < s.len() && s[id].is_some() {
            -1
        } else {
            0
        },
        StoreOp::Checkin(k, _) => if k == id && checkin_ok(s, id) {
            1
        } else {
            0
        },
    }
}

/// Accepted check-ins minus successful checkouts of `id` over a history of calls.
pub open spec fn balance<T>(ops: Seq<StoreOp<T>>, id: int) -> int
    decreases ops.len(),
{
    if ops.len() == 0 {
        0
    } else {
        balance(ops.drop_last(), id) + op_balance(replay(ops.drop_last()), ops.last(), id)
    }
}

proof fn lemma_balance_tracks_slot<T>(ops: Seq<StoreOp<T>>, id: int)
    requires
        0 <= id < replay(ops).len(),
    ensures
        replay(ops)[id].is_some() ==> balance(ops, id) == 0,
        replay(ops)[id].is_none() ==> balance(ops, id) == -1,
    decreases ops.len(),
{
    if ops.len() > 0 {
        let prev = ops.drop_last();
        if id < replay(prev).len() {
            lemma_balance_tracks_slot(prev, id);
        } else {
            lemma_balance_zero_before_add(prev, id);
        }
    }
}

proof fn lemma_balance_zero_before_add<T>(ops: Seq<StoreOp<T>>, id: int)
    requires
        id >= replay(ops).len(),
    ensures
        balance(ops, id) == 0,
    decreases ops.len(),
{
    if ops.len() > 0 {
        let prev = ops.drop_last();
        lemma_balance_zero_before_add(prev, id);
    }
}

/// For every history of `add`, `checkout` and `checkin` calls on a new Library,
/// an audit succeeds exactly when every added Id has been checked in, net, at
/// least as often as it was checked out.
pub proof fn lemma_audit_iff_balanced<T>(ops: Seq<StoreOp<T>>)
    ensures
        all_present(replay(ops)) <==> forall|id: int|
            0 <= id < replay(ops).len() ==> #[trigger] balance(ops, id) >= 0,
{
    let s = replay(ops);
    if all_present(s) {
        assert forall|id: int| 0 <= id < s.len() implies #[trigger] balance(ops, id) >= 0 by {
            assert(s[id].is_some());
            lemma_balance_tracks_slot(ops, id);
        }
    }
    if forall|id: int| 0 <= id < s.len() ==> #[trigger] balance(ops, id) >= 0 {
        assert forall|id: int| 0 <= id < s.len() implies (#[trigger] s[id]).is_some() by {
            assert(balance(ops, id) >= 0);
            lemma_balance_tracks_slot(ops, id);
        }
    }
}

/// A second check-in to the same Id, with no checkout in between, is refused
/// (with `InvalidCheckin`, by the contract of `checkin`), whatever became of
/// the first.
pub proof fn lemma_double_checkin_refused<T>(s: Seq<Option<T>>, id: int, first: T)
    ensures
        !checkin_ok(after_checkin(s, id, first), id),
{
}

} // verus!
