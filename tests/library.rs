use rvfs_sim_core::error::SimError;
use rvfs_sim_core::library::Library;
use rvfs_sim_core::{Id, IdIter};

#[test]
fn id_iter_create() {
    // GIVEN an Id endpoint
    let end: Id = 7;
    // WHEN an iterator is created
    let it = IdIter::new(end);
    // THEN creation succeeds and the iterator has "end" number of entries
    assert_eq!(end, it.count());
}

#[test]
fn id_iter_iterate() {
    // GIVEN an initialized iterator
    let mut it = IdIter::new(4);
    // THEN the iterator has the expected entries
    assert_eq!(Some(0), it.next());
    assert_eq!(Some(1), it.next());
    assert_eq!(Some(2), it.next());
    assert_eq!(Some(3), it.next());
    assert_eq!(None, it.next());
}

#[test]
fn id_iter_count_after_next_counts_what_remains() {
    let mut it = IdIter::new(5);
    it.next();
    it.next();
    assert_eq!(3, it.count());
    let mut done = IdIter::new(0);
    assert_eq!(None, done.next());
    assert_eq!(0, done.count());
}

#[test]
fn library_create() {
    // GIVEN a type to hold in the library
    // WHEN a library is created
    let lib = Library::<i32>::new();
    // THEN it is created and initially empty
    assert_eq!(0, lib.iter().count());
}

#[test]
fn library_add() {
    // GIVEN a new library
    let mut lib = Library::<i32>::new();
    // WHEN some items are inserted
    lib.add(102834);
    lib.add(-766);
    lib.add(0);
    // THEN the count is correct
    assert_eq!(3, lib.iter().count());
}

#[test]
fn library_add_returns_consecutive_ids() {
    let mut lib = Library::<i32>::new();
    assert_eq!(0, lib.add(5));
    assert_eq!(1, lib.add(6));
    assert_eq!(2, lib.add(7));
    assert_eq!(3, lib.len());
}

#[test]
fn library_inspect_valid_items() {
    // GIVEN a new library
    let mut lib = Library::<i32>::new();
    // WHEN some items are inserted
    lib.add(102834);
    lib.add(-766);
    lib.add(0);
    // THEN the items can be inspected
    let mut it = lib.iter();
    assert_eq!(Some(102834), *lib.inspect(it.next().unwrap()));
    assert_eq!(Some(-766), *lib.inspect(it.next().unwrap()));
    assert_eq!(Some(0), *lib.inspect(it.next().unwrap()));
}

#[test]
fn library_inspect_invalid_item() {
    // GIVEN a new library
    let mut lib = Library::<i32>::new();
    // WHEN an item is inserted
    lib.add(102834);
    // THEN inspecting a non-existent item returns None
    let mut it = lib.iter();
    assert_eq!(Some(102834), *lib.inspect(it.next().unwrap()));
    assert_eq!(None, it.next());
    assert_eq!(None, *lib.inspect(17));
}

#[test]
fn library_checkout() {
    // GIVEN a library containing some items
    let mut lib = Library::<i32>::new();
    lib.add(102834);
    let id = lib.add(-766);
    lib.add(0);
    // WHEN an item is checked out
    let item = lib.checkout(id);
    // THEN the checked out item has the expected value, and inspecting or checking out that ID returns None
    assert_eq!(Some(-766), item);
    assert_eq!(None, *lib.inspect(id));
    assert_eq!(None, lib.checkout(id));
}

#[test]
fn library_checkout_invalid() {
    // GIVEN a library containing some items
    let mut lib = Library::<i32>::new();
    lib.add(102834);
    lib.add(-766);
    lib.add(0);
    // WHEN an invalid item is checked out
    let item = lib.checkout(7);
    // THEN the checked out item is None
    assert_eq!(None, item);
}

#[test]
fn library_checkin() {
    // GIVEN a library containing some items, with an item checked out
    let mut lib = Library::<i32>::new();
    lib.add(102834);
    lib.add(-766);
    let item = lib.checkout(0);
    // WHEN the item is checked back in
    assert!(item.is_some());
    let result = lib.checkin(0, item.unwrap());
    // THEN check-in succeeds and it is back in the expected location
    assert!(result.is_ok());
    assert_eq!(Some(102834), *lib.inspect(0));
}

#[test]
fn library_checkin_returns_id() {
    let mut lib = Library::<i32>::new();
    lib.add(1);
    lib.add(2);
    let item = lib.checkout(1).unwrap();
    assert_eq!(Ok(1), lib.checkin(1, item));
    assert_eq!(Some(2), *lib.inspect(1));
}

#[test]
fn library_checkin_out_of_range_is_invalid() {
    let mut lib = Library::<i32>::new();
    lib.add(1);
    assert_eq!(Err(SimError::InvalidCheckin), lib.checkin(4, 9));
    assert_eq!(1, lib.len());
}

#[test]
fn library_checkin_to_occupied_slot_is_invalid() {
    let mut lib = Library::<i32>::new();
    lib.add(1);
    assert_eq!(Err(SimError::InvalidCheckin), lib.checkin(0, 9));
    assert_eq!(Some(1), *lib.inspect(0));
}

#[test]
fn library_double_checkin_is_invalid() {
    let mut lib = Library::<i32>::new();
    lib.add(1);
    let item = lib.checkout(0).unwrap();
    assert_eq!(Ok(0), lib.checkin(0, item));
    assert_eq!(Err(SimError::InvalidCheckin), lib.checkin(0, 5));
    assert_eq!(Some(1), *lib.inspect(0));
}

#[test]
fn library_audit_missing() {
    // GIVEN a library containing some items, with an item checked out
    let mut lib = Library::<i32>::new();
    lib.add(102834);
    lib.add(-766);
    let item = lib.checkout(0);
    // WHEN the library is audited
    assert!(item.is_some());
    let result = lib.audit();
    // THEN the audit fails
    assert!(result.is_err());
}

#[test]
fn library_audit_all_present() {
    // GIVEN a library containing some items, with an item checked out
    let mut lib = Library::<i32>::new();
    lib.add(102834);
    lib.add(-766);
    let item = lib.checkout(0);
    // WHEN item is checked in and the library is audited
    assert!(item.is_some());
    let result = lib.checkin(0, item.unwrap());
    assert!(result.is_ok());
    let result = lib.audit();
    // THEN the audit succeeds
    assert!(result.is_ok());
}

#[test]
fn library_audit_follows_net_checkins() {
    let mut lib = Library::<i32>::new();
    assert_eq!(Ok(()), lib.audit());
    lib.add(1);
    lib.add(2);
    lib.add(3);
    let a = lib.checkout(2).unwrap();
    let b = lib.checkout(0).unwrap();
    assert_eq!(None, lib.checkout(0));
    assert_eq!(Err(SimError::IncompleteAudit), lib.audit());
    assert_eq!(Ok(2), lib.checkin(2, a));
    assert_eq!(Err(SimError::IncompleteAudit), lib.audit());
    assert_eq!(Ok(0), lib.checkin(0, b));
    assert_eq!(Ok(()), lib.audit());
}
