use vibe_git::locks::LockTable;

#[test]
fn a_held_lock_cannot_be_taken_again() {
    let mut table = LockTable::new();
    assert!(!table.holds("/wt/a"));
    assert!(table.try_acquire("/wt/a"));
    assert!(table.holds("/wt/a"));
    assert!(!table.try_acquire("/wt/a"));
    assert!(table.holds("/wt/a"));
    table.release("/wt/a");
    assert!(!table.holds("/wt/a"));
    assert!(table.try_acquire("/wt/a"));
}

#[test]
fn locks_of_different_paths_do_not_wait_on_each_other() {
    let mut table = LockTable::new();
    assert!(table.try_acquire("/wt/p"));
    assert!(table.try_acquire("/wt/q"));
    assert!(table.holds("/wt/p") && table.holds("/wt/q"));
    table.release("/wt/p");
    assert!(!table.holds("/wt/p"));
    assert!(table.holds("/wt/q"));
    assert!(!table.try_acquire("/wt/q"));
    table.release("/never/locked");
    assert!(table.holds("/wt/q"));
}
