use sync_primitives::protocol::new_block;

#[test]
fn fresh_block_counters() {
    let b = new_block();
    assert_eq!(b.strong, 1);
    assert_eq!(b.weak, 1);
    assert_eq!(b.destroys, 0);
    assert_eq!(b.frees, 0);
}

#[test]
fn clone_then_drop_destroys_exactly_once() {
    // one handle, cloned twice more: three owners in all
    let mut b = new_block();
    b.clone_strong();
    b.clone_strong();
    assert_eq!(b.strong, 3);

    // dropping two of the three leaves the payload alive
    assert!(!b.drop_strong());
    assert!(!b.drop_strong());
    assert_eq!(b.destroys, 0);

    // the last drop destroys it exactly once and frees the block
    assert!(b.drop_strong());
    assert_eq!(b.destroys, 1);
    assert_eq!(b.frees, 1);
    assert_eq!(b.weak, 0);
}

#[test]
fn get_mut_check_exact_conditions() {
    // sole strong handle, no weak handle: access granted
    let mut b = new_block();
    assert!(b.get_mut_check());

    // a second strong handle: refused
    b.clone_strong();
    assert!(!b.get_mut_check());
    b.drop_strong();

    // a weak handle instead: refused, and granted again once it is gone
    b.downgrade();
    assert!(!b.get_mut_check());
    b.drop_weak();
    assert!(b.get_mut_check());

    // the check never changes the counters
    assert_eq!(b.strong, 1);
    assert_eq!(b.weak, 1);
}

#[test]
fn downgrade_then_upgrade_succeeds_while_strong_remains() {
    let mut b = new_block();
    b.downgrade();
    assert_eq!(b.weak, 2);
    assert!(b.upgrade());
    assert_eq!(b.strong, 2);
}

#[test]
fn upgrade_fails_once_strong_handles_are_gone() {
    let mut b = new_block();
    b.downgrade();
    // dropping the only strong handle destroys the payload ...
    assert!(b.drop_strong());
    assert_eq!(b.destroys, 1);
    // ... but the weak handle keeps the block allocated
    assert_eq!(b.frees, 0);
    // an upgrade now yields nothing and moves no counter
    assert!(!b.upgrade());
    assert_eq!(b.strong, 0);
    // dropping the last weak handle frees the block
    assert!(b.drop_weak());
    assert_eq!(b.frees, 1);
}

#[test]
fn weak_clone_and_drop_keep_payload_untouched() {
    let mut b = new_block();
    b.downgrade();
    b.clone_weak();
    assert_eq!(b.weak, 3);
    assert!(!b.drop_weak());
    assert!(!b.drop_weak());
    assert_eq!(b.weak, 1);
    assert_eq!(b.destroys, 0);
    assert_eq!(b.frees, 0);
}
