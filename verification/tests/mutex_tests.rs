use sync_primitives::mutex::SpinLock;

#[test]
fn lock_hands_out_the_value_and_unlock_returns_it() {
    let mut lock = SpinLock::new(0);
    let mut guard = lock.lock();
    *guard.deref_mut() = 2;
    assert_eq!(*guard.deref(), 2);
    lock.unlock(guard);

    // the mutation survives a release and a fresh acquisition
    let guard = lock.lock();
    assert_eq!(*guard.deref(), 2);
    lock.unlock(guard);
}

#[test]
fn lock_preserves_untouched_values() {
    let mut lock = SpinLock::new(String::from("resting"));
    let guard = lock.lock();
    assert_eq!(guard.deref(), "resting");
    lock.unlock(guard);
}
