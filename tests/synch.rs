use opentitan_hal::synch::{Lock, Mutex};

#[test]
fn lock_mutual_exclusion() {
    let mut l = Lock::new();
    assert!(!l.is_locked());
    assert_eq!(l.try_lock(), Ok(()));
    assert_eq!(l.try_lock(), Err(()));
    assert!(l.is_locked());
    l.unlock();
    assert!(!l.is_locked());
    assert_eq!(l.try_lock(), Ok(()));
}

#[test]
fn mutex_grants_exclusive_access() {
    let mut m = Mutex::new(5u32);
    {
        let mut h = m.try_acquire().unwrap();
        assert_eq!(*h.get(), 5);
        *h.get_mut() = 6;
    }
    let h = m.try_acquire().unwrap();
    assert_eq!(*h.get(), 6);
}
