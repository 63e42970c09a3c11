use spin_locks::atomic_exchange::{
    decode_state, encode_state, LockError, LockState, Mutex, MUTEX_AVAILABLE, MUTEX_LOCKED,
    MUTEX_POISONED,
};

#[test]
fn it_acquires_a_lock() {
    let mut mutex = Mutex::new(5);
    assert_eq!(MUTEX_AVAILABLE, encode_state(mutex.current_state()));

    let mut num = mutex.lock().unwrap();

    assert!(mutex.try_lock().is_err(), "The lock is already acquired");

    num.set(15);
    mutex.release(num, false); // give the guard back (unlock)
    let num = mutex.lock().unwrap();
    assert_eq!(15, *num.get());
    mutex.release(num, false);
    assert!(mutex.try_lock().is_ok());
}

#[test]
fn it_returns_an_error_if_the_lock_is_poinsoned() {
    let mut mutex = Mutex::new(5);
    // A holder that fails while holding the lock releases abnormally.
    let guard = mutex.lock().unwrap();
    mutex.release(guard, true);
    assert!(mutex.lock().is_err());
}

#[test]
fn try_lock_reports_unavailable_without_waiting() {
    let mut mutex = Mutex::new(1);
    let guard = mutex.try_lock().unwrap();
    // One exchange, one decision: the busy lock is reported, never waited on.
    assert_eq!(Err(LockError::Unavailable), mutex.try_lock().map(|_| ()));
    mutex.release(guard, false);
}

#[test]
fn poisoning_propagates_to_every_later_attempt() {
    let mut mutex = Mutex::new(3);
    let guard = mutex.lock().unwrap();
    mutex.release(guard, true);
    assert_eq!(LockState::Poisoned, mutex.current_state());
    for _ in 0..10 {
        assert_eq!(Err(LockError::Poisoned), mutex.lock().map(|_| ()));
        assert_eq!(Err(LockError::Poisoned), mutex.lock_ttas().map(|_| ()));
        assert_eq!(Err(LockError::Poisoned), mutex.try_lock().map(|_| ()));
        assert_eq!(LockState::Poisoned, mutex.current_state());
    }
}

#[test]
fn normal_release_reopens_the_lock() {
    let mut mutex = Mutex::new(9);
    let guard = mutex.lock().unwrap();
    mutex.release(guard, false);
    let guard = mutex.try_lock().unwrap();
    assert_eq!(9, *guard.get());
    mutex.release(guard, false);
}

#[test]
fn ttas_acquisition_matches_plain_lock() {
    let mut mutex = Mutex::new(40);
    let mut guard = mutex.lock_ttas().unwrap();
    assert_eq!(LockState::Locked, mutex.current_state());
    let v = *guard.get();
    guard.set(v + 2);
    mutex.release(guard, false);
    let guard = mutex.lock_ttas().unwrap();
    assert_eq!(42, *guard.get());
    mutex.release(guard, false);
}

#[test]
fn flag_codes_round_trip() {
    assert_eq!(0, encode_state(LockState::Available));
    assert_eq!(1, encode_state(LockState::Locked));
    assert_eq!(2, encode_state(LockState::Poisoned));
    assert_eq!(Some(LockState::Available), decode_state(MUTEX_AVAILABLE));
    assert_eq!(Some(LockState::Locked), decode_state(MUTEX_LOCKED));
    assert_eq!(Some(LockState::Poisoned), decode_state(MUTEX_POISONED));
    assert_eq!(None, decode_state(3));
    assert_eq!(None, decode_state(255));
}
