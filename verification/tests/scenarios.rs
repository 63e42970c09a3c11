use spin_locks::atomic_exchange::{run_workers, Mutex};
use spin_locks::ticket_lock::{run_ticket_workers, TicketLock};

#[test]
fn five_hundred_workers_under_plain_lock() {
    let mut counter = Mutex::new(0u64);
    run_workers(&mut counter, 500, 5000, false);
    let guard = counter.lock().unwrap();
    assert_eq!(2_500_000, *guard.get());
    counter.release(guard, false);
}

#[test]
fn five_hundred_workers_under_ttas_lock() {
    let mut counter = Mutex::new(0u64);
    run_workers(&mut counter, 500, 5000, true);
    let guard = counter.lock().unwrap();
    assert_eq!(2_500_000, *guard.get());
    counter.release(guard, false);
}

#[test]
fn five_hundred_workers_under_ticket_lock() {
    let mut state = TicketLock::new();
    let (counter, order) = run_ticket_workers(&mut state, 500, 5000);
    assert_eq!(2_500_000, counter);
    assert_eq!(500, order.len());
}

#[test]
fn single_worker_single_increment() {
    let mut counter = Mutex::new(0u64);
    run_workers(&mut counter, 1, 1, false);
    let guard = counter.lock().unwrap();
    assert_eq!(1, *guard.get());
    counter.release(guard, false);
}

#[test]
fn zero_workers_leave_the_counter_alone() {
    let mut counter = Mutex::new(7u64);
    run_workers(&mut counter, 0, 5000, false);
    let guard = counter.lock().unwrap();
    assert_eq!(7, *guard.get());
    counter.release(guard, false);
}
