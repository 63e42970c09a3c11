use spin_locks::ticket_lock::{lock, run_ticket_workers, ticket_session, unlock, TicketLock};

#[test]
fn test_ticket_lock() {
    let mut state = TicketLock::new();
    let mut counter: u64 = 0;
    for _ in 1..(100 + 1) {
        let (c, _ticket) = ticket_session(&mut state, counter, 500);
        counter = c;
    }
    assert_eq!(50000, counter);
}

#[test]
fn tickets_are_drawn_in_order() {
    let mut state = TicketLock::new();
    assert_eq!(0, state.issued_tickets());
    assert_eq!(0, state.serving_ticket());

    let first = lock(&mut state);
    assert_eq!(0, first);
    assert_eq!(1, state.issued_tickets());
    unlock(&mut state);
    assert_eq!(1, state.serving_ticket());

    let second = lock(&mut state);
    assert_eq!(1, second);
    unlock(&mut state);
    assert_eq!(2, state.serving_ticket());
}

#[test]
fn admission_order_matches_ticket_issuance() {
    let mut state = TicketLock::new();
    let (counter, order) = run_ticket_workers(&mut state, 100, 500);
    assert_eq!(50000, counter);
    assert_eq!(100, order.len());
    for (i, ticket) in order.iter().enumerate() {
        assert_eq!(i, *ticket);
    }
    for pair in order.windows(2) {
        assert!(pair[0] < pair[1], "admission order must be strictly increasing");
    }
}
