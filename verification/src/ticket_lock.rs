//! A strictly fair spin-lock built from two counters.
//!
//! Each acquirer draws a ticket from a monotonically increasing counter and
//! is admitted when the "now serving" counter reaches that ticket; the
//! holder releases by advancing "now serving" by exactly one. Admission
//! order therefore equals arrival order (FIFO), in contrast to the exchange
//! mutex, which promises no ordering among waiters.
//!
//! This lock defines no poisoning: a holder that fails without releasing
//! leaves every later ticket holder spinning forever. That is a known,
//! accepted limitation of the minimal ticket-lock design, documented here
//! rather than silently patched.

use vstd::prelude::*;

verus! {

/// The two counters of a ticket lock.
pub struct TicketLock {
    /// Next ticket to hand out; increased by one per acquisition.
    next_ticket: usize,
    /// Ticket currently permitted to proceed; increased by one per release.
    now_serving: usize,
}

impl TicketLock {
    /// Tickets handed out so far, which is also the next ticket's number.
    pub closed spec fn issued(&self) -> usize {
        self.next_ticket
    }

    /// The ticket currently permitted to proceed.
    pub closed spec fn serving(&self) -> usize {
        self.now_serving
    }

    /// Serving never runs ahead of issuance: only a drawn ticket can be
    /// served.
    pub open spec fn wf(&self) -> bool {
        self.serving() <= self.issued()
    }

    /// Constructs a free lock: no ticket drawn, ticket zero up next.
    pub fn new() -> (lk: TicketLock)
        ensures
            lk.wf(),
            lk.issued() == 0,
            lk.serving() == 0,
    {
        TicketLock { next_ticket: 0, now_serving: 0 }
    }

    /// Tickets handed out so far, for callers outside spec code.
    pub fn issued_tickets(&self) -> (r: usize)
        ensures
            r == self.issued(),
    {
        self.next_ticket
    }

    /// The ticket currently being served, for callers outside spec code.
    pub fn serving_ticket(&self) -> (r: usize)
        ensures
            r == self.serving(),
    {
        self.now_serving
    }
}

/// Draws the next ticket (fetch-and-add on the ticket counter) and
/// busy-waits until the serving counter reaches it; the ticket is returned
/// so the caller can see its place in the admission order.
///
/// The wait is a pure spin with no parking and no timeout. A holder that
/// never releases leaves every later ticket spinning forever — the
/// documented, unrecoverable failure mode of this lock. This model hands
/// out exclusive access through `&mut state`, so a serving counter that has
/// not yet reached the drawn ticket could never advance under the spin:
/// that permanently diverging input is excluded by the precondition
/// (`serving() == issued()`, the lock is free) instead of being allowed to
/// hang.
#[verifier::loop_isolation(false)]
pub fn lock(state: &mut TicketLock) -> (my_turn: usize)
    requires
        old(state).wf(),
        old(state).issued() < usize::MAX,
        old(state).serving() == old(state).issued(),
    ensures
        final(state).wf(),
        my_turn == old(state).issued(),
        final(state).issued() == old(state).issued() + 1,
        final(state).serving() == old(state).serving(),
        final(state).serving() == my_turn,
{
    let my_turn = state.next_ticket;
    state.next_ticket = state.next_ticket + 1;
    // The spin: re-read the serving counter until it equals the drawn
    // ticket. Under exclusive access the counter cannot change between
    // reads, so the precondition makes the first read the last: the loop
    // body is provably never entered.
    while state.now_serving != my_turn
        invariant
            state.now_serving == my_turn,
        decreases 0int,
    {
    }
    my_turn
}

/// Releases the lock by advancing the serving counter by exactly one,
/// admitting the next ticket in FIFO order.
///
/// Callable only while a drawn ticket is being served (`serving() <
/// issued()`), which is the model's rendering of "only the current holder
/// releases".
pub fn unlock(state: &mut TicketLock)
    requires
        old(state).wf(),
        old(state).serving() < old(state).issued(),
    ensures
        final(state).wf(),
        final(state).serving() == old(state).serving() + 1,
        final(state).issued() == old(state).issued(),
{
    state.now_serving = state.now_serving + 1;
}

/// One worker's turn on a shared counter guarded by the ticket lock: draw
/// a ticket, enter when served, add `k` to the counter one increment at a
/// time inside the critical section, release. Returns the new counter and
/// the ticket that admitted the worker.
#[verifier::loop_isolation(false)]
pub fn ticket_session(state: &mut TicketLock, counter: u64, k: u64) -> (r: (u64, usize))
    requires
        old(state).wf(),
        old(state).issued() < usize::MAX,
        old(state).serving() == old(state).issued(),
        counter + k <= u64::MAX,
    ensures
        final(state).wf(),
        r.0 == counter + k,
        r.1 == old(state).issued(),
        final(state).issued() == old(state).issued() + 1,
        final(state).serving() == old(state).serving() + 1,
{
    let my_turn = lock(state);
    let mut c = counter;
    let mut i: u64 = 0;
    while i < k
        invariant
            i <= k,
            c == counter + i,
        decreases k - i,
    {
        c = c + 1;
        i = i + 1;
    }
    unlock(state);
    (c, my_turn)
}

/// The demo workload, serialized in ticket order: `n` workers each add `k`
/// to a counter that starts at zero. Returns the final counter — exactly
/// `n * k`, because every increment happens inside a critical section —
/// and the tickets in admission order, which are exactly the tickets in
/// issuance order: FIFO fairness made concrete.
#[verifier::loop_isolation(false)]
pub fn run_ticket_workers(state: &mut TicketLock, n: u64, k: u64) -> (r: (u64, Vec<usize>))
    requires
        old(state).wf(),
        old(state).serving() == old(state).issued(),
        old(state).issued() + n <= usize::MAX,
        n * k <= u64::MAX,
    ensures
        r.0 == n * k,
        r.1@.len() == n,
        forall|i: int| 0 <= i < n ==> r.1@[i] == old(state).issued() + i,
        final(state).wf(),
        final(state).issued() == old(state).issued() + n,
        final(state).serving() == old(state).serving() + n,
{
    let mut c: u64 = 0;
    let mut order: Vec<usize> = Vec::new();
    let mut j: u64 = 0;
    while j < n
        invariant
            j <= n,
            c == j * k,
            order@.len() == j,
            forall|i: int| 0 <= i < j ==> order@[i] == old(state).issued() + i,
            state.wf(),
            state.issued() == old(state).issued() + j,
            state.serving() == old(state).serving() + j,
            state.serving() == state.issued(),
        decreases n - j,
    {
        proof {
            assert((j + 1) * k == j * k + k) by (nonlinear_arith);
            assert((j + 1) * k <= n * k) by (nonlinear_arith)
                requires
                    j + 1 <= n,
                    0 <= k,
            ;
        }
        let (c2, t) = ticket_session(state, c, k);
        c = c2;
        order.push(t);
        j = j + 1;
    }
    (c, order)
}

/// The serving counter grows by exactly one per step, so its value `i`
/// steps in is its starting value plus `i`.
proof fn lemma_serving_linear(serving: Seq<int>, i: int)
    requires
        0 <= i < serving.len(),
        forall|j: int| 0 <= j < serving.len() - 1 ==> #[trigger] serving[j + 1] == serving[j] + 1,
    ensures
        serving[i] == serving[0] + i,
    decreases i,
{
    if i > 0 {
        lemma_serving_linear(serving, i - 1);
        assert(serving[(i - 1) + 1] == serving[i - 1] + 1);
    }
}

/// FIFO fairness. `serving` is the run of values the serving counter takes,
/// one per release (each step advances it by exactly one, as `unlock`
/// guarantees). If ticket `a` is drawn no earlier than the run's start
/// (`serving[0] <= a`) and the run ends by admitting a later ticket `b`,
/// then the counter passed through `a` strictly before the end: the holder
/// of `a` was admitted, and released — that is what moved the counter past
/// `a` — before the holder of `b` was admitted.
pub proof fn lemma_ticket_fifo(serving: Seq<int>, a: int, b: int)
    requires
        serving.len() > 0,
        serving[0] <= a,
        a < b,
        forall|j: int| 0 <= j < serving.len() - 1 ==> #[trigger] serving[j + 1] == serving[j] + 1,
        serving.last() == b,
    ensures
        exists|j: int| 0 <= j < serving.len() - 1 && serving[j] == a,
{
    lemma_serving_linear(serving, serving.len() - 1);
    let j = a - serving[0];
    lemma_serving_linear(serving, j);
    assert(serving[j] == a);
}

} // verus!
