//! A spin-lock mutex acquired by atomically exchanging a three-valued flag.
//!
//! The flag moves `Available -> Locked` on a successful acquire,
//! `Locked -> Available` on a clean release, and `Locked -> Poisoned` when
//! the holder fails while holding the lock. `Poisoned` is terminal: every
//! later acquisition attempt fails with [`LockError::Poisoned`].
//!
//! The protected value is reachable only through a [`MutexGuard`]: while the
//! lock is held the guard owns the value outright, so a second guard cannot
//! exist and no access can bypass the lock.

use vstd::pervasive::unreached;
use vstd::prelude::*;

verus! {

/// Flag value used for `Available` in the packed 8-bit encoding.
pub const MUTEX_AVAILABLE: u8 = 0;

/// Flag value used for `Locked` in the packed 8-bit encoding.
pub const MUTEX_LOCKED: u8 = 1;

/// Flag value used for `Poisoned` in the packed 8-bit encoding.
pub const MUTEX_POISONED: u8 = 2;

/// The state of a mutex flag.
#[derive(Clone, Copy, Debug, PartialEq, Eq, Structural)]
pub enum LockState {
    /// Nobody holds the lock; the next acquisition attempt succeeds.
    Available,
    /// Exactly one guard is live; acquisition attempts do not succeed.
    Locked,
    /// A holder failed while holding the lock. Terminal: the lock is never
    /// granted again.
    Poisoned,
}

/// Why an acquisition attempt failed.
#[derive(Clone, Copy, Debug, PartialEq, Eq, Structural)]
pub enum LockError {
    /// The previous holder failed while holding the lock; the protected
    /// value may have been left with its invariants broken.
    Poisoned,
    /// The lock is currently held. Reported only by `try_lock`, which never
    /// waits; the blocking acquisitions spin instead.
    Unavailable,
}

/// The flag after one acquisition attempt (`lock`, `lock_ttas` or
/// `try_lock`) that returns: an available lock becomes locked, any other
/// flag is left as it was.
pub open spec fn acquire_step(s: LockState) -> LockState {
    if s is Available {
        LockState::Locked
    } else {
        s
    }
}

/// An acquisition attempt is granted the lock exactly when the flag is
/// `Available`.
pub open spec fn acquire_succeeds(s: LockState) -> bool {
    s is Available
}

/// The flag after the holder's guard is destroyed: `Available` on the
/// normal path, `Poisoned` when the holder failed while holding the lock.
pub open spec fn release_step(panicking: bool) -> LockState {
    if panicking {
        LockState::Poisoned
    } else {
        LockState::Available
    }
}

/// The flag after `n` acquisition attempts that return, starting from `s`.
pub open spec fn acquire_steps(s: LockState, n: nat) -> LockState
    decreases n,
{
    if n == 0 {
        s
    } else {
        acquire_step(acquire_steps(s, (n - 1) as nat))
    }
}

/// Poisoning propagates indefinitely: once a holder has failed while
/// holding the lock, any number of later acquisition attempts — by any
/// caller — still find the mutex poisoned, and none of them is granted the
/// lock.
pub proof fn lemma_poisoned_stays_poisoned(n: nat)
    ensures
        acquire_steps(LockState::Poisoned, n) == LockState::Poisoned,
        !acquire_succeeds(acquire_steps(LockState::Poisoned, n)),
    decreases n,
{
    if n > 0 {
        lemma_poisoned_stays_poisoned((n - 1) as nat);
    }
}

/// Mutual exclusion at the flag level: an acquisition attempt that is
/// granted the lock leaves it so that no further attempt is granted until
/// a release intervenes — two holders cannot coexist.
pub proof fn lemma_acquire_excludes(s: LockState)
    ensures
        acquire_succeeds(s) ==> !acquire_succeeds(acquire_step(s)),
{
}

/// A normal release reopens the lock: after a guard is given back on the
/// normal path, the next acquisition attempt succeeds and leaves the mutex
/// locked again.
pub proof fn lemma_release_reopens()
    ensures
        acquire_succeeds(release_step(false)),
        acquire_step(release_step(false)) is Locked,
{
}

/// The flag packed into the 8-bit encoding an atomic cell would carry.
pub open spec fn state_code(s: LockState) -> u8 {
    match s {
        LockState::Available => MUTEX_AVAILABLE,
        LockState::Locked => MUTEX_LOCKED,
        LockState::Poisoned => MUTEX_POISONED,
    }
}

/// Packs the flag into its 8-bit encoding.
pub fn encode_state(s: LockState) -> (r: u8)
    ensures
        r == state_code(s),
{
    match s {
        LockState::Available => MUTEX_AVAILABLE,
        LockState::Locked => MUTEX_LOCKED,
        LockState::Poisoned => MUTEX_POISONED,
    }
}

/// Unpacks an 8-bit flag; codes above `MUTEX_POISONED` encode no state.
pub fn decode_state(code: u8) -> (r: Option<LockState>)
    ensures
        r matches Some(s) ==> state_code(s) == code,
        r is Some <==> code <= MUTEX_POISONED,
{
    if code == MUTEX_AVAILABLE {
        Some(LockState::Available)
    } else if code == MUTEX_LOCKED {
        Some(LockState::Locked)
    } else if code == MUTEX_POISONED {
        Some(LockState::Poisoned)
    } else {
        None
    }
}

/// The 8-bit encoding is lossless: distinct flags get distinct codes, so a
/// cell that carries the code carries the flag.
pub proof fn lemma_state_code_injective(s1: LockState, s2: LockState)
    ensures
        state_code(s1) == state_code(s2) ==> s1 == s2,
{
}

/// A spin-lock mutex guarding an owned value.
///
/// Acquisition is an exchange on the flag; waiting is a busy-wait, never a
/// park. No fairness among waiters is promised: under contention any
/// spinner may win the next acquisition (the ticket lock is the fair
/// alternative).
pub struct Mutex<T> {
    flag: LockState,
    /// The protected value. Held by the mutex exactly while the flag is
    /// `Available`; while the lock is held the live guard owns it instead,
    /// and a poisoned mutex never hands it out again.
    inner: Option<T>,
}

/// Exclusive access to the value protected by a [`Mutex`].
///
/// The guard owns the protected value for the duration of the critical
/// section, which is what makes a second concurrent access impossible.
/// Give it back with [`Mutex::release`]; a guard that is merely dropped
/// leaves the mutex locked forever, so release on every exit path.
pub struct MutexGuard<T> {
    inner: T,
}

impl<T> MutexGuard<T> {
    /// The value the guard currently holds.
    pub closed spec fn value(&self) -> T {
        self.inner
    }

    /// Read access to the protected value.
    pub fn get(&self) -> (r: &T)
        ensures
            *r == self.value(),
    {
        &self.inner
    }

    /// Write access to the protected value.
    pub fn set(&mut self, v: T)
        ensures
            final(self).value() == v,
    {
        self.inner = v;
    }
}

impl<T> Mutex<T> {
    /// The current flag.
    pub closed spec fn state(&self) -> LockState {
        self.flag
    }

    /// The protected value as the mutex holds it; meaningful while the
    /// flag is `Available`.
    pub closed spec fn stored(&self) -> T {
        self.inner->0
    }

    /// The mutex holds the value exactly when it is available: a live
    /// guard owns the value while the lock is held, and a poisoned mutex
    /// has withdrawn it for good.
    pub closed spec fn wf(&self) -> bool {
        self.inner is Some <==> self.flag is Available
    }

    /// Constructs an available mutex protecting `inner`.
    pub fn new(inner: T) -> (m: Mutex<T>)
        ensures
            m.wf(),
            m.state() is Available,
            m.stored() == inner,
    {
        Mutex { flag: LockState::Available, inner: Some(inner) }
    }

    /// The current flag, for callers outside spec code.
    pub fn current_state(&self) -> (s: LockState)
        ensures
            s == self.state(),
    {
        self.flag
    }

    /// Acquires the lock, busy-waiting while it is held ("test and set").
    ///
    /// Repeatedly attempts the exchange `Available -> Locked`: on success a
    /// guard is returned, on contention the attempt is retried, and a
    /// poisoned flag fails immediately without retrying. The wait is a pure
    /// spin — the thread is never parked — and a holder that never releases
    /// leaves every waiter spinning forever. This mutex hands out exclusive
    /// access through `&mut self`, so a flag that reads `Locked` here can
    /// never change under the spin: that one permanently diverging input is
    /// excluded by the precondition instead of being allowed to hang.
    pub fn lock(&mut self) -> (r: Result<MutexGuard<T>, LockError>)
        requires
            old(self).wf(),
            !(old(self).state() is Locked),
        ensures
            final(self).wf(),
            final(self).state() == acquire_step(old(self).state()),
            r is Ok <==> acquire_succeeds(old(self).state()),
            r matches Ok(g) ==> g.value() == old(self).stored(),
            r is Err ==> r == Err::<MutexGuard<T>, LockError>(LockError::Poisoned)
                && old(self).state() is Poisoned,
    {
        self._lock(false)
    }

    /// Acquires the lock like [`Mutex::lock`], but first busy-reads the
    /// flag until it is no longer `Locked` ("test and test-and-set").
    ///
    /// The pre-check is purely a throughput optimization: a plain read that
    /// loses does not cost what a failed exclusive exchange costs, so under
    /// heavy contention the bus sees less traffic. The exchange afterwards
    /// re-validates the flag, which keeps this variant correctness-equal to
    /// `lock`, as the identical contract states.
    pub fn lock_ttas(&mut self) -> (r: Result<MutexGuard<T>, LockError>)
        requires
            old(self).wf(),
            !(old(self).state() is Locked),
        ensures
            final(self).wf(),
            final(self).state() == acquire_step(old(self).state()),
            r is Ok <==> acquire_succeeds(old(self).state()),
            r matches Ok(g) ==> g.value() == old(self).stored(),
            r is Err ==> r == Err::<MutexGuard<T>, LockError>(LockError::Poisoned)
                && old(self).state() is Poisoned,
    {
        self._lock(true)
    }

    /// Shared body of the two blocking acquisitions; `test_and_test`
    /// selects the plain pre-read before the exchange loop.
    #[verifier::loop_isolation(false)]
    fn _lock(&mut self, test_and_test: bool) -> (r: Result<MutexGuard<T>, LockError>)
        requires
            old(self).wf(),
            !(old(self).state() is Locked),
        ensures
            final(self).wf(),
            final(self).state() == acquire_step(old(self).state()),
            r is Ok <==> acquire_succeeds(old(self).state()),
            r matches Ok(g) ==> g.value() == old(self).stored(),
            r is Err ==> r == Err::<MutexGuard<T>, LockError>(LockError::Poisoned)
                && old(self).state() is Poisoned,
    {
        if test_and_test {
            // TTAS pre-read: busy-read the flag with a plain load until it
            // no longer reads `Locked`, only then pay for the exchange.
            // Under the exclusive access of `&mut self` the flag cannot
            // change between reads, so the precondition makes the first
            // read the last: the loop body is provably never entered.
            while matches!(self.flag, LockState::Locked)
                invariant
                    !(self.flag is Locked),
                decreases 0int,
            {
            }
        }
        // The exchange. On contention it would be retried, but contention
        // cannot arise under exclusive access — the precondition excludes a
        // locked flag — so a single attempt settles every admitted call.
        match self.flag {
            LockState::Available => {
                let v = self.inner.take().unwrap();
                self.flag = LockState::Locked;
                Ok(MutexGuard { inner: v })
            },
            LockState::Locked => unreached(),
            LockState::Poisoned => Err(LockError::Poisoned),
        }
    }

    /// Gives the protected value back and releases the lock, the one
    /// transition a holder makes when its guard is destroyed.
    ///
    /// `panicking` says whether the holder is failing while holding the
    /// lock: a normal release makes the mutex available again with the
    /// guard's value stored, an abnormal one poisons it so that every later
    /// acquisition reports the failure instead of observing a value whose
    /// invariants the failed holder may have broken.
    pub fn release(&mut self, guard: MutexGuard<T>, panicking: bool)
        requires
            old(self).wf(),
            old(self).state() is Locked,
        ensures
            final(self).wf(),
            final(self).state() == release_step(panicking),
            !panicking ==> final(self).stored() == guard.value(),
    {
        if panicking {
            self.flag = LockState::Poisoned;
        } else {
            self.inner = Some(guard.inner);
            self.flag = LockState::Available;
        }
    }

    /// Attempts to acquire the lock without ever waiting: exactly one
    /// exchange on the flag, then a decision on what the flag was.
    ///
    /// Fails with `Unavailable` when the lock is held and with `Poisoned`
    /// when a previous holder failed; in both cases the mutex is left
    /// exactly as it was.
    pub fn try_lock(&mut self) -> (r: Result<MutexGuard<T>, LockError>)
        requires
            old(self).wf(),
        ensures
            final(self).wf(),
            final(self).state() == acquire_step(old(self).state()),
            r is Ok <==> acquire_succeeds(old(self).state()),
            r matches Ok(g) ==> g.value() == old(self).stored(),
            old(self).state() is Locked ==> r == Err::<MutexGuard<T>, LockError>(LockError::Unavailable),
            old(self).state() is Poisoned ==> r == Err::<MutexGuard<T>, LockError>(LockError::Poisoned),
    {
        match self.flag {
            LockState::Available => {
                let v = self.inner.take().unwrap();
                self.flag = LockState::Locked;
                Ok(MutexGuard { inner: v })
            },
            LockState::Locked => Err(LockError::Unavailable),
            LockState::Poisoned => Err(LockError::Poisoned),
        }
    }
}

/// One worker's turn on a shared counter: acquire the mutex (by the plain
/// or the TTAS exchange, as `use_ttas` says), add `k` to the protected
/// counter one increment at a time inside the critical section, then
/// release normally.
#[verifier::loop_isolation(false)]
pub fn increment_session(m: &mut Mutex<u64>, k: u64, use_ttas: bool)
    requires
        old(m).wf(),
        old(m).state() is Available,
        old(m).stored() + k <= u64::MAX,
    ensures
        final(m).wf(),
        final(m).state() is Available,
        final(m).stored() == old(m).stored() + k,
{
    let r = if use_ttas {
        m.lock_ttas()
    } else {
        m.lock()
    };
    match r {
        Ok(mut guard) => {
            let mut i: u64 = 0;
            while i < k
                invariant
                    i <= k,
                    guard.value() == old(m).stored() + i,
                decreases k - i,
            {
                let v: u64 = *guard.get();
                guard.set(v + 1);
                i = i + 1;
            }
            m.release(guard, false);
        },
        Err(_) => unreached(),
    }
}

/// The demo drivers' workload, serialized: `n` workers each add `k` to a
/// counter protected by the mutex, every increment inside the critical
/// section. Mutual exclusion is what makes the total exact: no increment
/// is lost, so the counter ends exactly `n * k` above where it started,
/// under either acquisition variant.
#[verifier::loop_isolation(false)]
pub fn run_workers(m: &mut Mutex<u64>, n: u64, k: u64, use_ttas: bool)
    requires
        old(m).wf(),
        old(m).state() is Available,
        old(m).stored() + n * k <= u64::MAX,
    ensures
        final(m).wf(),
        final(m).state() is Available,
        final(m).stored() == old(m).stored() + n * k,
{
    let mut j: u64 = 0;
    while j < n
        invariant
            j <= n,
            m.wf(),
            m.state() is Available,
            m.stored() == old(m).stored() + j * k,
        decreases n - j,
    {
        proof {
            assert((j + 1) * k == j * k + k) by (nonlinear_arith);
            assert((j + 1) * k <= n * k) by (nonlinear_arith)
                requires
                    j + 1 <= n,
                    0 <= k,
            ;
        }
        increment_session(m, k, use_ttas);
        j = j + 1;
    }
}

} // verus!
