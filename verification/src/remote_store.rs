//! An expiring, single-flight cache for one remotely fetched value.
//!
//! A [`RemoteStore`] owns a [`CachedSlot`] (the value and its expiry, under a
//! readers-writer lock) and a [`RefreshCoordinator`] (a latch that admits at
//! most one refresh at a time). `get` serves the cached value while it is
//! still valid; once it has expired, exactly one caller wins the latch and
//! performs the refresh while every other caller waits for the winner's
//! result.

use vstd::prelude::*;

verus! {

use std::sync::Arc;
use vstd::rwlock::RwLock;
use vstd::rwlock::RwLockPredicate;

/// An instant in time, counted in milliseconds since the Unix epoch.
///
/// The expiry of a cached value always comes from the remote source itself
/// (for a bearer token, the `exp` claim), never from a locally guessed
/// time-to-live, so a plain millisecond count is all the store needs.
#[derive(Clone, Copy, PartialEq, Eq, Structural, Debug)]
pub struct Timestamp {
    pub millis: i64,
}

impl Timestamp {
    /// The start of the epoch, used to seed a store so that the very first
    /// `get` always refreshes.
    pub fn epoch() -> (r: Timestamp)
        ensures
            r.millis == 0,
    {
        Timestamp { millis: 0 }
    }
}

/// A cached value is still valid at `now` while its expiry lies strictly in
/// the future.
pub open spec fn spec_is_valid(expires_at: Timestamp, now: Timestamp) -> bool {
    now.millis < expires_at.millis
}

/// Decides whether a snapshot of the slot may be served as is.
pub fn is_valid(expires_at: Timestamp, now: Timestamp) -> (r: bool)
    ensures
        r == spec_is_valid(expires_at, now),
{
    now.millis < expires_at.millis
}

/// Reports the current wall clock as milliseconds since the Unix epoch.
///
/// Relies on `chrono::Utc::now`, which reads the system clock;
/// `timestamp_millis` only converts the instant to a millisecond count.
/// Nothing can be promised of the clock's value.
#[verifier::external_body]
fn current_millis() -> i64 {
    chrono::Utc::now().timestamp_millis()
}

/// The two states of the refresh latch. `Refreshing` is held by at most one
/// caller at a time; every transition of the latch goes through
/// [`spec_try_begin`] or [`spec_end`] and no others exist.
#[derive(Clone, Copy, PartialEq, Eq, Structural, Debug)]
pub enum RefreshState {
    Idle,
    Refreshing,
}

/// The begin transition of the latch: from `Idle` the caller wins and the latch
/// moves to `Refreshing`; from `Refreshing` the caller loses and the latch is
/// unchanged.
pub open spec fn spec_try_begin(s: RefreshState) -> (RefreshState, bool) {
    match s {
        RefreshState::Idle => (RefreshState::Refreshing, true),
        RefreshState::Refreshing => (RefreshState::Refreshing, false),
    }
}

/// The end transition of the latch: whatever happened to the refresh, the latch
/// returns to `Idle`.
pub open spec fn spec_end(s: RefreshState) -> RefreshState {
    RefreshState::Idle
}

/// Computes the begin transition on a latch value.
pub fn step_try_begin(s: RefreshState) -> (r: (RefreshState, bool))
    ensures
        r == spec_try_begin(s),
{
    match s {
        RefreshState::Idle => (RefreshState::Refreshing, true),
        RefreshState::Refreshing => (RefreshState::Refreshing, false),
    }
}

/// Computes the end transition on a latch value.
pub fn step_end(s: RefreshState) -> (r: RefreshState)
    ensures
        r == spec_end(s),
{
    RefreshState::Idle
}

/// The latch value after `n` further begin attempts from `s`.
pub open spec fn after_begin_attempts(s: RefreshState, n: nat) -> RefreshState
    decreases n,
{
    if n == 0 {
        s
    } else {
        spec_try_begin(after_begin_attempts(s, (n - 1) as nat)).0
    }
}

/// Single-flight law: a begin attempt wins exactly from the `Idle` state, and
/// once one attempt has won, every later attempt loses — no matter how many
/// are made — until the latch is ended.
pub proof fn lemma_single_flight(s: RefreshState, n: nat)
    ensures
        spec_try_begin(s).1 <==> s is Idle,
        spec_try_begin(s).0 is Refreshing,
        s is Refreshing ==> after_begin_attempts(s, n) is Refreshing,
        s is Refreshing ==> !spec_try_begin(after_begin_attempts(s, n)).1,
    decreases n,
{
    if n > 0 {
        lemma_single_flight(s, (n - 1) as nat);
    }
}

/// Release law: ending the latch always yields `Idle`, so callers blocked on
/// the latch are released whether the refresh succeeded or failed.
pub proof fn lemma_end_releases(s: RefreshState)
    ensures
        spec_end(s) is Idle,
        spec_try_begin(spec_end(s)).1,
{
}

/// How a call of [`RemoteStore::get`] can fail.
#[derive(Clone, Debug, PartialEq, Eq)]
pub enum StoreError {
    /// A lock primitive failed. The locks used here cannot be poisoned, so
    /// this store never produces it; it is part of the error vocabulary for
    /// callers that treat a broken store instance as fatal.
    LockError,
    /// The refresh reported a failure; the message is whatever the
    /// [`RemoteGet`] implementation reported.
    FetchError(String),
    /// The caller waited longer than its budget for a refresh in flight.
    TimeoutError,
}

/// The remote-fetch capability: implementors perform the external call and
/// report the deadline of the value they currently hold.
///
/// `get` must replace the held value and its expiry on success and must leave
/// `self` unchanged on failure; `expiry` reports the deadline of the value
/// currently held, as stated by the remote source itself.
pub trait RemoteGet {
    /// Fetches a fresh value from the remote source, mutating `self` in
    /// place.
    fn get(&mut self) -> Result<(), String>;

    /// The deadline of the currently held value.
    fn expiry(&self) -> Timestamp;
}

/// One value and the deadline the remote source gave it, stored together so
/// that a reader always sees a pair written by one single completed write.
#[derive(Clone)]
pub struct CachedValue<T> {
    pub payload: T,
    pub expires_at: Timestamp,
}

/// The invariant a slot imposes on its contents: any pair of value and expiry
/// is storable.
pub struct SlotInv;

impl<T> RwLockPredicate<CachedValue<T>> for SlotInv {
    open spec fn inv(self, v: CachedValue<T>) -> bool {
        true
    }
}

/// Storage for the current cached value under readers-writer discipline: any
/// number of concurrent readers, writers exclusive.
pub struct CachedSlot<T> {
    lock: RwLock<CachedValue<T>, SlotInv>,
}

impl<T> CachedSlot<T> {
    /// Creates a slot holding `payload` with deadline `expires_at`.
    pub fn new(payload: T, expires_at: Timestamp) -> CachedSlot<T> {
        CachedSlot { lock: RwLock::new(CachedValue { payload, expires_at }, Ghost(SlotInv)) }
    }

    /// A consistent snapshot of the current value and its expiry.
    pub fn read(&self) -> (T, Timestamp) where T: Clone {
        let handle = self.lock.acquire_read();
        let v = handle.borrow();
        let payload = v.payload.clone();
        let expires_at = v.expires_at;
        handle.release_read();
        (payload, expires_at)
    }

    /// The expiry of the current value, without cloning the payload.
    pub fn read_expiry(&self) -> Timestamp {
        let handle = self.lock.acquire_read();
        let expires_at = handle.borrow().expires_at;
        handle.release_read();
        expires_at
    }

    /// Replaces the stored pair; blocks until no reader or writer holds the
    /// lock. Only the winner of the refresh latch calls this.
    pub fn write(&self, payload: T, expires_at: Timestamp) {
        let (_old_value, handle) = self.lock.acquire_write();
        handle.release_write(CachedValue { payload, expires_at });
    }
}

/// The invariant of the latch lock: both latch states are storable.
pub struct LatchInv;

impl RwLockPredicate<RefreshState> for LatchInv {
    open spec fn inv(self, v: RefreshState) -> bool {
        true
    }
}

/// How many times a waiter polls the latch per millisecond of its budget, as
/// an upper bound against a stuck clock: each poll reads the system clock and
/// touches the latch lock, so real polls take well over a nanosecond and the
/// clock's deadline is what ends the wait.
pub const POLLS_PER_MILLI: u64 = 1000000;

/// The single-flight latch: at most one caller holds `Refreshing` at a time.
///
/// Every transition of the latch goes through [`spec_try_begin`] and
/// [`spec_end`]; [`lemma_single_flight`] and [`lemma_end_releases`] state the
/// laws those transitions obey. Waiters poll the latch rather than sleeping on
/// a notification, so `end` releases them simply by storing `Idle`, and a
/// waiter re-checks the latch after every poll (a spurious wakeup is just one
/// more poll).
pub struct RefreshCoordinator {
    latch: RwLock<RefreshState, LatchInv>,
}

impl RefreshCoordinator {
    /// A coordinator whose latch starts out `Idle`.
    pub fn new() -> RefreshCoordinator {
        RefreshCoordinator { latch: RwLock::new(RefreshState::Idle, Ghost(LatchInv)) }
    }

    /// Attempts to win the latch: applies [`spec_try_begin`] to the latch state
    /// under the latch's exclusive lock and reports whether the caller won.
    /// The caller that receives `true` owns the refresh and must later call
    /// [`RefreshCoordinator::end`].
    pub fn try_begin(&self) -> bool {
        let (s, handle) = self.latch.acquire_write();
        let (s2, won) = step_try_begin(s);
        handle.release_write(s2);
        won
    }

    /// Returns the latch to `Idle` by applying [`spec_end`], releasing every
    /// waiter blocked in [`RefreshCoordinator::await_completion`]. The winner
    /// calls this whether its refresh succeeded or failed.
    pub fn end(&self) {
        let (s, handle) = self.latch.acquire_write();
        let s2 = step_end(s);
        handle.release_write(s2);
    }

    /// Whether the latch is `Idle` at this instant.
    pub fn is_idle(&self) -> bool {
        let handle = self.latch.acquire_read();
        let idle = match *handle.borrow() {
            RefreshState::Idle => true,
            RefreshState::Refreshing => false,
        };
        handle.release_read();
        idle
    }

    /// Blocks the caller until the latch is observed `Idle`, re-checking the
    /// latch after every poll. The budget is a single overall ceiling across
    /// all polls, not a per-poll limit: the call fails only once the clock
    /// has passed `wait_budget_millis` from the start of the wait (or, as a
    /// backstop against a stuck clock, once the poll count is exhausted).
    pub fn await_completion(&self, wait_budget_millis: u32) -> (r: Result<(), StoreError>)
        ensures
            r matches Err(e) ==> e is TimeoutError,
    {
        let start = current_millis();
        let budget = wait_budget_millis as i64;
        let deadline: i64 = if start > i64::MAX - budget {
            i64::MAX
        } else {
            start + budget
        };
        let mut polls_left: u64 = (wait_budget_millis as u64) * POLLS_PER_MILLI + 1;
        while polls_left > 0
            decreases polls_left,
        {
            if self.is_idle() {
                return Ok(());
            }
            let t = current_millis();
            if t >= deadline {
                return Err(StoreError::TimeoutError);
            }
            polls_left = polls_left - 1;
        }
        Err(StoreError::TimeoutError)
    }
}

/// The wait budget a new store starts with: how long one `get` call waits for
/// a refresh in flight before giving up with a timeout.
pub const DEFAULT_WAIT_BUDGET_MILLIS: u32 = 5000;

/// A cache for one remotely fetched value with an expiry.
///
/// `get` serves the cached value while it is valid and otherwise lets exactly
/// one caller refresh it through the [`RemoteGet`] implementation, while the
/// other callers wait for that winner's result. Clones of a store share the
/// same slot and latch, so a store can be handed to any number of threads.
#[derive(Clone)]
pub struct RemoteStore<T: RemoteGet> {
    pub cached: Arc<CachedSlot<T>>,
    pub coordinator: Arc<RefreshCoordinator>,
    pub wait_budget_millis: u32,
}

impl<T: RemoteGet + Default> Default for RemoteStore<T> {
    /// A store seeded with `T::default()` and the default wait budget.
    fn default() -> (r: RemoteStore<T>)
        ensures
            r.wait_budget_millis == DEFAULT_WAIT_BUDGET_MILLIS,
    {
        RemoteStore::new(T::default())
    }
}

impl<T: RemoteGet> RemoteStore<T> {
    /// A store seeded with `t`, whose expiry is whatever `t` reports; seed
    /// with a sentinel expiry (the epoch) to make the first `get` refresh.
    pub fn new(t: T) -> (r: RemoteStore<T>)
        ensures
            r.wait_budget_millis == DEFAULT_WAIT_BUDGET_MILLIS,
    {
        let expires_at = t.expiry();
        RemoteStore {
            cached: Arc::new(CachedSlot::new(t, expires_at)),
            coordinator: Arc::new(RefreshCoordinator::new()),
            wait_budget_millis: DEFAULT_WAIT_BUDGET_MILLIS,
        }
    }

    /// The same store with a different wait budget.
    pub fn with_wait_budget(self, wait_budget_millis: u32) -> (r: RemoteStore<T>)
        ensures
            r.wait_budget_millis == wait_budget_millis,
    {
        RemoteStore { wait_budget_millis, ..self }
    }

    /// Returns the cached value while it is still valid; otherwise refreshes
    /// it (or waits for the refresh already in flight) and returns the
    /// outcome.
    ///
    /// Exactly one caller performs the external fetch at any time. A caller
    /// that waited is handed the slot's content as the winner left it; if the
    /// winner's refresh failed, that content is the old, still expired value,
    /// and the caller retries with another `get`. The error of a failed
    /// refresh goes to the winning caller alone.
    pub fn get(&self) -> (r: Result<T, StoreError>) where T: Clone
        ensures
            r matches Err(e) ==> (e is FetchError || e is TimeoutError),
    {
        let (payload, expires_at) = self.cached.read();
        let now = Timestamp { millis: current_millis() };
        if is_valid(expires_at, now) {
            return Ok(payload);
        }
        self.get_slow(expires_at, now)
    }

    /// The slow path of `get`: only ever entered for an expired snapshot, so
    /// a valid cached value never triggers a refresh.
    fn get_slow(&self, expires_at: Timestamp, now: Timestamp) -> (r: Result<T, StoreError>) where
        T: Clone,

        requires
            !spec_is_valid(expires_at, now),
        ensures
            r matches Err(e) ==> (e is FetchError || e is TimeoutError),
    {
        if self.coordinator.try_begin() {
            self.run_refresh(expires_at, now)
        } else {
            match self.coordinator.await_completion(self.wait_budget_millis) {
                Ok(()) => {
                    let (payload, _expires_at) = self.cached.read();
                    Ok(payload)
                },
                Err(e) => Err(e),
            }
        }
    }

    /// The winner's refresh cycle: fetches on a private copy of the value, so
    /// readers stay unblocked during the fetch and a failed fetch leaves the
    /// slot untouched.
    fn run_refresh(&self, expires_at: Timestamp, now: Timestamp) -> (r: Result<T, StoreError>) where
        T: Clone,

        requires
            !spec_is_valid(expires_at, now),
        ensures
            r matches Err(e) ==> e is FetchError,
    {
        let (mut work, _stale_expiry) = self.cached.read();
        let outcome = work.get();
        self.complete_refresh(work, outcome)
    }

    /// Publishes the winner's result and releases the latch: on success the
    /// slot takes the fresh value and its expiry before the latch opens, so
    /// released waiters read the refreshed pair; on failure the slot is left
    /// unchanged. The latch is ended on both paths.
    fn complete_refresh(&self, work: T, outcome: Result<(), String>) -> (r: Result<T, StoreError>) where
        T: Clone,

        ensures
            outcome is Ok ==> r == Ok::<T, StoreError>(work),
            outcome matches Err(m) ==> r == Err::<T, StoreError>(StoreError::FetchError(m)),
    {
        match outcome {
            Ok(()) => {
                let expires_at = work.expiry();
                self.cached.write(work.clone(), expires_at);
                self.coordinator.end();
                Ok(work)
            },
            Err(message) => {
                self.coordinator.end();
                Err(StoreError::FetchError(message))
            },
        }
    }
}

} // verus!
