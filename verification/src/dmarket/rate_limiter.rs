//! Sliding one-second request budgets, one per group of DMarket endpoints.
//!
//! A limiter keeps the send times of the last `limit` requests in a ring
//! buffer; a new request waits until the oldest of them is one second old.
use ringbuffer::{AllocRingBuffer, RingBuffer};
use vstd::prelude::*;

verus! {

/// Length of the budget window, in milliseconds.
pub const ONE_SECOND_MS: u64 = 1000;

/// Latest clock reading a request may be recorded at, so that the end of its
/// window still fits in a `u64`.
pub const LATEST_TICK: u64 = 18446744073709550615;

/// Largest budget a limiter can be made with (the buffer's storage must fit in memory).
pub const MAX_LIMIT: usize = 134217728;

/// Requests per second for the fee endpoints.
pub const FEE: usize = 110;

/// Requests per second for the last-sales endpoint.
pub const LAST_SALES: usize = 6;

/// Requests per second for the market-items endpoint.
pub const MARKET_ITEMS: usize = 5;

/// Requests per second for every other endpoint.
pub const OTHER: usize = 20;

#[verifier::external_type_specification]
#[verifier::external_body]
#[verifier::reject_recursive_types(T)]
pub struct ExAllocRingBuffer<T>(AllocRingBuffer<T>);

/// The values a ring buffer holds, oldest first.
pub uninterp spec fn ring_contents(buffer: AllocRingBuffer<u64>) -> Seq<u64>;

/// The capacity a ring buffer was made with.
pub uninterp spec fn ring_capacity(buffer: AllocRingBuffer<u64>) -> nat;

/// `AllocRingBuffer::new`: an empty buffer of the given capacity. The crate
/// asserts a non-zero capacity and sizes its storage to the next power of two.
#[verifier::external_body]
fn ring_new(capacity: usize) -> (b: AllocRingBuffer<u64>)
    requires
        0 < capacity <= MAX_LIMIT,
    ensures
        ring_contents(b) == Seq::<u64>::empty(),
        ring_capacity(b) == capacity,
{
    AllocRingBuffer::new(capacity)
}

/// `RingBuffer::is_full`: the length equals the capacity.
#[verifier::external_body]
fn ring_is_full(b: &AllocRingBuffer<u64>) -> (r: bool)
    ensures
        r == (ring_contents(*b).len() == ring_capacity(*b)),
{
    b.is_full()
}

/// `RingBuffer::front`: the oldest value, if any.
#[verifier::external_body]
fn ring_front(b: &AllocRingBuffer<u64>) -> (r: Option<u64>)
    ensures
        r == (if ring_contents(*b).len() == 0 {
            None::<u64>
        } else {
            Some(ring_contents(*b)[0])
        }),
{
    b.front().copied()
}

/// `RingBuffer::enqueue` (what the deprecated `push` forwards to): appends a
/// value; when the buffer is full the oldest value is dropped first.
#[verifier::external_body]
fn ring_push(b: &mut AllocRingBuffer<u64>, value: u64)
    ensures
        ring_capacity(*final(b)) == ring_capacity(*old(b)),
        ring_contents(*final(b)) == (if ring_contents(*old(b)).len() == ring_capacity(*old(b)) {
            ring_contents(*old(b)).drop_first().push(value)
        } else {
            ring_contents(*old(b)).push(value)
        }),
{
    let _ = b.enqueue(value);
}

/// What `wait_time` returns for a window holding `times` out of `limit`.
pub open spec fn wait_time_spec(times: Seq<u64>, limit: nat, now: u64) -> u64 {
    if times.len() == limit && times.len() > 0 && times[0] + ONE_SECOND_MS > now {
        (times[0] + ONE_SECOND_MS - now) as u64
    } else {
        0
    }
}

/// The window after a request is recorded at `at`.
pub open spec fn record_spec(times: Seq<u64>, limit: nat, at: u64) -> Seq<u64> {
    if times.len() == limit {
        times.drop_first().push(at)
    } else {
        times.push(at)
    }
}

/// The endpoint groups that have a budget of their own.
#[derive(Clone, Copy, Debug, PartialEq, Eq)]
pub enum RateLimiterType {
    Fee,
    LastSales,
    MarketItems,
    Other,
}

impl RateLimiterType {
    pub open spec fn index_spec(self) -> int {
        match self {
            RateLimiterType::Fee => 0,
            RateLimiterType::LastSales => 1,
            RateLimiterType::MarketItems => 2,
            RateLimiterType::Other => 3,
        }
    }

    /// The position of this group's limiter among `request_limiters()`.
    pub fn index(self) -> (i: usize)
        ensures
            i == self.index_spec(),
    {
        match self {
            RateLimiterType::Fee => 0,
            RateLimiterType::LastSales => 1,
            RateLimiterType::MarketItems => 2,
            RateLimiterType::Other => 3,
        }
    }

    /// The per-second budget of this group.
    pub open spec fn limit_spec(self) -> nat {
        match self {
            RateLimiterType::Fee => FEE as nat,
            RateLimiterType::LastSales => LAST_SALES as nat,
            RateLimiterType::MarketItems => MARKET_ITEMS as nat,
            RateLimiterType::Other => OTHER as nat,
        }
    }
}

/// The send times of the last `limit` requests of one endpoint group.
pub struct RateLimiter {
    times: AllocRingBuffer<u64>,
}

impl RateLimiter {
    /// Send times in the window, oldest first.
    pub closed spec fn times(&self) -> Seq<u64> {
        ring_contents(self.times)
    }

    /// Requests allowed per second.
    pub closed spec fn limit(&self) -> nat {
        ring_capacity(self.times)
    }

    /// The window is no longer than the budget, which is positive, and every
    /// recorded time leaves room for its one-second window.
    pub closed spec fn well_formed(&self) -> bool {
        &&& 0 < self.limit()
        &&& self.times().len() <= self.limit()
        &&& forall|i: int| 0 <= i < self.times().len() ==> #[trigger] self.times()[i] <= LATEST_TICK
    }

    /// An empty window allowing `limit` requests per second.
    pub fn new(limit: usize) -> (r: RateLimiter)
        requires
            0 < limit <= MAX_LIMIT,
        ensures
            r.well_formed(),
            r.limit() == limit,
            r.times() == Seq::<u64>::empty(),
    {
        RateLimiter { times: ring_new(limit) }
    }

    /// One limiter per endpoint group, in the order of `RateLimiterType::index`.
    pub fn request_limiters() -> (r: [RateLimiter; 4])
        ensures
            forall|t: RateLimiterType| #[trigger] r@[t.index_spec()].limit() == t.limit_spec(),
            forall|i: int| 0 <= i < 4 ==> (#[trigger] r@[i]).times() == Seq::<u64>::empty(),
            forall|i: int| 0 <= i < 4 ==> (#[trigger] r@[i]).well_formed(),
    {
        let r = [
            RateLimiter::new(FEE),
            RateLimiter::new(LAST_SALES),
            RateLimiter::new(MARKET_ITEMS),
            RateLimiter::new(OTHER),
        ];
        assert forall|t: RateLimiterType| #[trigger] r@[t.index_spec()].limit() == t.limit_spec() by {
            match t {
                RateLimiterType::Fee => {},
                RateLimiterType::LastSales => {},
                RateLimiterType::MarketItems => {},
                RateLimiterType::Other => {},
            }
        }
        r
    }

    /// Milliseconds a request made at `now` must wait: when the window is full,
    /// until the oldest request in it is one second old; otherwise none.
    pub fn wait_time(&self, now: u64) -> (w: u64)
        requires
            self.well_formed(),
        ensures
            w == wait_time_spec(self.times(), self.limit(), now),
    {
        if ring_is_full(&self.times) {
            match ring_front(&self.times) {
                Some(oldest) => {
                    let ready = oldest + ONE_SECOND_MS;
                    if ready > now {
                        ready - now
                    } else {
                        0
                    }
                },
                None => 0,
            }
        } else {
            0
        }
    }

    /// A request is sent at `at`: it enters the window, and when the window
    /// was full its oldest request leaves it.
    pub fn record(&mut self, at: u64)
        requires
            old(self).well_formed(),
            at <= LATEST_TICK,
        ensures
            final(self).well_formed(),
            final(self).limit() == old(self).limit(),
            final(self).times() == record_spec(old(self).times(), old(self).limit(), at),
    {
        let ghost before = self.times();
        ring_push(&mut self.times, at);
        proof {
            let after = self.times();
            assert forall|i: int| 0 <= i < after.len() implies #[trigger] after[i] <= LATEST_TICK by {
                if i < after.len() - 1 {
                    if before.len() == self.limit() {
                        assert(after[i] == before[i + 1]);
                    } else {
                        assert(after[i] == before[i]);
                    }
                }
            }
        }
    }

    /// Number of requests in the window.
    pub fn len(&self) -> (n: usize)
        ensures
            n == self.times().len(),
    {
        ring_len(&self.times)
    }
}

/// `RingBuffer::len`: the number of values held.
#[verifier::external_body]
fn ring_len(b: &AllocRingBuffer<u64>) -> (n: usize)
    ensures
        n == ring_contents(*b).len(),
{
    b.len()
}

/// A window never holds more requests than its limit, and a request that
/// waits as long as `wait_time` says comes at least one second after the
/// request it pushes out of a full window.
pub proof fn lemma_budget_respected(times: Seq<u64>, limit: nat, now: u64, at: u64)
    requires
        0 < limit,
        times.len() <= limit,
        forall|i: int| 0 <= i < times.len() ==> #[trigger] times[i] <= LATEST_TICK,
        at >= now + wait_time_spec(times, limit, now),
    ensures
        record_spec(times, limit, at).len() <= limit,
        times.len() == limit ==> times[0] + ONE_SECOND_MS <= at,
{
}

/// The window of a fresh limiter after requests were recorded at the times of
/// `history`, in order.
pub open spec fn window_after(history: Seq<u64>, limit: nat) -> Seq<u64>
    decreases history.len(),
{
    if history.len() == 0 {
        Seq::empty()
    } else {
        record_spec(window_after(history.drop_last(), limit), limit, history.last())
    }
}

/// The window always holds the last `limit` recorded times (or all of them,
/// while there are fewer).
pub proof fn lemma_window_is_recent_history(history: Seq<u64>, limit: nat)
    requires
        0 < limit,
    ensures
        window_after(history, limit) == history.subrange(
            if history.len() > limit { history.len() - limit } else { 0 },
            history.len() as int,
        ),
    decreases history.len(),
{
    if history.len() > 0 {
        let init = history.drop_last();
        lemma_window_is_recent_history(init, limit);
        let lo = if init.len() > limit { init.len() - limit } else { 0 };
        let lo2 = if history.len() > limit { history.len() - limit } else { 0 };
        let w = init.subrange(lo, init.len() as int);
        if w.len() == limit {
            assert(w.drop_first().push(history.last()) =~= history.subrange(lo2, history.len() as int));
        } else {
            assert(w.push(history.last()) =~= history.subrange(lo2, history.len() as int));
        }
    }
}

/// The first `limit` requests of a fresh limiter do not wait.
pub proof fn lemma_first_requests_do_not_wait(history: Seq<u64>, limit: nat, now: u64)
    requires
        0 < limit,
        history.len() < limit,
    ensures
        wait_time_spec(window_after(history, limit), limit, now) == 0,
{
    lemma_window_is_recent_history(history, limit);
    assert(window_after(history, limit).len() == history.len());
}

/// A limiter never lets more than `limit` requests into one second: when every
/// request `i` is sent at `sent[i]`, no earlier than the moment `asked[i]` it
/// was asked for plus the wait the limiter gave then, any request comes at
/// least a second after the one `limit` places before it.
pub proof fn lemma_at_most_limit_per_second(sent: Seq<u64>, asked: Seq<u64>, limit: nat)
    requires
        0 < limit,
        asked.len() == sent.len(),
        forall|i: int| 0 <= i < sent.len() ==> #[trigger] sent[i] <= LATEST_TICK,
        forall|i: int|
            0 <= i < sent.len() ==> #[trigger] sent[i] >= asked[i] + wait_time_spec(
                window_after(sent.take(i), limit),
                limit,
                asked[i],
            ),
    ensures
        forall|i: int| limit <= i < sent.len() ==> #[trigger] sent[i] >= sent[i - limit] + ONE_SECOND_MS,
{
    assert forall|i: int| limit <= i < sent.len() implies #[trigger] sent[i] >= sent[i - limit] + ONE_SECOND_MS by {
        let prefix = sent.take(i);
        lemma_window_is_recent_history(prefix, limit);
        let w = window_after(prefix, limit);
        assert(w =~= sent.subrange(i - limit, i));
        assert(w[0] == sent[i - limit]);
        assert(sent[i] >= asked[i] + wait_time_spec(w, limit, asked[i]));
        assert forall|k: int| 0 <= k < w.len() implies #[trigger] w[k] <= LATEST_TICK by {
            assert(w[k] == sent[i - limit + k]);
        }
        lemma_budget_respected(w, limit, asked[i], sent[i]);
    }
}

} // verus!
