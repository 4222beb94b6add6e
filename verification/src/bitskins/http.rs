//! BitSkins HTTP client rules: request pacing, retry decisions and paging.
use crate::bitskins::endpoint::Endpoint;
use crate::pacing::delay_until;
use crate::paging::{follow_up_offsets, page_count, page_wanted};
use vstd::prelude::*;

verus! {

pub const BASE_URL: &'static str = "https://api.bitskins.com";
/// Items per listing page.
pub const MAX_LIMIT: usize = 500;
/// Deepest offset the listing endpoints serve.
pub const MAX_OFFSET: usize = 2000;
/// The app id of Counter-Strike 2.
pub const CS2_APP_ID: i32 = 730;

/// Spacing of any two requests: the API's 200 ms, run at 0.75 of its rate.
pub const REQUEST_INTERVAL_MS: u64 = 266;
/// Spacing of two market-search requests: the API's 1000 ms, run at 0.75 of its rate.
pub const MARKET_INTERVAL_MS: u64 = 1333;
/// Pause before a request that failed without a server error is tried again.
pub const RETRY_DELAY_MS: u64 = 5000;

/// The account balance.
#[derive(Debug)]
pub struct Balance {
    pub balance: i32,
}

/// A skin as the catalogue lists it.
#[derive(Debug)]
pub struct Skin {
    pub id: i32,
    pub name: String,
    pub class_id: String,
    pub suggested_price: Option<i32>,
}

/// How many listings matched a search.
#[derive(Debug)]
pub struct MarketDataCounter {
    pub filtered: usize,
}

/// What to do with the answer to a request.
#[derive(Clone, Copy, Debug, PartialEq, Eq)]
pub enum StatusAction {
    /// A 2xx status: the response is the result.
    Done,
    /// A 5xx status: the request fails with an internal-service error.
    ServerError,
    /// Anything else: wait `RETRY_DELAY_MS` and send it again.
    Retry,
}

/// The action for an HTTP status code.
pub open spec fn status_action_spec(code: u16) -> StatusAction {
    if 200 <= code < 300 {
        StatusAction::Done
    } else if 500 <= code < 600 {
        StatusAction::ServerError
    } else {
        StatusAction::Retry
    }
}

/// What to do with a response of status `code`.
pub fn classify_status(code: u16) -> (a: StatusAction)
    ensures
        a == status_action_spec(code),
{
    if 200 <= code && code < 300 {
        StatusAction::Done
    } else if 500 <= code && code < 600 {
        StatusAction::ServerError
    } else {
        StatusAction::Retry
    }
}

/// The moment a request may be sent: market searches wait for both budgets.
pub open spec fn ready_at_spec(request_ok: u64, market_request_ok: u64, market: bool) -> u64 {
    if market && market_request_ok > request_ok {
        market_request_ok
    } else {
        request_ok
    }
}

/// The slots after a request to `endpoint` went out at `sent`: the general slot
/// opens `REQUEST_INTERVAL_MS` later, and after a market search the market
/// slot `MARKET_INTERVAL_MS` later.
pub open spec fn mark_sent_spec(gate: RequestGate, sent: u64, endpoint: Endpoint) -> RequestGate {
    RequestGate {
        request_ok: (sent + REQUEST_INTERVAL_MS) as u64,
        market_request_ok: if endpoint.uses_market_limit_spec() {
            (sent + MARKET_INTERVAL_MS) as u64
        } else {
            gate.market_request_ok
        },
    }
}

/// Keeps requests to the API apart: every request waits for the general slot,
/// and market searches also wait for the market slot.
pub struct RequestGate {
    pub request_ok: u64,
    pub market_request_ok: u64,
}

impl RequestGate {
    /// A gate that lets the first request through at `now`.
    pub fn new(now: u64) -> (g: RequestGate)
        ensures
            g.request_ok == now,
            g.market_request_ok == now,
    {
        RequestGate { request_ok: now, market_request_ok: now }
    }

    /// Milliseconds a request to `endpoint` made at `now` has to wait.
    pub fn wait_time(&self, now: u64, endpoint: Endpoint) -> (w: u64)
        ensures
            w == delay_until(
                ready_at_spec(self.request_ok, self.market_request_ok, endpoint.uses_market_limit_spec()),
                now,
            ),
    {
        let market = endpoint.uses_market_limit();
        let ready = if market && self.market_request_ok > self.request_ok {
            self.market_request_ok
        } else {
            self.request_ok
        };
        if ready > now {
            ready - now
        } else {
            0
        }
    }

    /// A request to `endpoint` went out at `now`.
    pub fn mark_sent(&mut self, now: u64, endpoint: Endpoint)
        requires
            now + MARKET_INTERVAL_MS <= u64::MAX,
        ensures
            final(self).request_ok == now + REQUEST_INTERVAL_MS,
            final(self).market_request_ok == (if endpoint.uses_market_limit_spec() {
                (now + MARKET_INTERVAL_MS) as u64
            } else {
                old(self).market_request_ok
            }),
            *final(self) == mark_sent_spec(*old(self), now, endpoint),
    {
        if endpoint.uses_market_limit() {
            self.market_request_ok = now + MARKET_INTERVAL_MS;
        }
        self.request_ok = now + REQUEST_INTERVAL_MS;
    }
}

/// After a request at `sent`, the next request, whenever it is asked for, goes
/// out no earlier than `REQUEST_INTERVAL_MS` later, and a market search after a
/// market search no earlier than `MARKET_INTERVAL_MS` later.
pub proof fn lemma_gate_spacing(before: RequestGate, sent: u64, first: Endpoint, now: u64, second: Endpoint)
    requires
        sent + MARKET_INTERVAL_MS <= u64::MAX,
    ensures
        ({
            let after = RequestGate {
                request_ok: (sent + REQUEST_INTERVAL_MS) as u64,
                market_request_ok: if first.uses_market_limit_spec() {
                    (sent + MARKET_INTERVAL_MS) as u64
                } else {
                    before.market_request_ok
                },
            };
            let go = now + delay_until(
                ready_at_spec(after.request_ok, after.market_request_ok, second.uses_market_limit_spec()),
                now,
            );
            &&& go >= sent + REQUEST_INTERVAL_MS
            &&& first.uses_market_limit_spec() && second.uses_market_limit_spec() ==> go >= sent + MARKET_INTERVAL_MS
        }),
{
}

/// The slots, from `start`, after the first `n` requests went out at the times
/// `sent` to the endpoints `endpoints`.
pub open spec fn gate_after(start: RequestGate, sent: Seq<u64>, endpoints: Seq<Endpoint>, n: nat) -> RequestGate
    decreases n,
{
    if n == 0 {
        start
    } else {
        mark_sent_spec(gate_after(start, sent, endpoints, (n - 1) as nat), sent[n - 1], endpoints[n - 1])
    }
}

/// Request `i` went out no earlier than its slots, as the earlier requests left
/// them, let it go when it was asked for at `asked[i]`.
pub open spec fn waited_for_gate(start: RequestGate, sent: Seq<u64>, asked: Seq<u64>, endpoints: Seq<Endpoint>, i: int) -> bool {
    let gate = gate_after(start, sent, endpoints, i as nat);
    sent[i] >= asked[i] + delay_until(
        ready_at_spec(gate.request_ok, gate.market_request_ok, endpoints[i].uses_market_limit_spec()),
        asked[i],
    )
}

/// The facts about the first `n` requests that the spacing law is built from.
proof fn lemma_gate_runs_prefix(start: RequestGate, sent: Seq<u64>, asked: Seq<u64>, endpoints: Seq<Endpoint>, n: nat)
    requires
        n <= sent.len(),
        asked.len() == sent.len(),
        endpoints.len() == sent.len(),
        forall|i: int| 0 <= i < sent.len() ==> #[trigger] sent[i] + MARKET_INTERVAL_MS <= u64::MAX,
        forall|i: int| 0 <= i < sent.len() ==> #[trigger] waited_for_gate(start, sent, asked, endpoints, i),
    ensures
        n > 0 ==> gate_after(start, sent, endpoints, n).request_ok == sent[n - 1] + REQUEST_INTERVAL_MS,
        forall|i: int| 0 <= i < n && (#[trigger] endpoints[i]).uses_market_limit_spec()
            ==> gate_after(start, sent, endpoints, n).market_request_ok >= sent[i] + MARKET_INTERVAL_MS,
        forall|i: int, j: int| 0 <= i < j < n ==> #[trigger] sent[j] >= #[trigger] sent[i] + REQUEST_INTERVAL_MS,
        forall|i: int, j: int|
            0 <= i < j < n && (#[trigger] endpoints[i]).uses_market_limit_spec() && (#[trigger] endpoints[j]).uses_market_limit_spec()
                ==> sent[j] >= sent[i] + MARKET_INTERVAL_MS,
    decreases n,
{
    if n > 0 {
        let m = (n - 1) as int;
        lemma_gate_runs_prefix(start, sent, asked, endpoints, (n - 1) as nat);
        let g = gate_after(start, sent, endpoints, m as nat);
        let market = endpoints[m].uses_market_limit_spec();
        let ready = ready_at_spec(g.request_ok, g.market_request_ok, market);
        assert(waited_for_gate(start, sent, asked, endpoints, m));
        assert(sent[m] >= ready);
        assert(sent[m] + MARKET_INTERVAL_MS <= u64::MAX);
        assert forall|i: int, j: int| 0 <= i < j < n implies #[trigger] sent[j] >= #[trigger] sent[i] + REQUEST_INTERVAL_MS by {
            if j == m {
                assert(sent[m] >= g.request_ok);
                if i < m - 1 {
                    assert(sent[m - 1] >= sent[i] + REQUEST_INTERVAL_MS);
                }
            }
        }
        assert forall|i: int, j: int|
            0 <= i < j < n && (#[trigger] endpoints[i]).uses_market_limit_spec() && (#[trigger] endpoints[j]).uses_market_limit_spec()
            implies sent[j] >= sent[i] + MARKET_INTERVAL_MS by {
            if j == m {
                assert(sent[m] >= g.market_request_ok);
            }
        }
        assert forall|i: int| 0 <= i < n && (#[trigger] endpoints[i]).uses_market_limit_spec()
            implies gate_after(start, sent, endpoints, n).market_request_ok >= sent[i] + MARKET_INTERVAL_MS by {
            if market && i < m {
                assert(sent[m] >= sent[i] + REQUEST_INTERVAL_MS);
            }
        }
    }
}

/// However requests are interleaved, as long as each goes out no earlier than
/// its slots let it (and is then marked sent), any two requests go out at
/// least `REQUEST_INTERVAL_MS` apart, and any two market searches at least
/// `MARKET_INTERVAL_MS` apart, whatever requests stand between them.
pub proof fn lemma_gate_spacing_over_runs(start: RequestGate, sent: Seq<u64>, asked: Seq<u64>, endpoints: Seq<Endpoint>)
    requires
        asked.len() == sent.len(),
        endpoints.len() == sent.len(),
        forall|i: int| 0 <= i < sent.len() ==> #[trigger] sent[i] + MARKET_INTERVAL_MS <= u64::MAX,
        forall|i: int| 0 <= i < sent.len() ==> #[trigger] waited_for_gate(start, sent, asked, endpoints, i),
    ensures
        forall|i: int, j: int| 0 <= i < j < sent.len() ==> #[trigger] sent[j] >= #[trigger] sent[i] + REQUEST_INTERVAL_MS,
        forall|i: int, j: int|
            0 <= i < j < sent.len() && (#[trigger] endpoints[i]).uses_market_limit_spec() && (#[trigger] endpoints[j]).uses_market_limit_spec()
                ==> sent[j] >= sent[i] + MARKET_INTERVAL_MS,
{
    lemma_gate_runs_prefix(start, sent, asked, endpoints, sent.len());
}

/// The offsets of the listing pages after the first, given the number of
/// matches the first page reported.
pub fn market_page_offsets(total: usize) -> (r: Vec<usize>)
    ensures
        r@.len() == page_count(MAX_LIMIT as int, MAX_LIMIT as int, total as int, MAX_OFFSET as int),
        forall|i: int| 0 <= i < r@.len() ==> #[trigger] r@[i] == MAX_LIMIT + i * MAX_LIMIT,
        forall|i: int| 0 <= i < r@.len() ==> #[trigger] r@[i] < total && r@[i] <= MAX_OFFSET,
{
    let r = follow_up_offsets(MAX_LIMIT, MAX_LIMIT, total, MAX_OFFSET);
    assert forall|i: int| 0 <= i < r@.len() implies #[trigger] r@[i] < total && r@[i] <= MAX_OFFSET by {
        assert(page_wanted(r@[i] as int, total as int, MAX_OFFSET as int));
    }
    r
}

} // verus!
