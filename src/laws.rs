use vstd::prelude::*;
use crate::limiter::{bucket_in, counted, decided, LimiterSpec, RequestInfo};
use crate::pipeline::{run_from, scopes_distinct, PipelineResult};
use crate::policy::WindowPolicy;
use crate::store::{next_bucket, outcome_of, window_expired, Bucket, StoreKey};

verus! {

/// The bucket of one key after requests at the times `ts`, in that order,
/// starting from `prev`.
pub open spec fn replay(prev: Option<Bucket>, window_secs: u64, ts: Seq<u64>) -> Option<Bucket>
    decreases ts.len(),
{
    if ts.len() == 0 {
        prev
    } else {
        Some(next_bucket(replay(prev, window_secs, ts.drop_last()), window_secs, ts.last()))
    }
}

/// Whether the ith request of `ts` (counting from 1) is allowed.
pub open spec fn nth_allowed(prev: Option<Bucket>, policy: WindowPolicy, ts: Seq<u64>, n: int) -> bool {
    outcome_of(replay(prev, policy.window_secs, ts.take(n)).unwrap(), policy).allowed
}

/// Times in order that all fall within one window opened by the first of them.
pub open spec fn within_one_window(ts: Seq<u64>, window_secs: u64) -> bool {
    &&& ts.len() > 0
    &&& forall|i: int, j: int| 0 <= i <= j < ts.len() ==> ts[i] <= ts[j]
    &&& ts.last() - ts[0] < window_secs
}

/// Whether a request at `now` opens a new window over `prev`.
pub open spec fn opens_window(prev: Option<Bucket>, window_secs: u64, now: u64) -> bool {
    match prev {
        Some(b) => window_expired(b, window_secs, now),
        None => true,
    }
}

proof fn lemma_prefix_within(ts: Seq<u64>, window_secs: u64, n: int)
    requires
        within_one_window(ts, window_secs),
        1 <= n <= ts.len(),
    ensures
        within_one_window(ts.take(n), window_secs),
        ts.take(n)[0] == ts[0],
{
    let p = ts.take(n);
    assert(p.last() <= ts.last());
}

/// Requests within one window opened by the first of them count up from one.
pub proof fn lemma_replay_counts(prev: Option<Bucket>, window_secs: u64, ts: Seq<u64>)
    requires
        within_one_window(ts, window_secs),
        opens_window(prev, window_secs, ts[0]),
        ts.len() <= u64::MAX,
    ensures
        replay(prev, window_secs, ts) == Some(Bucket { count: ts.len() as u64, window_start: ts[0] }),
    decreases ts.len(),
{
    let p = ts.drop_last();
    if ts.len() > 1 {
        assert(p =~= ts.take(ts.len() - 1));
        lemma_prefix_within(ts, window_secs, ts.len() - 1);
        lemma_replay_counts(prev, window_secs, p);
        assert(ts[0] <= ts.last());
        let b = Bucket { count: p.len() as u64, window_start: ts[0] };
        assert(!window_expired(b, window_secs, ts.last()));
    } else {
        assert(replay(prev, window_secs, p) == prev);
    }
}

/// Within one window, the first `max_requests` requests of a key are allowed and
/// every later one is denied: the nth request is allowed exactly when n is at
/// most `max_requests`.
pub proof fn law_allows_up_to_limit(prev: Option<Bucket>, policy: WindowPolicy, ts: Seq<u64>, n: int)
    requires
        policy.wf(),
        within_one_window(ts, policy.window_secs),
        opens_window(prev, policy.window_secs, ts[0]),
        ts.len() <= u64::MAX,
        1 <= n <= ts.len(),
    ensures
        nth_allowed(prev, policy, ts, n) == (n <= policy.max_requests),
{
    lemma_prefix_within(ts, policy.window_secs, n);
    lemma_replay_counts(prev, policy.window_secs, ts.take(n));
}

/// The buckets after `spec` counts `req` at each of the times `ts`, in order.
pub open spec fn counted_all(spec: LimiterSpec, m: Map<StoreKey, Bucket>, req: RequestInfo, ts: Seq<u64>) -> Map<StoreKey, Bucket>
    decreases ts.len(),
{
    if ts.len() == 0 {
        m
    } else {
        counted(spec, counted_all(spec, m, req, ts.drop_last()), req, ts.last())
    }
}

proof fn lemma_counted_all_bucket(spec: LimiterSpec, m: Map<StoreKey, Bucket>, req: RequestInfo, ts: Seq<u64>)
    ensures
        bucket_in(counted_all(spec, m, req, ts), spec.store_key(&req))
            == replay(bucket_in(m, spec.store_key(&req)), spec.policy.window_secs, ts),
    decreases ts.len(),
{
    if ts.len() > 0 {
        lemma_counted_all_bucket(spec, m, req, ts.drop_last());
    }
}

/// Of the requests that a limiter evaluates for one key within one window, the
/// nth (counting from 1) is allowed exactly when n is at most `max_requests`.
pub proof fn law_evaluate_allows_up_to_limit(
    spec: LimiterSpec,
    m: Map<StoreKey, Bucket>,
    req: RequestInfo,
    ts: Seq<u64>,
    n: int,
)
    requires
        spec.wf(),
        within_one_window(ts, spec.policy.window_secs),
        opens_window(bucket_in(m, spec.store_key(&req)), spec.policy.window_secs, ts[0]),
        ts.len() <= u64::MAX,
        1 <= n <= ts.len(),
    ensures
        decided(spec, counted_all(spec, m, req, ts.take(n - 1)), req, ts[n - 1]).allowed == (n <= spec.policy.max_requests),
{
    let k = spec.store_key(&req);
    let prev = bucket_in(m, k);
    lemma_counted_all_bucket(spec, m, req, ts.take(n - 1));
    assert(ts.take(n).drop_last() =~= ts.take(n - 1));
    assert(replay(prev, spec.policy.window_secs, ts.take(n))
        == Some(next_bucket(replay(prev, spec.policy.window_secs, ts.take(n - 1)), spec.policy.window_secs, ts[n - 1])));
    law_allows_up_to_limit(prev, spec.policy, ts, n);
}

/// Once `window_secs` have passed since a key's window began, the next request
/// that the limiter evaluates for it starts a new window: its bucket holds a
/// count of one from that request on, whatever was counted before, and the
/// request is allowed.
pub proof fn law_window_restarts(spec: LimiterSpec, m: Map<StoreKey, Bucket>, req: RequestInfo, now: u64)
    requires
        spec.wf(),
        m.contains_key(spec.store_key(&req)),
        now >= m[spec.store_key(&req)].window_start + spec.policy.window_secs,
    ensures
        bucket_in(counted(spec, m, req, now), spec.store_key(&req)) == Some(Bucket { count: 1, window_start: now }),
        decided(spec, m, req, now).allowed,
{
}

/// A limiter counts nothing in another scope: after `a` counts any request, the
/// bucket that `b`, of another scope, keeps for any request is what it was, and so
/// is `b`'s decision, even where both derive the same key text.
pub proof fn law_scopes_isolated(
    a: LimiterSpec,
    b: LimiterSpec,
    m: Map<StoreKey, Bucket>,
    req_a: RequestInfo,
    req_b: RequestInfo,
    now: u64,
)
    requires
        a.scope != b.scope,
    ensures
        bucket_in(counted(a, m, req_a, now), b.store_key(&req_b)) == bucket_in(m, b.store_key(&req_b)),
        decided(b, counted(a, m, req_a, now), req_b, now) == decided(b, m, req_b, now),
{
}

proof fn lemma_run_untouched(
    specs: Seq<LimiterSpec>,
    i: int,
    m: Map<StoreKey, Bucket>,
    req: RequestInfo,
    now: u64,
    k: StoreKey,
)
    requires
        0 <= i,
        specs.len() <= usize::MAX,
    ensures
        ({
            let (m2, r) = run_from(specs, i, m, req, now);
            match r {
                PipelineResult::Denied { index, .. } => {
                    &&& i <= index < specs.len()
                    &&& (forall|j: int| i <= j <= index ==> #[trigger] specs[j].store_key(&req) != k)
                        ==> bucket_in(m2, k) == bucket_in(m, k)
                },
                PipelineResult::Allowed => (forall|j: int| i <= j < specs.len() ==> #[trigger] specs[j].store_key(&req) != k)
                    ==> bucket_in(m2, k) == bucket_in(m, k),
            }
        }),
    decreases specs.len() - i,
{
    if i < specs.len() {
        let m1 = counted(specs[i], m, req, now);
        if specs[i].store_key(&req) != k {
            assert(bucket_in(m1, k) == bucket_in(m, k));
        }
        if decided(specs[i], m, req, now).allowed {
            lemma_run_untouched(specs, i + 1, m1, req, now, k);
        } else {
            assert((i as usize) as int == i);
        }
    }
}

/// When a limiter of the pipeline denies, the limiters after it count nothing:
/// the buckets they keep for the request are what they were before it.
pub proof fn law_denial_stops_counting(
    specs: Seq<LimiterSpec>,
    m: Map<StoreKey, Bucket>,
    req: RequestInfo,
    now: u64,
    j: int,
)
    requires
        scopes_distinct(specs),
        specs.len() <= usize::MAX,
        run_from(specs, 0, m, req, now).1 matches PipelineResult::Denied { index, .. } && index < j < specs.len(),
    ensures
        bucket_in(run_from(specs, 0, m, req, now).0, specs[j].store_key(&req)) == bucket_in(m, specs[j].store_key(&req)),
{
    let k = specs[j].store_key(&req);
    lemma_run_untouched(specs, 0, m, req, now, k);
    if let PipelineResult::Denied { index, .. } = run_from(specs, 0, m, req, now).1 {
        assert forall|l: int| 0 <= l <= index implies #[trigger] specs[l].store_key(&req) != k by {
            assert(specs[l].scope != specs[j].scope);
        }
    }
}

/// How many of the requests that `spec` evaluates for `req` at the times `ts`,
/// in order and starting from the buckets `m`, are allowed.
pub open spec fn allowed_count(spec: LimiterSpec, m: Map<StoreKey, Bucket>, req: RequestInfo, ts: Seq<u64>) -> nat
    decreases ts.len(),
{
    if ts.len() == 0 {
        0
    } else {
        allowed_count(spec, m, req, ts.drop_last()) + (if decided(
            spec,
            counted_all(spec, m, req, ts.drop_last()),
            req,
            ts.last(),
        ).allowed {
            1nat
        } else {
            0nat
        })
    }
}

/// However many requests of one key a limiter evaluates within one window,
/// exactly as many as its limit (or all of them, where they are fewer) are
/// allowed. Evaluations that race are ordered by the exclusive borrow of the
/// store, so this holds of them too.
pub proof fn law_no_over_admission(spec: LimiterSpec, m: Map<StoreKey, Bucket>, req: RequestInfo, ts: Seq<u64>)
    requires
        spec.wf(),
        within_one_window(ts, spec.policy.window_secs),
        opens_window(bucket_in(m, spec.store_key(&req)), spec.policy.window_secs, ts[0]),
        ts.len() <= u64::MAX,
    ensures
        allowed_count(spec, m, req, ts) == if ts.len() <= spec.policy.max_requests {
            ts.len()
        } else {
            spec.policy.max_requests as nat
        },
    decreases ts.len(),
{
    let p = ts.drop_last();
    assert(p =~= ts.take(ts.len() - 1));
    assert(ts.take(ts.len() as int) =~= ts);
    law_evaluate_allows_up_to_limit(spec, m, req, ts, ts.len() as int);
    if ts.len() > 1 {
        lemma_prefix_within(ts, spec.policy.window_secs, ts.len() - 1);
        law_no_over_admission(spec, m, req, p);
    } else {
        assert(allowed_count(spec, m, req, p) == 0);
    }
}

} // verus!
