use vstd::prelude::*;
use vstd::string::StringExecFns;
use crate::policy::WindowPolicy;
use crate::store::{next_bucket, outcome_of, Bucket, StoreKey, StoreOutcome, WindowCounterStore};

verus! {

/// How a limiter derives its key from a request.
#[derive(Clone, Copy, Debug, PartialEq, Eq, Structural)]
pub enum KeyRule {
    /// The peer's address alone.
    PeerIp,
    /// The peer's address and the request path, joined by `-`.
    PeerIpAndPath,
}

/// The two facts of a request that admission control reads.
pub struct RequestInfo {
    pub peer_ip: String,
    pub path: String,
}

pub open spec fn key_of(rule: KeyRule, peer_ip: Seq<char>, path: Seq<char>) -> Seq<char> {
    match rule {
        KeyRule::PeerIp => peer_ip,
        KeyRule::PeerIpAndPath => peer_ip + seq!['-'] + path,
    }
}

/// The key text of `req` under `rule`.
pub fn derive_key(rule: KeyRule, req: &RequestInfo) -> (r: String)
    ensures
        r@ == key_of(rule, req.peer_ip@, req.path@),
{
    match rule {
        KeyRule::PeerIp => req.peer_ip.clone(),
        KeyRule::PeerIpAndPath => {
            proof {
                reveal_strlit("-");
            }
            req.peer_ip.clone().concat("-").concat(req.path.as_str())
        },
    }
}

/// One configured limiter: the scope that namespaces its buckets, its window,
/// how it derives keys, and the action that its denial message names.
pub struct LimiterSpec {
    pub scope: u64,
    pub policy: WindowPolicy,
    pub key_rule: KeyRule,
    pub action: String,
}

impl LimiterSpec {
    pub open spec fn wf(&self) -> bool {
        self.policy.wf()
    }

    pub open spec fn store_key(&self, req: &RequestInfo) -> StoreKey {
        (self.scope, key_of(self.key_rule, req.peer_ip@, req.path@))
    }
}

/// The verdict of one limiter on one request, with the quota metadata that a
/// response reports.
#[derive(Clone, Copy, Debug, PartialEq, Eq, Structural)]
pub struct LimitDecision {
    pub allowed: bool,
    pub limit: u64,
    pub remaining: u64,
    pub reset_at: u64,
    /// Seconds from the request until the window resets.
    pub retry_after: u64,
}

pub open spec fn decision_of(o: StoreOutcome, policy: WindowPolicy, now: u64) -> LimitDecision {
    LimitDecision {
        allowed: o.allowed,
        limit: policy.max_requests,
        remaining: o.remaining,
        reset_at: o.reset_at,
        retry_after: if o.reset_at > now { (o.reset_at - now) as u64 } else { 0 },
    }
}

pub open spec fn bucket_in(m: Map<StoreKey, Bucket>, k: StoreKey) -> Option<Bucket> {
    if m.contains_key(k) { Some(m[k]) } else { None }
}

/// The buckets after `spec` counts `req` at `now`.
pub open spec fn counted(spec: LimiterSpec, m: Map<StoreKey, Bucket>, req: RequestInfo, now: u64) -> Map<StoreKey, Bucket> {
    let k = spec.store_key(&req);
    m.insert(k, next_bucket(bucket_in(m, k), spec.policy.window_secs, now))
}

/// The decision of `spec` on `req` at `now`, over the buckets `m` before it.
pub open spec fn decided(spec: LimiterSpec, m: Map<StoreKey, Bucket>, req: RequestInfo, now: u64) -> LimitDecision {
    let k = spec.store_key(&req);
    decision_of(outcome_of(next_bucket(bucket_in(m, k), spec.policy.window_secs, now), spec.policy), spec.policy, now)
}

impl LimiterSpec {
    /// Counts `req` in this limiter's bucket for it and decides whether it is admitted.
    pub fn evaluate(&self, store: &mut WindowCounterStore, req: &RequestInfo, now: u64) -> (r: LimitDecision)
        requires
            old(store).wf(),
        ensures
            final(store).wf(),
            final(store)@ == counted(*self, old(store)@, *req, now),
            r == decided(*self, old(store)@, *req, now),
    {
        let key = derive_key(self.key_rule, req);
        let o = store.increment_and_check(self.scope, &key, &self.policy, now);
        let retry_after = if o.reset_at > now { o.reset_at - now } else { 0 };
        LimitDecision {
            allowed: o.allowed,
            limit: self.policy.max_requests,
            remaining: o.remaining,
            reset_at: o.reset_at,
            retry_after,
        }
    }
}

} // verus!
