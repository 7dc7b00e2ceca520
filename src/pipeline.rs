use vstd::prelude::*;
use crate::limiter::{counted, decided, LimitDecision, LimiterSpec, RequestInfo};
use crate::store::{Bucket, StoreKey, WindowCounterStore};

verus! {

/// The outcome of running a request through every limiter of a pipeline.
#[derive(Clone, Copy, Debug, PartialEq, Eq, Structural)]
pub enum PipelineResult {
    Allowed,
    /// The limiter at `index`, of scope `scope`, was the first to deny.
    Denied { index: usize, scope: u64, decision: LimitDecision },
}

/// What the limiters from `i` on do to the buckets `m` and what they decide.
pub open spec fn run_from(
    specs: Seq<LimiterSpec>,
    i: int,
    m: Map<StoreKey, Bucket>,
    req: RequestInfo,
    now: u64,
) -> (Map<StoreKey, Bucket>, PipelineResult)
    decreases specs.len() - i,
{
    if i < 0 || i >= specs.len() {
        (m, PipelineResult::Allowed)
    } else {
        let m2 = counted(specs[i], m, req, now);
        let d = decided(specs[i], m, req, now);
        if !d.allowed {
            (m2, PipelineResult::Denied { index: i as usize, scope: specs[i].scope, decision: d })
        } else {
            run_from(specs, i + 1, m2, req, now)
        }
    }
}

pub open spec fn scopes_distinct(specs: Seq<LimiterSpec>) -> bool {
    forall|i: int, j: int|
        0 <= i < specs.len() && 0 <= j < specs.len() && i != j ==> #[trigger] specs[i].scope != #[trigger] specs[j].scope
}

/// An ordered list of limiters, each with a scope of its own.
pub struct PipelineConfig {
    pub specs: Vec<LimiterSpec>,
}

impl PipelineConfig {
    pub open spec fn wf(&self) -> bool {
        &&& scopes_distinct(self.specs@)
        &&& forall|i: int| 0 <= i < self.specs@.len() ==> #[trigger] self.specs@[i].wf()
    }

    /// A pipeline of `specs`, in order; `None` where two share a scope or a
    /// policy is not valid.
    pub fn new(specs: Vec<LimiterSpec>) -> (r: Option<PipelineConfig>)
        ensures
            r is Some <==> (scopes_distinct(specs@) && forall|i: int| 0 <= i < specs@.len() ==> #[trigger] specs@[i].wf()),
            r matches Some(p) ==> p.specs@ == specs@ && p.wf(),
    {
        let mut i: usize = 0;
        while i < specs.len()
            invariant
                i <= specs@.len(),
                forall|a: int| 0 <= a < i ==> #[trigger] specs@[a].wf(),
                forall|a: int, b: int| 0 <= a < i && 0 <= b < specs@.len() && a != b ==>
                    #[trigger] specs@[a].scope != #[trigger] specs@[b].scope,
            decreases specs@.len() - i,
        {
            if !(specs[i].policy.window_secs > 0 && specs[i].policy.max_requests >= 1) {
                assert(!specs@[i as int].wf());
                return None;
            }
            let mut j: usize = 0;
            while j < specs.len()
                invariant
                    i < specs@.len(),
                    j <= specs@.len(),
                    forall|b: int| 0 <= b < j && b != i ==> #[trigger] specs@[b].scope != specs@[i as int].scope,
                decreases specs@.len() - j,
            {
                if j != i && specs[j].scope == specs[i].scope {
                    assert(!scopes_distinct(specs@)) by {
                        assert(specs@[j as int].scope == specs@[i as int].scope);
                    }
                    return None;
                }
                j += 1;
            }
            i += 1;
        }
        Some(PipelineConfig { specs })
    }

    /// Runs `req` through the limiters in order. The first that denies ends the
    /// run: the limiters after it neither decide nor count.
    pub fn run(&self, store: &mut WindowCounterStore, req: &RequestInfo, now: u64) -> (r: PipelineResult)
        requires
            old(store).wf(),
        ensures
            final(store).wf(),
            (final(store)@, r) == run_from(self.specs@, 0, old(store)@, *req, now),
    {
        let mut i: usize = 0;
        while i < self.specs.len()
            invariant
                store.wf(),
                i <= self.specs@.len(),
                run_from(self.specs@, i as int, store@, *req, now) == run_from(self.specs@, 0, old(store)@, *req, now),
            decreases self.specs@.len() - i,
        {
            let d = self.specs[i].evaluate(store, req, now);
            if !d.allowed {
                return PipelineResult::Denied { index: i, scope: self.specs[i].scope, decision: d };
            }
            i += 1;
        }
        PipelineResult::Allowed
    }
}

} // verus!
