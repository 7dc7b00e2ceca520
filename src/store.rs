use vstd::prelude::*;
use crate::policy::WindowPolicy;

verus! {

/// The counted state of one key: requests counted in the current window and
/// the second at which that window began.
#[derive(Clone, Copy, Debug, PartialEq, Eq, Structural)]
pub struct Bucket {
    pub count: u64,
    pub window_start: u64,
}

/// A key as the store sees it: the scope of the limiter that owns it, and the derived key text.
pub type StoreKey = (u64, Seq<char>);

/// Whether `b`'s window is over at `now`. A window that starts after `now`
/// cannot be trusted either, and counts as over.
pub open spec fn window_expired(b: Bucket, window_secs: u64, now: u64) -> bool {
    now < b.window_start || now - b.window_start >= window_secs
}

pub open spec fn saturating_inc(c: u64) -> u64 {
    if c == u64::MAX { c } else { (c + 1) as u64 }
}

/// The bucket after one counted request at `now`, given the bucket before it (if any).
pub open spec fn next_bucket(prev: Option<Bucket>, window_secs: u64, now: u64) -> Bucket {
    match prev {
        Some(b) => if window_expired(b, window_secs, now) {
            Bucket { count: 1, window_start: now }
        } else {
            Bucket { count: saturating_inc(b.count), window_start: b.window_start }
        },
        None => Bucket { count: 1, window_start: now },
    }
}

/// The second at which `b`'s window ends (capped at the largest timestamp).
pub open spec fn reset_at_of(b: Bucket, window_secs: u64) -> u64 {
    if b.window_start + window_secs > u64::MAX {
        u64::MAX
    } else {
        (b.window_start + window_secs) as u64
    }
}

/// What one counted request learns of its bucket.
#[derive(Clone, Copy, Debug, PartialEq, Eq, Structural)]
pub struct StoreOutcome {
    pub allowed: bool,
    pub count: u64,
    pub remaining: u64,
    pub reset_at: u64,
}

pub open spec fn outcome_of(b: Bucket, policy: WindowPolicy) -> StoreOutcome {
    StoreOutcome {
        allowed: b.count <= policy.max_requests,
        count: b.count,
        remaining: if b.count >= policy.max_requests { 0 } else { (policy.max_requests - b.count) as u64 },
        reset_at: reset_at_of(b, policy.window_secs),
    }
}

struct Entry {
    scope: u64,
    key: String,
    bucket: Bucket,
}

impl Entry {
    spec fn store_key(&self) -> StoreKey {
        (self.scope, self.key@)
    }
}

/// Per-key counters with lazy expiry. Every limiter is handed the same store;
/// buckets are told apart by the limiter's scope as well as by the key text.
pub struct WindowCounterStore {
    entries: Vec<Entry>,
    buckets: Ghost<Map<StoreKey, Bucket>>,
}

impl View for WindowCounterStore {
    type V = Map<StoreKey, Bucket>;

    closed spec fn view(&self) -> Map<StoreKey, Bucket> {
        self.buckets@
    }
}

impl WindowCounterStore {
    pub closed spec fn wf(&self) -> bool {
        &&& forall|i: int, j: int|
            0 <= i < self.entries@.len() && 0 <= j < self.entries@.len() && i != j
                ==> #[trigger] self.entries@[i].store_key() != #[trigger] self.entries@[j].store_key()
        &&& forall|i: int| 0 <= i < self.entries@.len() ==> {
            &&& self.buckets@.contains_key(#[trigger] self.entries@[i].store_key())
            &&& self.buckets@[self.entries@[i].store_key()] == self.entries@[i].bucket
        }
        &&& forall|k: StoreKey| #[trigger] self.buckets@.contains_key(k)
            ==> exists|i: int| 0 <= i < self.entries@.len() && self.entries@[i].store_key() == k
    }

    /// An empty store.
    pub fn new() -> (s: Self)
        ensures
            s.wf(),
            s@ == Map::<StoreKey, Bucket>::empty(),
    {
        WindowCounterStore { entries: Vec::new(), buckets: Ghost(Map::empty()) }
    }

    fn position(&self, scope: u64, key: &String) -> (r: Option<usize>)
        requires
            self.wf(),
        ensures
            match r {
                Some(i) => i < self.entries@.len() && self.entries@[i as int].store_key() == (scope, key@),
                None => !self@.contains_key((scope, key@)),
            },
    {
        let mut i: usize = 0;
        while i < self.entries.len()
            invariant
                self.wf(),
                i <= self.entries@.len(),
                forall|j: int| 0 <= j < i ==> #[trigger] self.entries@[j].store_key() != (scope, key@),
            decreases self.entries@.len() - i,
        {
            let e = &self.entries[i];
            if e.scope == scope && e.key == *key {
                return Some(i);
            }
            i += 1;
        }
        None
    }

    /// The bucket of `key` in `scope`, if one was ever counted, expired or not.
    pub fn bucket(&self, scope: u64, key: &String) -> (r: Option<Bucket>)
        requires
            self.wf(),
        ensures
            r == (if self@.contains_key((scope, key@)) { Some(self@[(scope, key@)]) } else { None }),
    {
        match self.position(scope, key) {
            Some(i) => Some(self.entries[i].bucket),
            None => None,
        }
    }

    /// Counts one request for `key` in `scope` at `now`, starting a new window where
    /// there is none or the old one is over, and tells whether the request fits.
    /// The request is counted whether or not it is allowed.
    pub fn increment_and_check(&mut self, scope: u64, key: &String, policy: &WindowPolicy, now: u64) -> (r: StoreOutcome)
        requires
            old(self).wf(),
        ensures
            final(self).wf(),
            final(self)@ == old(self)@.insert(
                (scope, key@),
                next_bucket(
                    if old(self)@.contains_key((scope, key@)) { Some(old(self)@[(scope, key@)]) } else { None },
                    policy.window_secs,
                    now,
                ),
            ),
            r == outcome_of(final(self)@[(scope, key@)], *policy),
    {
        let ghost k = (scope, key@);
        let nb: Bucket;
        match self.position(scope, key) {
            Some(i) => {
                let b = self.entries[i].bucket;
                nb = if now < b.window_start || now - b.window_start >= policy.window_secs {
                    Bucket { count: 1, window_start: now }
                } else {
                    Bucket { count: b.count.saturating_add(1), window_start: b.window_start }
                };
                let ghost old_entries = self.entries@;
                self.entries[i].bucket = nb;
                proof {
                    self.buckets@ = self.buckets@.insert(k, nb);
                    assert forall|j: int| 0 <= j < self.entries@.len() && j != i implies
                        self.entries@[j] == old_entries[j] by {}
                    assert forall|k2: StoreKey| #[trigger] self.buckets@.contains_key(k2)
                        implies exists|j: int| 0 <= j < self.entries@.len() && self.entries@[j].store_key() == k2 by {
                        if k2 == k {
                            assert(self.entries@[i as int].store_key() == k2);
                        } else {
                            let j = choose|j: int| 0 <= j < old_entries.len() && old_entries[j].store_key() == k2;
                            assert(self.entries@[j].store_key() == k2);
                        }
                    }
                }
            },
            None => {
                nb = Bucket { count: 1, window_start: now };
                let ghost old_entries = self.entries@;
                self.entries.push(Entry { scope, key: key.clone(), bucket: nb });
                proof {
                    self.buckets@ = self.buckets@.insert(k, nb);
                    let n = old_entries.len() as int;
                    assert(self.entries@[n].store_key() == k);
                    assert forall|j: int| 0 <= j < n implies self.entries@[j] == old_entries[j] by {}
                    assert forall|k2: StoreKey| #[trigger] self.buckets@.contains_key(k2)
                        implies exists|j: int| 0 <= j < self.entries@.len() && self.entries@[j].store_key() == k2 by {
                        if k2 == k {
                            assert(self.entries@[n].store_key() == k2);
                        } else {
                            let j = choose|j: int| 0 <= j < old_entries.len() && old_entries[j].store_key() == k2;
                            assert(self.entries@[j].store_key() == k2);
                        }
                    }
                }
            },
        }
        let reset_at = nb.window_start.saturating_add(policy.window_secs);
        let remaining = policy.max_requests.saturating_sub(nb.count);
        StoreOutcome { allowed: nb.count <= policy.max_requests, count: nb.count, remaining, reset_at }
    }
    /// Drops every bucket of `scope` whose window of `window_secs` is over at
    /// `now`; the other buckets stay as they are.
    pub fn sweep(&mut self, scope: u64, window_secs: u64, now: u64)
        requires
            old(self).wf(),
        ensures
            final(self).wf(),
            forall|k: StoreKey| #[trigger] final(self)@.contains_key(k) <==> (old(self)@.contains_key(k)
                && !(k.0 == scope && window_expired(old(self)@[k], window_secs, now))),
            forall|k: StoreKey| #[trigger] final(self)@.contains_key(k) ==> final(self)@[k] == old(self)@[k],
    {
        let mut kept: Vec<Entry> = Vec::new();
        let ghost mut g: Map<StoreKey, Bucket> = Map::empty();
        let mut i: usize = 0;
        while i < self.entries.len()
            invariant
                self.wf(),
                self == old(self),
                i <= self.entries@.len(),
                forall|a: int, b: int|
                    0 <= a < kept@.len() && 0 <= b < kept@.len() && a != b
                        ==> #[trigger] kept@[a].store_key() != #[trigger] kept@[b].store_key(),
                forall|a: int| 0 <= a < kept@.len() ==> {
                    &&& g.contains_key(#[trigger] kept@[a].store_key())
                    &&& g[kept@[a].store_key()] == kept@[a].bucket
                },
                forall|k: StoreKey| #[trigger] g.contains_key(k) ==> {
                    &&& exists|a: int| 0 <= a < kept@.len() && kept@[a].store_key() == k
                    &&& exists|j: int| 0 <= j < i && self.entries@[j].store_key() == k
                    &&& self@.contains_key(k)
                    &&& self@[k] == g[k]
                    &&& !(k.0 == scope && window_expired(g[k], window_secs, now))
                },
                forall|j: int| 0 <= j < i && !(self.entries@[j].scope == scope
                    && window_expired(self.entries@[j].bucket, window_secs, now))
                    ==> g.contains_key(#[trigger] self.entries@[j].store_key()),
            decreases self.entries@.len() - i,
        {
            let e = &self.entries[i];
            let b = e.bucket;
            let expired = now < b.window_start || now - b.window_start >= window_secs;
            if !(e.scope == scope && expired) {
                let ghost k = e.store_key();
                assert(!g.contains_key(k)) by {
                    if g.contains_key(k) {
                        let j = choose|j: int| 0 <= j < i && self.entries@[j].store_key() == k;
                        assert(self.entries@[j].store_key() == self.entries@[i as int].store_key());
                    }
                }
                let ghost old_kept = kept@;
                kept.push(Entry { scope: e.scope, key: e.key.clone(), bucket: b });
                proof {
                    g = g.insert(k, b);
                    let n = old_kept.len() as int;
                    assert(kept@[n].store_key() == k);
                    assert forall|a: int| 0 <= a < n implies kept@[a] == old_kept[a] by {}
                    assert forall|k2: StoreKey| #[trigger] g.contains_key(k2) implies {
                        &&& exists|a: int| 0 <= a < kept@.len() && kept@[a].store_key() == k2
                        &&& exists|j: int| 0 <= j < i + 1 && self.entries@[j].store_key() == k2
                    } by {
                        if k2 == k {
                            assert(kept@[n].store_key() == k2);
                            assert(self.entries@[i as int].store_key() == k2);
                        } else {
                            let a = choose|a: int| 0 <= a < old_kept.len() && old_kept[a].store_key() == k2;
                            assert(kept@[a].store_key() == k2);
                            let j = choose|j: int| 0 <= j < i && self.entries@[j].store_key() == k2;
                            assert(self.entries@[j].store_key() == k2);
                        }
                    }
                }
            } else {
                proof {
                    assert forall|k2: StoreKey| #[trigger] g.contains_key(k2) implies
                        exists|j: int| 0 <= j < i + 1 && self.entries@[j].store_key() == k2 by {
                        let j = choose|j: int| 0 <= j < i && self.entries@[j].store_key() == k2;
                        assert(self.entries@[j].store_key() == k2);
                    }
                }
            }
            i += 1;
        }
        proof {
            assert forall|k: StoreKey| #[trigger] self@.contains_key(k)
                && !(k.0 == scope && window_expired(self@[k], window_secs, now)) implies g.contains_key(k) by {
                let j = choose|j: int| 0 <= j < self.entries@.len() && self.entries@[j].store_key() == k;
                assert(self.entries@[j].store_key() == k);
            }
        }
        self.entries = kept;
        self.buckets = Ghost(g);
    }
}

} // verus!
