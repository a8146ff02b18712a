//! Candidate pools for neuron selection.
//!
//! A pool is assembled from neurons the caller fetches or creates step by step; this module
//! decides each step, which of the fetched neurons join (by id, first one wins), and when
//! the pool is complete or cannot be completed.

use vstd::prelude::*;

use crate::error::AppError;
use crate::model_call_input::{contains_text, has_text};
use crate::models::{strs_view, NeighborhoodPoolPolicy};
use crate::neuron_config::MAX_CREATE_NEURON_COUNT;
use crate::text::{decimal, join2, owned, push_str, str_eq, u64_to_decimal};

verus! {

/// The ids of a pool so far: the members in order, and every id seen.
#[derive(Debug, Clone)]
pub struct IdPool {
    members: Vec<String>,
    seen: Vec<String>,
}

impl IdPool {
    /// Members, in order.
    pub closed spec fn spec_members(self) -> Seq<Seq<char>> {
        strs_view(self.members@)
    }

    /// Ids seen so far.
    pub closed spec fn spec_seen(self) -> Set<Seq<char>> {
        strs_view(self.seen@).to_set()
    }

    /// An empty pool.
    pub fn new() -> (r: IdPool)
        ensures
            r.spec_members().len() == 0,
            r.spec_seen() == Set::<Seq<char>>::empty(),
    {
        let r = IdPool { members: Vec::new(), seen: Vec::new() };
        proof {
            assert(strs_view(r.seen@).to_set() =~= Set::<Seq<char>>::empty());
        }
        r
    }

    /// Whether `id` was seen.
    pub fn contains(&self, id: &String) -> (r: bool)
        ensures
            r == self.spec_seen().contains(id@),
    {
        let r = contains_text(&self.seen, id);
        proof {
            if has_text(self.seen@, id@) {
                let i = choose|i: int| 0 <= i < self.seen@.len() && (#[trigger] self.seen@[i])@ == id@;
                assert(strs_view(self.seen@)[i] == id@);
            }
            if strs_view(self.seen@).to_set().contains(id@) {
                let i = choose|i: int| 0 <= i < strs_view(self.seen@).len() && strs_view(self.seen@)[i] == id@;
                assert(self.seen@[i]@ == id@);
            }
        }
        r
    }

    /// Adds `id` as a member whether or not it was seen (a neuron that was just created).
    pub fn push(&mut self, id: &String)
        ensures
            final(self).spec_members() == old(self).spec_members().push(id@),
            final(self).spec_seen() == old(self).spec_seen().insert(id@),
    {
        let ghost m0 = self.members@;
        let ghost s0 = self.seen@;
        self.members.push(id.clone());
        self.seen.push(id.clone());
        proof {
            assert(strs_view(self.members@) =~= strs_view(m0).push(id@));
            assert(strs_view(self.seen@) =~= strs_view(s0).push(id@));
            let a = strs_view(self.seen@);
            let b = strs_view(s0);
            assert forall|x: Seq<char>| a.contains(x) <==> (b.contains(x) || x == id@) by {
                if a.contains(x) {
                    let i = choose|i: int| 0 <= i < a.len() && a[i] == x;
                    if i < b.len() {
                        assert(b[i] == x);
                    }
                }
                if b.contains(x) {
                    let i = choose|i: int| 0 <= i < b.len() && b[i] == x;
                    assert(a[i] == x);
                }
                if x == id@ {
                    assert(a[b.len() as int] == x);
                }
            }
            assert(a.to_set() =~= b.to_set().insert(id@));
        }
    }

    /// Adds `id` as a member unless it was seen; returns whether it was added.
    pub fn insert(&mut self, id: &String) -> (r: bool)
        ensures
            r == !old(self).spec_seen().contains(id@),
            r ==> final(self).spec_members() == old(self).spec_members().push(id@),
            !r ==> final(self).spec_members() == old(self).spec_members(),
            final(self).spec_seen() == old(self).spec_seen().insert(id@),
    {
        if self.contains(id) {
            proof {
                assert(self.spec_seen().insert(id@) =~= self.spec_seen());
            }
            false
        } else {
            self.push(id);
            true
        }
    }

    /// Number of members.
    pub fn len(&self) -> (r: usize)
        ensures
            r == self.spec_members().len(),
    {
        self.members.len()
    }

    /// Keeps the first `n` members.
    pub fn truncate(&mut self, n: usize)
        ensures
            final(self).spec_members() == if n < old(self).spec_members().len() {
                old(self).spec_members().take(n as int)
            } else {
                old(self).spec_members()
            },
            final(self).spec_seen() == old(self).spec_seen(),
    {
        let ghost m0 = self.members@;
        self.members.truncate(n);
        proof {
            if n < m0.len() {
                assert(strs_view(self.members@) =~= strs_view(m0).take(n as int));
            }
        }
    }

    /// The members, in order.
    pub fn members(&self) -> (r: Vec<String>)
        ensures
            strs_view(r@) == self.spec_members(),
    {
        let mut out: Vec<String> = Vec::new();
        for i in 0..self.members.len()
            invariant
                out@.len() == i,
                forall|j: int| 0 <= j < i ==> (#[trigger] out@[j])@ == self.members@[j]@,
        {
            out.push(self.members[i].clone());
        }
        assert(strs_view(out@) =~= strs_view(self.members@));
        out
    }
}

/// Ids among the first `k` of `ids` that join a pool which has seen `seen`: those not seen
/// and not earlier in `ids`.
pub open spec fn joining(seen: Set<Seq<char>>, ids: Seq<Seq<char>>, k: int) -> Seq<Seq<char>>
    decreases k,
{
    if k <= 0 {
        Seq::empty()
    } else {
        let prev = joining(seen, ids, k - 1);
        if seen.contains(ids[k - 1]) || prev.contains(ids[k - 1]) {
            prev
        } else {
            prev.push(ids[k - 1])
        }
    }
}

/// A pool whose members are distinct and are exactly the ids it has seen.
pub open spec fn tidy(members: Seq<Seq<char>>, seen: Set<Seq<char>>) -> bool {
    members.no_duplicates() && members.to_set() == seen
}

/// Adds `ids` in order to a tidy pool, each unless seen; the pool stays tidy.
pub fn insert_all(pool: &mut IdPool, ids: &Vec<String>)
    requires
        tidy(old(pool).spec_members(), old(pool).spec_seen()),
    ensures
        tidy(final(pool).spec_members(), final(pool).spec_seen()),
        final(pool).spec_members() == old(pool).spec_members() + joining(
            old(pool).spec_seen(),
            strs_view(ids@),
            ids@.len() as int,
        ),
{
    let ghost m0 = pool.spec_members();
    let ghost s0 = pool.spec_seen();
    let ghost v = strs_view(ids@);
    let n = ids.len();
    let mut i: usize = 0;
    while i < n
        invariant
            n == ids@.len(),
            v == strs_view(ids@),
            i <= n,
            tidy(pool.spec_members(), pool.spec_seen()),
            pool.spec_members() == m0 + joining(s0, v, i as int),
            tidy(m0, s0),
        decreases n - i,
    {
        let ghost before = pool.spec_members();
        let ghost seen_before = pool.spec_seen();
        let joined = pool.insert(&ids[i]);
        proof {
            let x = ids@[i as int]@;
            assert(v[i as int] == x);
            let prev = joining(s0, v, i as int);
            // Seen so far: the starting set and the ids joined so far.
            assert(seen_before.contains(x) <==> (s0.contains(x) || prev.contains(x))) by {
                assert(seen_before == before.to_set());
                assert(s0 == m0.to_set());
                if before.contains(x) {
                    let k = choose|k: int| 0 <= k < before.len() && before[k] == x;
                    if k >= m0.len() {
                        assert(prev[k - m0.len()] == x);
                    } else {
                        assert(m0.contains(x));
                    }
                }
                if prev.contains(x) {
                    let k = choose|k: int| 0 <= k < prev.len() && prev[k] == x;
                    assert(before[m0.len() + k] == x);
                }
                if s0.contains(x) {
                    assert(m0.contains(x));
                    let k = choose|k: int| 0 <= k < m0.len() && m0[k] == x;
                    assert(before[k] == x);
                }
            }
            if joined {
                before.lemma_push_to_set_commute(x);
                assert forall|a: int, b: int|
                    0 <= a < pool.spec_members().len() && 0 <= b < pool.spec_members().len() && a != b
                    implies pool.spec_members()[a] != pool.spec_members()[b] by {
                    if a == before.len() {
                        assert(before.contains(before[b]));
                    } else if b == before.len() {
                        assert(before.contains(before[a]));
                    }
                }
                assert(pool.spec_members() =~= m0 + joining(s0, v, i as int + 1));
            } else {
                assert(pool.spec_seen() =~= seen_before);
                assert(pool.spec_members() =~= m0 + joining(s0, v, i as int + 1));
            }
        }
        i += 1;
    }
}

/// Whether `ids[i]` joins a pool that has seen `seen`, after the ids before it were offered.
pub open spec fn joins_at(seen: Set<Seq<char>>, ids: Seq<Seq<char>>, i: int) -> bool {
    !(seen.contains(ids[i]) || joining(seen, ids, i).contains(ids[i]))
}

/// An id was seen after the first `k` were offered exactly when it was seen before or is
/// one of them; the joiners stand for all of them.
proof fn lemma_offered(seen: Set<Seq<char>>, ids: Seq<Seq<char>>, k: int, x: Seq<char>)
    requires
        0 <= k <= ids.len(),
    ensures
        (seen.contains(x) || ids.take(k).contains(x)) <==> (seen.contains(x) || joining(seen, ids, k).contains(x)),
    decreases k,
{
    if k > 0 {
        lemma_offered(seen, ids, k - 1, x);
        let prev = joining(seen, ids, k - 1);
        let cur = joining(seen, ids, k);
        let before = ids.take(k - 1);
        let upto = ids.take(k);
        let y = ids[k - 1];
        assert(upto =~= before.push(y));
        if upto.contains(x) && !before.contains(x) {
            let j = choose|j: int| 0 <= j < upto.len() && upto[j] == x;
            if j < k - 1 {
                assert(before[j] == x);
            }
            assert(x == y);
            if !seen.contains(y) && !prev.contains(y) {
                assert(cur[prev.len() as int] == y);
            }
        }
        if before.contains(x) {
            let j = choose|j: int| 0 <= j < before.len() && before[j] == x;
            assert(upto[j] == x);
        }
        if cur.contains(x) && !prev.contains(x) {
            assert(x == y);
            assert(upto[k - 1] == y);
        }
        if prev.contains(x) {
            let j = choose|j: int| 0 <= j < prev.len() && prev[j] == x;
            assert(cur[j] == x);
        }
    }
}

/// Offers `ids` to the pool in order, each joining unless seen; returns which joined.
pub fn insert_each(pool: &mut IdPool, ids: &Vec<String>) -> (mask: Vec<bool>)
    ensures
        final(pool).spec_members() == old(pool).spec_members() + joining(
            old(pool).spec_seen(),
            strs_view(ids@),
            ids@.len() as int,
        ),
        mask@.len() == ids@.len(),
        forall|i: int| 0 <= i < ids@.len() ==> #[trigger] mask@[i] == joins_at(old(pool).spec_seen(), strs_view(ids@), i),
        forall|x: Seq<char>| #[trigger] final(pool).spec_seen().contains(x) <==> (old(pool).spec_seen().contains(x)
            || strs_view(ids@).contains(x)),
{
    let ghost m0 = pool.spec_members();
    let ghost s0 = pool.spec_seen();
    let ghost v = strs_view(ids@);
    let mut mask: Vec<bool> = Vec::new();
    let n = ids.len();
    let mut i: usize = 0;
    while i < n
        invariant
            n == ids@.len(),
            v == strs_view(ids@),
            i <= n,
            mask@.len() == i,
            forall|j: int| 0 <= j < i ==> #[trigger] mask@[j] == joins_at(s0, v, j),
            pool.spec_members() == m0 + joining(s0, v, i as int),
            forall|x: Seq<char>| #[trigger] pool.spec_seen().contains(x) <==> (s0.contains(x) || v.take(i as int).contains(x)),
        decreases n - i,
    {
        let x = ids[i].clone();
        proof {
            assert(x@ == v[i as int]);
            lemma_offered(s0, v, i as int, x@);
        }
        let ghost seen_before = pool.spec_seen();
        proof {
            assert forall|y: Seq<char>| #[trigger] seen_before.contains(y) <==> (s0.contains(y) || v.take(i as int).contains(y)) by {
                assert(pool.spec_seen().contains(y) <==> (s0.contains(y) || v.take(i as int).contains(y)));
            }
        }
        let ghost members_before = pool.spec_members();
        let joined = pool.insert(&x);
        mask.push(joined);
        proof {
            let before = v.take(i as int);
            let upto = v.take(i as int + 1);
            assert(upto =~= before.push(x@));
            assert forall|y: Seq<char>| pool.spec_seen().contains(y) <==> (s0.contains(y) || upto.contains(y)) by {
                assert(pool.spec_seen().contains(y) <==> (seen_before.contains(y) || y == x@));
                assert(seen_before.contains(y) <==> (s0.contains(y) || before.contains(y)));
                if before.contains(y) {
                    let j = choose|j: int| 0 <= j < before.len() && before[j] == y;
                    assert(upto[j] == y);
                }
                if upto.contains(y) && y != x@ {
                    let j = choose|j: int| 0 <= j < upto.len() && upto[j] == y;
                    assert(before[j] == y);
                }
                if y == x@ {
                    assert(upto[i as int] == y);
                }
            }
            assert(joined == !(s0.contains(x@) || joining(s0, v, i as int).contains(x@)));
            assert(pool.spec_members() =~= m0 + joining(s0, v, i as int + 1));
        }
        i += 1;
    }
    assert(v.take(n as int) =~= v);
    mask
}

/// What the caller does next for a candidate pool.
#[derive(Debug, Clone, PartialEq, Eq)]
pub enum PoolStep {
    /// Look up the source neuron `id` and report whether it exists (live).
    CheckSource { id: String },
    /// Create `count` new neurons under the source (or globally) and report their ids.
    Fill { count: usize },
    /// Fetch up to `limit` existing neurons (direct downstream of the source, else the global
    /// pool), excluding the pool's ids, and report their ids.
    FetchExisting { limit: usize },
    /// The pool is complete.
    Done,
    /// The pool cannot be assembled.
    Failed(AppError),
}

/// Where a candidate pool stands.
#[derive(Debug, Clone, Copy, PartialEq, Eq, Structural)]
pub enum PoolStage {
    /// Waiting to learn whether the source neuron exists.
    Source,
    /// Waiting for the neurons created to satisfy `min_new`.
    FirstFill,
    /// Waiting for existing neurons.
    Existing,
    /// Waiting for the neurons created to cover the shortage.
    ShortageFill,
    /// Complete or failed.
    Finished,
}

/// A candidate pool of `n` neurons, at least `min_new` of them new.
#[derive(Debug, Clone)]
pub struct CandidateAssembly {
    n: usize,
    min_new: usize,
    source: Option<String>,
    stage: PoolStage,
    requested: usize,
    pool: IdPool,
}

/// Message of a pool that could not be filled.
pub open spec fn shortfall_message(n: nat, got: nat) -> Seq<char> {
    "select_candidates could not fill pool: need "@ + decimal(n) + ", got "@ + decimal(got)
}

/// Message of a query asking for more new neurons than its size.
pub open spec fn min_new_message() -> Seq<char> {
    "min_new must be less than or equal to n"@
}

/// Members that are distinct and all seen.
pub open spec fn distinct_seen(members: Seq<Seq<char>>, seen: Set<Seq<char>>) -> bool {
    &&& members.no_duplicates()
    &&& forall|i: int| 0 <= i < members.len() ==> seen.contains(#[trigger] members[i])
}

/// Ids that may join a pool as reported: distinct, and none seen by the pool before.
pub open spec fn fresh_ids(ids: Seq<Seq<char>>, seen: Set<Seq<char>>) -> bool {
    &&& ids.no_duplicates()
    &&& forall|i: int| 0 <= i < ids.len() ==> !seen.contains(#[trigger] ids[i])
}

/// The joiners of offered ids are distinct and none of them was seen before.
proof fn lemma_joining_fresh(seen: Set<Seq<char>>, ids: Seq<Seq<char>>, k: int)
    requires
        0 <= k <= ids.len(),
    ensures
        fresh_ids(joining(seen, ids, k), seen),
    decreases k,
{
    if k > 0 {
        lemma_joining_fresh(seen, ids, k - 1);
        let prev = joining(seen, ids, k - 1);
        let y = ids[k - 1];
        if !(seen.contains(y) || prev.contains(y)) {
            let cur = prev.push(y);
            assert(joining(seen, ids, k) == cur);
            assert forall|a: int, b: int| 0 <= a < cur.len() && 0 <= b < cur.len() && a != b implies cur[a] != cur[b] by {
                if a == prev.len() {
                    assert(prev.contains(prev[b]));
                } else if b == prev.len() {
                    assert(prev.contains(prev[a]));
                }
            }
        }
    }
}

/// Appending fresh ids to distinct, seen members keeps them distinct.
proof fn lemma_append_fresh(m: Seq<Seq<char>>, seen: Set<Seq<char>>, ids: Seq<Seq<char>>)
    requires
        distinct_seen(m, seen),
        fresh_ids(ids, seen),
    ensures
        (m + ids).no_duplicates(),
{
    let c = m + ids;
    assert forall|a: int, b: int| 0 <= a < c.len() && 0 <= b < c.len() && a != b implies c[a] != c[b] by {
        if a < m.len() && b >= m.len() {
            assert(seen.contains(m[a]));
            assert(!seen.contains(ids[b - m.len()]));
        } else if b < m.len() && a >= m.len() {
            assert(seen.contains(m[b]));
            assert(!seen.contains(ids[a - m.len()]));
        }
    }
}

impl CandidateAssembly {
    /// Size of the pool asked for.
    pub closed spec fn spec_n(self) -> nat {
        self.n as nat
    }

    /// Least number of new neurons asked for.
    pub closed spec fn spec_min_new(self) -> nat {
        self.min_new as nat
    }

    /// Stage of the assembly.
    pub closed spec fn spec_stage(self) -> PoolStage {
        self.stage
    }

    /// Number of ids the pending step may report at most.
    pub closed spec fn spec_requested(self) -> nat {
        self.requested as nat
    }

    /// Members so far, in order.
    pub closed spec fn spec_members(self) -> Seq<Seq<char>> {
        self.pool.spec_members()
    }

    /// Ids seen so far.
    pub closed spec fn spec_seen(self) -> Set<Seq<char>> {
        self.pool.spec_seen()
    }

    /// The source neuron the query names, if any.
    pub closed spec fn spec_source(self) -> Option<Seq<char>> {
        match self.source {
            Some(s) => Some(s@),
            None => None,
        }
    }

    /// The assembly is consistent: the members are distinct and seen; while waiting, the
    /// pool is smaller than `n`; the source step comes before any member.
    pub closed spec fn wf(self) -> bool {
        &&& distinct_seen(self.pool.spec_members(), self.pool.spec_seen())
        &&& self.stage != PoolStage::Finished ==> self.pool.spec_members().len() + self.requested <= self.n
            || self.stage == PoolStage::ShortageFill && self.pool.spec_members().len() + self.requested == self.n
        &&& self.stage == PoolStage::Source ==> self.source is Some && self.pool.spec_members().len() == 0
            && self.pool.spec_seen() == Set::<Seq<char>>::empty() && self.min_new <= self.n && self.n > 0
    }

    /// The first fill or fetch of a non-empty pool whose source is settled.
    fn first_step(&mut self) -> (r: PoolStep)
        requires
            old(self).min_new <= old(self).n,
            old(self).n > 0,
            old(self).pool.spec_members().len() == 0,
            old(self).pool.spec_seen() == Set::<Seq<char>>::empty(),
        ensures
            final(self).wf(),
            final(self).n == old(self).n,
            final(self).min_new == old(self).min_new,
            final(self).source == old(self).source,
            final(self).pool == old(self).pool,
            old(self).min_new > 0 ==> final(self).stage == PoolStage::FirstFill && r == (PoolStep::Fill { count: old(self).min_new })
                && final(self).requested == old(self).min_new,
            old(self).min_new == 0 ==> final(self).stage == PoolStage::Existing && r == (PoolStep::FetchExisting { limit: old(self).n })
                && final(self).requested == old(self).n,
    {
        if self.min_new > 0 {
            self.stage = PoolStage::FirstFill;
            self.requested = self.min_new;
            PoolStep::Fill { count: self.min_new }
        } else {
            self.stage = PoolStage::Existing;
            self.requested = self.n;
            PoolStep::FetchExisting { limit: self.n }
        }
    }

    /// Starts a pool of `n` neurons with at least `min_new` new ones, under `source_id` if
    /// given: a query with `min_new > n` fails with `InvalidInput`; `n == 0` is done at once
    /// (empty pool); else a named source is looked up first; with no source, the first step
    /// creates `min_new` neurons, or, with none to create, fetches `n` existing ones.
    pub fn start(n: usize, min_new: usize, source_id: Option<&str>) -> (r: (CandidateAssembly, PoolStep))
        ensures
            r.0.wf(),
            r.0.spec_n() == n,
            r.0.spec_min_new() == min_new,
            r.0.spec_source() == (match source_id { Some(s) => Some(s@), None => None::<Seq<char>> }),
            r.0.spec_members().len() == 0,
            r.0.spec_seen() == Set::<Seq<char>>::empty(),
            min_new > n ==> r.0.spec_stage() == PoolStage::Finished && (r.1 matches PoolStep::Failed(AppError::InvalidInput(m)) && m@ == min_new_message()),
            min_new <= n && n == 0 ==> r.0.spec_stage() == PoolStage::Finished && r.1 == PoolStep::Done,
            min_new <= n && n > 0 && source_id is Some ==> r.0.spec_stage() == PoolStage::Source
                && (r.1 matches PoolStep::CheckSource { id } && id@ == source_id->0@),
            min_new <= n && n > 0 && source_id is None && min_new > 0 ==> r.0.spec_stage() == PoolStage::FirstFill && r.1 == (PoolStep::Fill { count: min_new }) && r.0.spec_requested() == min_new,
            min_new <= n && n > 0 && source_id is None && min_new == 0 ==> r.0.spec_stage() == PoolStage::Existing && r.1 == (PoolStep::FetchExisting { limit: n }) && r.0.spec_requested() == n,
    {
        let pool = IdPool::new();
        let source = match source_id {
            Some(s) => Some(owned(s)),
            None => None,
        };
        if min_new > n {
            proof {
                reveal_strlit("min_new must be less than or equal to n");
            }
            return (
                CandidateAssembly { n, min_new, source, stage: PoolStage::Finished, requested: 0, pool },
                PoolStep::Failed(AppError::InvalidInput(owned("min_new must be less than or equal to n"))),
            );
        }
        if n == 0 {
            return (CandidateAssembly { n, min_new, source, stage: PoolStage::Finished, requested: 0, pool }, PoolStep::Done);
        }
        match source_id {
            Some(s) => (
                CandidateAssembly { n, min_new, source, stage: PoolStage::Source, requested: 0, pool },
                PoolStep::CheckSource { id: owned(s) },
            ),
            None => {
                let mut a = CandidateAssembly { n, min_new, source, stage: PoolStage::Finished, requested: 0, pool };
                let step = a.first_step();
                (a, step)
            },
        }
    }

    /// Reports whether the source neuron exists: an unknown source fails with
    /// `NeuronNotFound` carrying its id; a known one leads to the first fill or fetch.
    pub fn source_found(&mut self, present: bool) -> (r: PoolStep)
        requires
            old(self).wf(),
            old(self).spec_stage() == PoolStage::Source,
        ensures
            final(self).wf(),
            final(self).spec_n() == old(self).spec_n(),
            final(self).spec_min_new() == old(self).spec_min_new(),
            final(self).spec_source() == old(self).spec_source(),
            final(self).spec_members() == old(self).spec_members(),
            final(self).spec_seen() == old(self).spec_seen(),
            !present ==> final(self).spec_stage() == PoolStage::Finished
                && (r matches PoolStep::Failed(AppError::NeuronNotFound(m)) && old(self).spec_source() == Some(m@)),
            present && old(self).spec_min_new() > 0 ==> final(self).spec_stage() == PoolStage::FirstFill
                && r == (PoolStep::Fill { count: old(self).spec_min_new() as usize }) && final(self).spec_requested() == old(self).spec_min_new(),
            present && old(self).spec_min_new() == 0 ==> final(self).spec_stage() == PoolStage::Existing
                && r == (PoolStep::FetchExisting { limit: old(self).spec_n() as usize }) && final(self).spec_requested() == old(self).spec_n(),
    {
        if !present {
            self.stage = PoolStage::Finished;
            self.requested = 0;
            let id = match &self.source {
                Some(s) => s.clone(),
                None => String::new(),
            };
            return PoolStep::Failed(AppError::NeuronNotFound(id));
        }
        self.first_step()
    }

    /// After the existing neurons: creates what is still missing, else finishes.
    fn after_existing(&mut self) -> (r: PoolStep)
        requires
            old(self).spec_members().len() <= old(self).spec_n(),
            distinct_seen(old(self).spec_members(), old(self).spec_seen()),
        ensures
            final(self).spec_n() == old(self).spec_n(),
            final(self).min_new == old(self).min_new,
            final(self).source == old(self).source,
            final(self).spec_members() == old(self).spec_members(),
            final(self).spec_seen() == old(self).spec_seen(),
            final(self).wf(),
            old(self).spec_members().len() < old(self).spec_n() ==> final(self).spec_stage() == PoolStage::ShortageFill
                && r == (PoolStep::Fill { count: (old(self).spec_n() - old(self).spec_members().len()) as usize })
                && final(self).spec_requested() == old(self).spec_n() - old(self).spec_members().len(),
            old(self).spec_members().len() == old(self).spec_n() ==> final(self).spec_stage() == PoolStage::Finished && r == PoolStep::Done,
    {
        let len = self.pool.len();
        if len < self.n {
            self.stage = PoolStage::ShortageFill;
            self.requested = self.n - len;
            PoolStep::Fill { count: self.n - len }
        } else {
            self.stage = PoolStage::Finished;
            self.requested = 0;
            PoolStep::Done
        }
    }

    /// Reports the ids the pending step produced, in order; returns, for each, whether it
    /// joined the pool, and the next step.
    ///
    /// - The first creation and the existing neurons all join: they must be distinct and new
    ///   to the pool (neurons just created, or fetched excluding the pool's ids); afterwards
    ///   the shortage, if any, is created.
    /// - Neurons created for the shortage join unless their id was seen; then a pool still
    ///   short of `n` fails with `NeuronBootstrapFailed`, else it is cut to its first `n`
    ///   members and done.
    pub fn absorb(&mut self, ids: &Vec<String>) -> (r: (Vec<bool>, PoolStep))
        requires
            old(self).wf(),
            old(self).spec_stage() != PoolStage::Finished,
            old(self).spec_stage() != PoolStage::Source,
            ids@.len() <= old(self).spec_requested(),
            old(self).spec_stage() != PoolStage::ShortageFill ==> fresh_ids(strs_view(ids@), old(self).spec_seen()),
        ensures
            final(self).wf(),
            final(self).spec_n() == old(self).spec_n(),
            final(self).spec_min_new() == old(self).spec_min_new(),
            final(self).spec_source() == old(self).spec_source(),
            final(self).spec_members().no_duplicates(),
            r.0@.len() == ids@.len(),
            old(self).spec_stage() != PoolStage::ShortageFill ==> (forall|i: int| 0 <= i < ids@.len() ==> r.0@[i])
                && ({
                    let members = old(self).spec_members() + strs_view(ids@);
                    if members.len() < old(self).spec_n() && old(self).spec_stage() == PoolStage::FirstFill {
                        final(self).spec_members() == members && final(self).spec_stage() == PoolStage::Existing
                            && r.1 == (PoolStep::FetchExisting { limit: (old(self).spec_n() - members.len()) as usize })
                    } else if members.len() < old(self).spec_n() {
                        final(self).spec_members() == members && final(self).spec_stage() == PoolStage::ShortageFill
                            && r.1 == (PoolStep::Fill { count: (old(self).spec_n() - members.len()) as usize })
                    } else {
                        final(self).spec_members() == members && final(self).spec_stage() == PoolStage::Finished
                            && r.1 == PoolStep::Done
                    }
                }),
            old(self).spec_stage() == PoolStage::ShortageFill ==> {
                let joined = old(self).spec_members() + joining(old(self).spec_seen(), strs_view(ids@), ids@.len() as int);
                &&& final(self).spec_stage() == PoolStage::Finished
                &&& forall|i: int| 0 <= i < ids@.len() ==> #[trigger] r.0@[i] == joins_at(old(self).spec_seen(), strs_view(ids@), i)
                &&& if joined.len() < old(self).spec_n() {
                    &&& final(self).spec_members() == joined
                    &&& r.1 matches PoolStep::Failed(AppError::NeuronBootstrapFailed(m))
                    &&& m@ == shortfall_message(old(self).spec_n(), joined.len())
                } else {
                    final(self).spec_members() == joined.take(old(self).spec_n() as int) && r.1 == PoolStep::Done
                }
            },
    {
        let ghost m0 = self.pool.spec_members();
        let mut mask: Vec<bool> = Vec::new();
        if self.stage == PoolStage::ShortageFill {
            let ghost s0 = self.pool.spec_seen();
            let mask = insert_each(&mut self.pool, ids);
            proof {
                let v = strs_view(ids@);
                let j = joining(s0, v, v.len() as int);
                lemma_joining_fresh(s0, v, v.len() as int);
                lemma_append_fresh(m0, s0, j);
                assert(v.take(v.len() as int) =~= v);
                let mm = self.pool.spec_members();
                assert forall|i: int| 0 <= i < mm.len() implies self.pool.spec_seen().contains(#[trigger] mm[i]) by {
                    if i < m0.len() {
                        assert(s0.contains(m0[i]));
                    } else {
                        let x = j[i - m0.len()];
                        assert(j.contains(x));
                        lemma_offered(s0, v, v.len() as int, x);
                        assert(v.contains(x));
                    }
                }
            }
            let len = self.pool.len();
            self.stage = PoolStage::Finished;
            self.requested = 0;
            if len < self.n {
                let mut msg = join2("select_candidates could not fill pool: need ", u64_to_decimal(self.n as u64).as_str());
                push_str(&mut msg, ", got ");
                push_str(&mut msg, u64_to_decimal(len as u64).as_str());
                return (mask, PoolStep::Failed(AppError::NeuronBootstrapFailed(msg)));
            }
            self.pool.truncate(self.n);
            return (mask, PoolStep::Done);
        }
        let first = self.stage == PoolStage::FirstFill;
        for i in 0..ids.len()
            invariant
                mask@.len() == i,
                forall|j: int| 0 <= j < i ==> mask@[j],
                self.pool.spec_members() == m0 + strs_view(ids@.take(i as int)),
                self.n == old(self).n,
                self.min_new == old(self).min_new,
                self.source == old(self).source,
                self.stage == old(self).stage,
                self.stage != PoolStage::ShortageFill,
                distinct_seen(self.pool.spec_members(), self.pool.spec_seen()),
                strs_view(ids@).no_duplicates(),
                forall|j: int| i <= j < ids@.len() ==> !self.pool.spec_seen().contains(#[trigger] strs_view(ids@)[j]),
        {
            let ghost before = self.pool.spec_members();
            let ghost seen_before = self.pool.spec_seen();
            self.pool.push(&ids[i]);
            mask.push(true);
            proof {
                let v = strs_view(ids@);
                let x = v[i as int];
                assert(x == ids@[i as int]@);
                let mm = self.pool.spec_members();
                assert forall|a: int, b: int| 0 <= a < mm.len() && 0 <= b < mm.len() && a != b implies mm[a] != mm[b] by {
                    if a == before.len() {
                        assert(seen_before.contains(before[b]));
                    } else if b == before.len() {
                        assert(seen_before.contains(before[a]));
                    }
                }
                assert forall|k: int| 0 <= k < mm.len() implies self.pool.spec_seen().contains(#[trigger] mm[k]) by {
                    if k < before.len() {
                        assert(seen_before.contains(before[k]));
                    }
                }
                assert forall|j: int| i + 1 <= j < ids@.len() implies !self.pool.spec_seen().contains(#[trigger] v[j]) by {
                    assert(v[j] != v[i as int]);
                }
                assert(strs_view(ids@.take(i + 1)) =~= strs_view(ids@.take(i as int)).push(ids@[i as int]@));
                assert(m0 + strs_view(ids@.take(i + 1)) =~= (m0 + strs_view(ids@.take(i as int))).push(ids@[i as int]@));
            }
        }
        proof {
            assert(ids@.take(ids@.len() as int) =~= ids@);
        }
        let len = self.pool.len();
        if first && len < self.n {
            self.stage = PoolStage::Existing;
            self.requested = self.n - len;
            return (mask, PoolStep::FetchExisting { limit: self.n - len });
        }
        let step = self.after_existing();
        (mask, step)
    }

    /// The pool's members, in order.
    pub fn members(&self) -> (r: Vec<String>)
        ensures
            strs_view(r@) == self.spec_members(),
    {
        self.pool.members()
    }

    /// Whether the pool has seen `id`.
    pub fn has_seen(&self, id: &String) -> (r: bool)
        ensures
            r == self.spec_seen().contains(id@),
    {
        self.pool.contains(id)
    }

    /// How many ids the pending step may report at most.
    pub fn requested(&self) -> (r: usize)
        ensures
            r == self.spec_requested(),
    {
        self.requested
    }

    /// Where the assembly stands.
    pub fn stage(&self) -> (r: PoolStage)
        ensures
            r == self.spec_stage(),
    {
        self.stage
    }
}

/// Upper bound of a neighborhood pool (existing and new children, the neuron itself,
/// siblings, ancestors, global supplement); `InvalidInput` when it does not fit a `usize`.
pub fn neighborhood_pool_bound(policy: &NeighborhoodPoolPolicy) -> (r: Result<usize, AppError>)
    ensures
        ({
            let total = policy.existing_downstream + policy.new_downstream + 1 + policy.siblings
                + policy.upstream_depth + policy.global_top_weight;
            if total <= usize::MAX {
                r == Ok::<usize, AppError>(total as usize)
            } else {
                r matches Err(AppError::InvalidInput(m)) && m@ == "assistant candidate quotas overflow usize"@
            }
        }),
{
    proof {
        reveal_strlit("assistant candidate quotas overflow usize");
    }
    let a = policy.existing_downstream.checked_add(policy.new_downstream);
    let b = match a { Some(x) => x.checked_add(1), None => None };
    let c = match b { Some(x) => x.checked_add(policy.siblings), None => None };
    let d = match c { Some(x) => x.checked_add(policy.upstream_depth), None => None };
    let e = match d { Some(x) => x.checked_add(policy.global_top_weight), None => None };
    match e {
        Some(total) => Ok(total),
        None => Err(AppError::InvalidInput(owned("assistant candidate quotas overflow usize"))),
    }
}

/// Message of a neighborhood asking for too many new children.
pub open spec fn too_many_children_message(count: nat) -> Seq<char> {
    "assistant new downstream count must be <=10, got "@ + decimal(count)
}

/// How many children a neighborhood pool creates: `new_downstream`, plus the existing
/// children still missing when the shortage is to be filled. More than ten fails with
/// `InvalidInput` (as does a count that does not fit a `usize`).
pub fn new_child_count(policy: &NeighborhoodPoolPolicy, existing_children: usize) -> (r: Result<usize, AppError>)
    ensures
        ({
            let shortage: int = if policy.fill_downstream_shortage && existing_children < policy.existing_downstream {
                policy.existing_downstream - existing_children
            } else {
                0
            };
            let count = policy.new_downstream + shortage;
            if count > usize::MAX {
                r matches Err(AppError::InvalidInput(m)) && m@ == "assistant new downstream quota overflows usize"@
            } else if count > MAX_CREATE_NEURON_COUNT {
                r matches Err(AppError::InvalidInput(m)) && m@ == too_many_children_message(count as nat)
            } else {
                r == Ok::<usize, AppError>(count as usize)
            }
        }),
{
    proof {
        reveal_strlit("assistant new downstream quota overflows usize");
        reveal_strlit("10");
    }
    let shortage: usize = if policy.fill_downstream_shortage && existing_children < policy.existing_downstream {
        policy.existing_downstream - existing_children
    } else {
        0
    };
    let count = match policy.new_downstream.checked_add(shortage) {
        Some(c) => c,
        None => {
            return Err(AppError::InvalidInput(owned("assistant new downstream quota overflows usize")));
        },
    };
    if count > MAX_CREATE_NEURON_COUNT {
        let mut msg = owned("assistant new downstream count must be <=10, got ");
        push_str(&mut msg, u64_to_decimal(count as u64).as_str());
        proof {
            assert(decimal(10) == "10"@) by {
                reveal_with_fuel(decimal, 2);
            }
        }
        return Err(AppError::InvalidInput(msg));
    }
    Ok(count)
}

/// Message of a fill request outside `1..=10`.
pub open spec fn fill_count_message(count: nat) -> Seq<char> {
    "fill batch count must be 1..=10, got "@ + decimal(count)
}

/// Checks the size of a creation batch: none to create is done at once (`Ok(false)`), more
/// than ten fails with `InvalidInput`, otherwise the batch runs (`Ok(true)`).
pub fn check_fill_count(count: usize) -> (r: Result<bool, AppError>)
    ensures
        count == 0 ==> r == Ok::<bool, AppError>(false),
        0 < count <= MAX_CREATE_NEURON_COUNT ==> r == Ok::<bool, AppError>(true),
        count > MAX_CREATE_NEURON_COUNT ==> (r matches Err(AppError::InvalidInput(m)) && m@ == fill_count_message(count as nat)),
{
    if count == 0 {
        return Ok(false);
    }
    if count > MAX_CREATE_NEURON_COUNT {
        let mut msg = owned("fill batch count must be 1..=10, got ");
        push_str(&mut msg, u64_to_decimal(count as u64).as_str());
        return Err(AppError::InvalidInput(msg));
    }
    Ok(true)
}

/// The neuron the selector named: `InvalidInput` when it named none, or one that is not a
/// candidate; otherwise the position of the first candidate with that id.
pub fn pick_named(candidate_ids: &Vec<String>, named: Option<&str>) -> (r: Result<usize, AppError>)
    ensures
        match named {
            None => r matches Err(AppError::InvalidInput(m)) && m@ == "select neuron response missing neuron_id"@,
            Some(id) => match r {
                Ok(k) => k < candidate_ids@.len() && candidate_ids@[k as int]@ == id@ && forall|j: int| 0 <= j < k ==> (#[trigger] candidate_ids@[j])@ != id@,
                Err(e) => (forall|j: int| 0 <= j < candidate_ids@.len() ==> (#[trigger] candidate_ids@[j])@ != id@)
                    && (e matches AppError::InvalidInput(m) && m@ == "Selected neuron_id "@ + id@ + " is not in candidates"@),
            },
        },
{
    let id = match named {
        None => {
            proof {
                reveal_strlit("select neuron response missing neuron_id");
            }
            return Err(AppError::InvalidInput(owned("select neuron response missing neuron_id")));
        },
        Some(id) => id,
    };
    let n = candidate_ids.len();
    let mut k: usize = 0;
    while k < n
        invariant
            named == Some(id),
            n == candidate_ids@.len(),
            k <= n,
            forall|j: int| 0 <= j < k ==> (#[trigger] candidate_ids@[j])@ != id@,
        decreases n - k,
    {
        if str_eq(candidate_ids[k].as_str(), id) {
            return Ok(k);
        }
        k += 1;
    }
    let mut msg = join2("Selected neuron_id ", id);
    push_str(&mut msg, " is not in candidates");
    Err(AppError::InvalidInput(msg))
}

/// Whether a model pick links back from the anchor: there is an anchor, it is not the picked
/// neuron itself, and no edge exists yet.
pub fn needs_link_back(source: Option<&str>, target_id: &str, edge_exists: bool) -> (r: bool)
    ensures
        r == (source is Some && source.unwrap()@ != target_id@ && !edge_exists),
{
    match source {
        None => false,
        Some(s) => !str_eq(s, target_id) && !edge_exists,
    }
}

} // verus!

verus! {

/// Selecting one neuron needs at least one candidate: `InvalidInput` for none.
pub fn check_candidates(count: usize) -> (r: Result<(), AppError>)
    ensures
        count == 0 ==> (r matches Err(AppError::InvalidInput(m)) && m@ == "No neuron candidates available for selection"@),
        count > 0 ==> r is Ok,
{
    if count == 0 {
        proof {
            reveal_strlit("No neuron candidates available for selection");
        }
        return Err(AppError::InvalidInput(owned("No neuron candidates available for selection")));
    }
    Ok(())
}

/// A global assistant pool needs a limit of at least one: `InvalidInput` for 0.
pub fn check_global_limit(limit: usize) -> (r: Result<(), AppError>)
    ensures
        limit == 0 ==> (r matches Err(AppError::InvalidInput(m)) && m@ == "assistant global candidate limit must be >= 1"@),
        limit > 0 ==> r is Ok,
{
    if limit == 0 {
        proof {
            reveal_strlit("assistant global candidate limit must be >= 1");
        }
        return Err(AppError::InvalidInput(owned("assistant global candidate limit must be >= 1")));
    }
    Ok(())
}

/// The error when the system neuron that drives a model step is missing.
pub fn missing_system_neuron(system_type: &str) -> (r: AppError)
    ensures
        r matches AppError::InvalidInput(m) && m@ == "Missing system prompt neuron with system_type="@ + system_type@,
{
    AppError::InvalidInput(join2("Missing system prompt neuron with system_type=", system_type))
}

} // verus!
