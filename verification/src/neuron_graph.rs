//! Walks and listings of the neuron graph.
//!
//! The graph lives in the database; the caller reads it. This module decides what is read
//! next and what is kept: the breadth-first walk of a neuron's neighbourhood, which of the
//! rows a limited listing keeps, and the statements of the paged admin listing.

use vstd::prelude::*;

use crate::model_call_input::{contains_text, has_text};
use crate::models::{strs_view, trim_seq, trim_str, NeuronKindFilter};
use crate::selection::IdPool;
use crate::text::{chars_of, join2, owned, push_str, str_eq, str_is_empty};

verus! {

/// Most neurons a network walk returns.
pub const MAX_NETWORK_NODES: usize = 500;

/// Key of a directed edge: `source->target`.
pub open spec fn edge_key(source: Seq<char>, target: Seq<char>) -> Seq<char> {
    source + "->"@ + target
}

/// The other end of an edge seen from `current` (the target when `current` is the source).
pub open spec fn far_end(current: Seq<char>, source: Seq<char>, target: Seq<char>) -> Seq<char> {
    if source == current {
        target
    } else {
        source
    }
}

/// Views of (source, target) pairs.
pub open spec fn pairs_view(s: Seq<(String, String)>) -> Seq<(Seq<char>, Seq<char>)> {
    s.map_values(|e: (String, String)| (e.0@, e.1@))
}

/// Edge keys seen once the first `k` of `es` are recorded on top of `seen`.
pub open spec fn keys_after(seen: Set<Seq<char>>, es: Seq<(Seq<char>, Seq<char>)>, k: int) -> Set<Seq<char>>
    decreases k,
{
    if k <= 0 {
        seen
    } else {
        keys_after(seen, es, k - 1).insert(edge_key(es[k - 1].0, es[k - 1].1))
    }
}

/// Whether edge `i` of `es` is new: its key is neither in `seen` nor the key of an earlier edge.
pub open spec fn is_new_edge(seen: Set<Seq<char>>, es: Seq<(Seq<char>, Seq<char>)>, i: int) -> bool {
    !keys_after(seen, es, i).contains(edge_key(es[i].0, es[i].1))
}

/// The new edges among the first `k` of `es`, in order.
pub open spec fn new_edges(seen: Set<Seq<char>>, es: Seq<(Seq<char>, Seq<char>)>, k: int) -> Seq<(Seq<char>, Seq<char>)>
    decreases k,
{
    if k <= 0 {
        Seq::empty()
    } else if is_new_edge(seen, es, k - 1) {
        new_edges(seen, es, k - 1).push(es[k - 1])
    } else {
        new_edges(seen, es, k - 1)
    }
}

/// Queue entries that the first `k` of `es` add: the far end of each edge, one level deeper,
/// unless it was visited already.
pub open spec fn queued_ends(
    visited: Set<Seq<char>>,
    current: Seq<char>,
    depth: usize,
    es: Seq<(Seq<char>, Seq<char>)>,
    k: int,
) -> Seq<(Seq<char>, usize)>
    decreases k,
{
    if k <= 0 {
        Seq::empty()
    } else {
        let prev = queued_ends(visited, current, depth, es, k - 1);
        let end = far_end(current, es[k - 1].0, es[k - 1].1);
        if visited.contains(end) {
            prev
        } else {
            prev.push((end, (depth + 1) as usize))
        }
    }
}

/// Positions of the first `k` edges whose two ends are both in `nodes`, ascending.
pub open spec fn kept_positions(es: Seq<(Seq<char>, Seq<char>)>, nodes: Set<Seq<char>>, k: int) -> Seq<int>
    decreases k,
{
    if k <= 0 {
        Seq::empty()
    } else if nodes.contains(es[k - 1].0) && nodes.contains(es[k - 1].1) {
        kept_positions(es, nodes, k - 1).push(k - 1)
    } else {
        kept_positions(es, nodes, k - 1)
    }
}

/// The edges a walk returns lie inside the neurons it returns: every kept position is an
/// edge of the recorded list with both ends among the nodes, and positions ascend.
pub proof fn lemma_kept_inside(es: Seq<(Seq<char>, Seq<char>)>, nodes: Set<Seq<char>>, k: int)
    requires
        0 <= k <= es.len(),
    ensures
        forall|i: int| 0 <= i < kept_positions(es, nodes, k).len() ==> {
            let p = #[trigger] kept_positions(es, nodes, k)[i];
            &&& 0 <= p < k
            &&& nodes.contains(es[p].0)
            &&& nodes.contains(es[p].1)
        },
        forall|i: int, j: int| 0 <= i < j < kept_positions(es, nodes, k).len()
            ==> #[trigger] kept_positions(es, nodes, k)[i] < #[trigger] kept_positions(es, nodes, k)[j],
    decreases k,
{
    if k > 0 {
        lemma_kept_inside(es, nodes, k - 1);
        let prev = kept_positions(es, nodes, k - 1);
        let cur = kept_positions(es, nodes, k);
        assert forall|i: int| 0 <= i < cur.len() implies {
            let p = #[trigger] cur[i];
            &&& 0 <= p < k
            &&& nodes.contains(es[p].0)
            &&& nodes.contains(es[p].1)
        } by {
            if i < prev.len() {
                assert(cur[i] == prev[i]);
            }
        }
        assert forall|i: int, j: int| 0 <= i < j < cur.len() implies #[trigger] cur[i] < #[trigger] cur[j] by {
            assert(cur[i] == prev[i]);
            if j < prev.len() {
                assert(cur[j] == prev[j]);
            }
        }
    }
}

/// What the caller of a network walk does next.
#[derive(Debug, Clone, Copy, PartialEq, Eq, Structural)]
pub enum WalkPhase {
    /// Ask for the next neuron to fetch (`next_visit`).
    Ready,
    /// Report whether the fetched neuron exists (`record_node`).
    AwaitNode,
    /// Report the connections of the current neuron (`record_edges`).
    AwaitEdges,
    /// The walk is over (`nodes`, `kept_edges`).
    Finished,
}

/// Breadth-first walk of the undirected neighbourhood of a seed neuron, up to a depth and
/// at most [`MAX_NETWORK_NODES`] neurons. The caller fetches each neuron and its
/// connections when the walk asks and hands back what it found.
pub struct NetworkWalk {
    max_depth: usize,
    queue: Vec<(String, usize)>,
    head: usize,
    visited: IdPool,
    nodes: IdPool,
    keys: IdPool,
    sources: Vec<String>,
    targets: Vec<String>,
    current: String,
    depth: usize,
    phase: WalkPhase,
}

impl NetworkWalk {
    /// Pending and consumed queue entries (id, depth), in order.
    pub closed spec fn spec_queue(self) -> Seq<(Seq<char>, usize)> {
        self.queue@.map_values(|e: (String, usize)| (e.0@, e.1))
    }

    /// Position of the next queue entry.
    pub closed spec fn spec_head(self) -> int {
        self.head as int
    }

    /// Ids taken from the queue so far.
    pub closed spec fn spec_visited(self) -> Set<Seq<char>> {
        self.visited.spec_seen()
    }

    /// Neurons found, in visiting order.
    pub closed spec fn spec_nodes(self) -> Seq<Seq<char>> {
        self.nodes.spec_members()
    }

    /// Distinct edges recorded, in the order they were first reported.
    pub closed spec fn spec_edges(self) -> Seq<(Seq<char>, Seq<char>)> {
        Seq::new(self.sources@.len(), |i: int| (self.sources@[i]@, self.targets@[i]@))
    }

    /// Keys of the recorded edges.
    pub closed spec fn spec_keys(self) -> Set<Seq<char>> {
        self.keys.spec_seen()
    }

    /// The neuron being visited.
    pub closed spec fn spec_current(self) -> Seq<char> {
        self.current@
    }

    /// Depth of the neuron being visited.
    pub closed spec fn spec_depth(self) -> usize {
        self.depth
    }

    /// Depth limit.
    pub closed spec fn spec_max_depth(self) -> usize {
        self.max_depth
    }

    /// Current phase.
    pub closed spec fn spec_phase(self) -> WalkPhase {
        self.phase
    }

    /// Invariant kept by every step.
    pub closed spec fn wf(self) -> bool {
        &&& self.head <= self.queue@.len()
        &&& forall|i: int| 0 <= i < self.queue@.len() ==> (#[trigger] self.queue@[i]).1 <= self.max_depth
        &&& self.nodes.spec_members().no_duplicates()
        &&& self.nodes.spec_seen() == self.nodes.spec_members().to_set()
        &&& forall|i: int| 0 <= i < self.nodes.spec_members().len()
            ==> self.visited.spec_seen().contains(#[trigger] self.nodes.spec_members()[i])
        &&& self.nodes.spec_members().len() <= MAX_NETWORK_NODES
        &&& self.phase != WalkPhase::Finished ==> self.nodes.spec_members().len() < MAX_NETWORK_NODES
        &&& self.sources@.len() == self.targets@.len()
        &&& self.keys.spec_members().len() == self.sources@.len()
        &&& forall|i: int| 0 <= i < self.sources@.len()
            ==> #[trigger] self.keys.spec_members()[i] == edge_key(self.sources@[i]@, self.targets@[i]@)
        &&& self.keys.spec_members().no_duplicates()
        &&& self.keys.spec_seen() == self.keys.spec_members().to_set()
        &&& self.phase == WalkPhase::AwaitNode ==> {
            &&& self.visited.spec_seen().contains(self.current@)
            &&& !self.nodes.spec_members().contains(self.current@)
            &&& self.depth <= self.max_depth
        }
        &&& self.phase == WalkPhase::AwaitEdges ==> self.depth < self.max_depth
    }

    /// A walk from `seed` down to `max_depth` levels.
    pub fn start(seed: &str, max_depth: usize) -> (r: NetworkWalk)
        ensures
            r.wf(),
            r.spec_queue() == seq![(seed@, 0usize)],
            r.spec_head() == 0,
            r.spec_visited() == Set::<Seq<char>>::empty(),
            r.spec_nodes().len() == 0,
            r.spec_edges().len() == 0,
            r.spec_keys() == Set::<Seq<char>>::empty(),
            r.spec_max_depth() == max_depth,
            r.spec_phase() == WalkPhase::Ready,
    {
        let mut queue: Vec<(String, usize)> = Vec::new();
        queue.push((seed.to_string(), 0));
        let r = NetworkWalk {
            max_depth,
            queue,
            head: 0,
            visited: IdPool::new(),
            nodes: IdPool::new(),
            keys: IdPool::new(),
            sources: Vec::new(),
            targets: Vec::new(),
            current: String::new(),
            depth: 0,
            phase: WalkPhase::Ready,
        };
        proof {
            assert(r.spec_queue() =~= seq![(seed@, 0usize)]);
            assert(r.nodes.spec_members().to_set() =~= Set::<Seq<char>>::empty());
            assert(r.keys.spec_members().to_set() =~= Set::<Seq<char>>::empty());
        }
        r
    }

    /// The phase the walk is in.
    pub fn phase(&self) -> (r: WalkPhase)
        ensures
            r == self.spec_phase(),
    {
        self.phase
    }

    /// Takes queue entries until one names a neuron not visited yet, and returns it (the
    /// caller fetches that neuron and calls `record_node`). Entries already visited are
    /// skipped; when the queue runs out the walk is finished and `None` comes back.
    pub fn next_visit(&mut self) -> (r: Option<(String, usize)>)
        requires
            old(self).wf(),
            old(self).spec_phase() == WalkPhase::Ready,
        ensures
            final(self).wf(),
            final(self).spec_queue() == old(self).spec_queue(),
            final(self).spec_nodes() == old(self).spec_nodes(),
            final(self).spec_edges() == old(self).spec_edges(),
            final(self).spec_keys() == old(self).spec_keys(),
            final(self).spec_max_depth() == old(self).spec_max_depth(),
            old(self).spec_head() <= final(self).spec_head() <= old(self).spec_queue().len(),
            match r {
                Some(entry) => {
                    &&& final(self).spec_head() >= old(self).spec_head() + 1
                    &&& old(self).spec_queue()[final(self).spec_head() - 1] == (entry.0@, entry.1)
                    &&& forall|j: int| old(self).spec_head() <= j < final(self).spec_head() - 1
                        ==> old(self).spec_visited().contains((#[trigger] old(self).spec_queue()[j]).0)
                    &&& !old(self).spec_visited().contains(entry.0@)
                    &&& final(self).spec_visited() == old(self).spec_visited().insert(entry.0@)
                    &&& final(self).spec_current() == entry.0@
                    &&& final(self).spec_depth() == entry.1
                    &&& final(self).spec_phase() == WalkPhase::AwaitNode
                },
                None => {
                    &&& final(self).spec_head() == old(self).spec_queue().len()
                    &&& forall|j: int| old(self).spec_head() <= j < old(self).spec_queue().len()
                        ==> old(self).spec_visited().contains((#[trigger] old(self).spec_queue()[j]).0)
                    &&& final(self).spec_visited() == old(self).spec_visited()
                    &&& final(self).spec_phase() == WalkPhase::Finished
                },
            },
    {
        let ghost h0 = self.head as int;
        while self.head < self.queue.len()
            invariant
                self.wf(),
                self.phase == WalkPhase::Ready,
                h0 <= self.head <= self.queue@.len(),
                self.queue == old(self).queue,
                self.visited.spec_seen() == old(self).visited.spec_seen(),
                self.nodes == old(self).nodes,
                self.keys == old(self).keys,
                self.sources == old(self).sources,
                self.targets == old(self).targets,
                self.max_depth == old(self).max_depth,
                h0 == old(self).head,
                forall|j: int| h0 <= j < self.head
                    ==> old(self).visited.spec_seen().contains((#[trigger] self.queue@[j]).0@),
            decreases self.queue@.len() - self.head,
        {
            let k = self.head;
            let id = self.queue[k].0.clone();
            let d = self.queue[k].1;
            self.head = k + 1;
            let fresh = self.visited.insert(&id);
            if fresh {
                self.current = id.clone();
                self.depth = d;
                self.phase = WalkPhase::AwaitNode;
                proof {
                    assert(self.queue@[k as int].1 <= self.max_depth);
                    if self.nodes.spec_members().contains(id@) {
                        let i = choose|i: int| 0 <= i < self.nodes.spec_members().len() && self.nodes.spec_members()[i] == id@;
                        assert(old(self).visited.spec_seen().contains(self.nodes.spec_members()[i]));
                    }
                    assert forall|i: int| 0 <= i < self.nodes.spec_members().len()
                        implies self.visited.spec_seen().contains(#[trigger] self.nodes.spec_members()[i]) by {
                        assert(old(self).visited.spec_seen().contains(self.nodes.spec_members()[i]));
                    }
                    assert(self.spec_queue()[k as int] == (id@, d));
                }
                return Some((id, d));
            }
            proof {
                assert(old(self).visited.spec_seen().insert(id@) =~= old(self).visited.spec_seen());
            }
        }
        self.phase = WalkPhase::Finished;
        proof {
            assert forall|j: int| h0 <= j < old(self).spec_queue().len()
                implies old(self).spec_visited().contains((#[trigger] old(self).spec_queue()[j]).0) by {
                assert(old(self).spec_queue()[j].0 == self.queue@[j].0@);
            }
        }
        None
    }

    /// Records whether the neuron being visited exists, and returns whether its connections
    /// are wanted. A found neuron joins the result; once [`MAX_NETWORK_NODES`] are found the
    /// walk is finished. A neuron at the depth limit is not expanded.
    pub fn record_node(&mut self, present: bool) -> (expand: bool)
        requires
            old(self).wf(),
            old(self).spec_phase() == WalkPhase::AwaitNode,
        ensures
            final(self).wf(),
            final(self).spec_nodes() == if present {
                old(self).spec_nodes().push(old(self).spec_current())
            } else {
                old(self).spec_nodes()
            },
            final(self).spec_queue() == old(self).spec_queue(),
            final(self).spec_head() == old(self).spec_head(),
            final(self).spec_visited() == old(self).spec_visited(),
            final(self).spec_edges() == old(self).spec_edges(),
            final(self).spec_keys() == old(self).spec_keys(),
            final(self).spec_current() == old(self).spec_current(),
            final(self).spec_depth() == old(self).spec_depth(),
            final(self).spec_max_depth() == old(self).spec_max_depth(),
            if final(self).spec_nodes().len() >= MAX_NETWORK_NODES {
                final(self).spec_phase() == WalkPhase::Finished && !expand
            } else if old(self).spec_depth() >= old(self).spec_max_depth() {
                final(self).spec_phase() == WalkPhase::Ready && !expand
            } else {
                final(self).spec_phase() == WalkPhase::AwaitEdges && expand
            },
    {
        if present {
            let ghost m0 = self.nodes.spec_members();
            let id = self.current.clone();
            self.nodes.push(&id);
            proof {
                m0.lemma_push_to_set_commute(id@);
                assert forall|i: int, j: int|
                    0 <= i < self.nodes.spec_members().len() && 0 <= j < self.nodes.spec_members().len() && i != j
                    implies self.nodes.spec_members()[i] != self.nodes.spec_members()[j] by {
                    if i == m0.len() {
                        assert(m0.contains(m0[j]));
                    } else if j == m0.len() {
                        assert(m0.contains(m0[i]));
                    }
                }
                assert forall|i: int| 0 <= i < self.nodes.spec_members().len()
                    implies self.visited.spec_seen().contains(#[trigger] self.nodes.spec_members()[i]) by {
                    if i < m0.len() {
                        assert(self.nodes.spec_members()[i] == m0[i]);
                    }
                }
            }
            if self.nodes.len() >= MAX_NETWORK_NODES {
                self.phase = WalkPhase::Finished;
                return false;
            }
        }
        if self.depth >= self.max_depth {
            self.phase = WalkPhase::Ready;
            return false;
        }
        self.phase = WalkPhase::AwaitEdges;
        true
    }

    /// Records the connections of the neuron being visited, each as (source, target). Each
    /// edge whose key was not recorded yet is kept (the returned flags say which); the far
    /// end of every edge joins the queue one level deeper unless it was visited already.
    pub fn record_edges(&mut self, edges: &Vec<(String, String)>) -> (fresh: Vec<bool>)
        requires
            old(self).wf(),
            old(self).spec_phase() == WalkPhase::AwaitEdges,
        ensures
            final(self).wf(),
            fresh@.len() == edges@.len(),
            forall|i: int| 0 <= i < edges@.len()
                ==> #[trigger] fresh@[i] == is_new_edge(old(self).spec_keys(), pairs_view(edges@), i),
            final(self).spec_keys() == keys_after(old(self).spec_keys(), pairs_view(edges@), edges@.len() as int),
            final(self).spec_edges() == old(self).spec_edges()
                + new_edges(old(self).spec_keys(), pairs_view(edges@), edges@.len() as int),
            final(self).spec_queue() == old(self).spec_queue() + queued_ends(
                old(self).spec_visited(),
                old(self).spec_current(),
                old(self).spec_depth(),
                pairs_view(edges@),
                edges@.len() as int,
            ),
            final(self).spec_head() == old(self).spec_head(),
            final(self).spec_visited() == old(self).spec_visited(),
            final(self).spec_nodes() == old(self).spec_nodes(),
            final(self).spec_max_depth() == old(self).spec_max_depth(),
            final(self).spec_phase() == WalkPhase::Ready,
    {
        let ghost es = pairs_view(edges@);
        let ghost keys0 = self.keys.spec_seen();
        let ghost edges0 = self.spec_edges();
        let ghost queue0 = self.spec_queue();
        let ghost visited0 = self.visited.spec_seen();
        let next_depth = self.depth + 1;
        let mut fresh: Vec<bool> = Vec::new();
        let n = edges.len();
        let mut i: usize = 0;
        while i < n
            invariant
                n == edges@.len(),
                es == pairs_view(edges@),
                i <= n,
                fresh@.len() == i,
                forall|j: int| 0 <= j < i ==> #[trigger] fresh@[j] == is_new_edge(keys0, es, j),
                self.keys.spec_seen() == keys_after(keys0, es, i as int),
                self.keys.spec_members().no_duplicates(),
                self.keys.spec_seen() == self.keys.spec_members().to_set(),
                self.sources@.len() == self.targets@.len(),
                self.keys.spec_members().len() == self.sources@.len(),
                forall|j: int| 0 <= j < self.sources@.len()
                    ==> #[trigger] self.keys.spec_members()[j] == edge_key(self.sources@[j]@, self.targets@[j]@),
                self.spec_edges() == edges0 + new_edges(keys0, es, i as int),
                self.spec_queue() == queue0 + queued_ends(visited0, self.current@, self.depth, es, i as int),
                self.visited.spec_seen() == visited0,
                self.head <= self.queue@.len(),
                forall|j: int| 0 <= j < self.queue@.len() ==> (#[trigger] self.queue@[j]).1 <= self.max_depth,
                self.depth < self.max_depth,
                next_depth == self.depth + 1,
                self.nodes == old(self).nodes,
                self.head == old(self).head,
                self.current == old(self).current,
                self.depth == old(self).depth,
                self.max_depth == old(self).max_depth,
                self.phase == old(self).phase,
                self.visited == old(self).visited,
                self.nodes.spec_members().no_duplicates(),
                self.nodes.spec_seen() == self.nodes.spec_members().to_set(),
                forall|j: int| 0 <= j < self.nodes.spec_members().len()
                    ==> self.visited.spec_seen().contains(#[trigger] self.nodes.spec_members()[j]),
                self.nodes.spec_members().len() < MAX_NETWORK_NODES,
            decreases n - i,
        {
            let source = &edges[i].0;
            let target = &edges[i].1;
            let mut key = join2(source.as_str(), "->");
            push_str(&mut key, target.as_str());
            proof {
                assert(es[i as int] == (source@, target@));
                assert(key@ == edge_key(source@, target@));
            }
            let ghost m0 = self.keys.spec_members();
            let ghost e0 = self.spec_edges();
            let is_new = self.keys.insert(&key);
            if is_new {
                self.sources.push(source.clone());
                self.targets.push(target.clone());
                proof {
                    m0.lemma_push_to_set_commute(key@);
                    assert forall|a: int, b: int|
                        0 <= a < self.keys.spec_members().len() && 0 <= b < self.keys.spec_members().len() && a != b
                        implies self.keys.spec_members()[a] != self.keys.spec_members()[b] by {
                        if a == m0.len() {
                            assert(m0.contains(m0[b]));
                        } else if b == m0.len() {
                            assert(m0.contains(m0[a]));
                        }
                    }
                    assert(self.spec_edges() =~= e0.push((source@, target@)));
                }
            } else {
                proof {
                    assert(self.keys.spec_seen() =~= keys_after(keys0, es, i as int + 1));
                }
            }
            fresh.push(is_new);
            let far = if str_eq(source.as_str(), self.current.as_str()) {
                target.clone()
            } else {
                source.clone()
            };
            let ghost q0 = self.spec_queue();
            if !self.visited.contains(&far) {
                self.queue.push((far, next_depth));
                proof {
                    assert(self.spec_queue() =~= q0.push((far@, next_depth)));
                }
            }
            i += 1;
            proof {
                assert(self.spec_queue() =~= queue0 + queued_ends(visited0, self.current@, self.depth, es, i as int));
                assert(self.spec_edges() =~= edges0 + new_edges(keys0, es, i as int));
            }
        }
        self.phase = WalkPhase::Ready;
        fresh
    }

    /// At every step of a walk: each neuron is found at most once, at most
    /// [`MAX_NETWORK_NODES`] are found, nothing beyond the depth limit is ever queued,
    /// every neuron found was visited, and no edge is recorded twice.
    pub proof fn lemma_walk_bounds(self)
        requires
            self.wf(),
        ensures
            self.spec_nodes().no_duplicates(),
            self.spec_nodes().len() <= MAX_NETWORK_NODES,
            forall|i: int| 0 <= i < self.spec_queue().len() ==> (#[trigger] self.spec_queue()[i]).1 <= self.spec_max_depth(),
            forall|i: int| 0 <= i < self.spec_nodes().len() ==> self.spec_visited().contains(#[trigger] self.spec_nodes()[i]),
            forall|i: int, j: int| 0 <= i < j < self.spec_edges().len()
                ==> edge_key((#[trigger] self.spec_edges()[i]).0, self.spec_edges()[i].1)
                    != edge_key((#[trigger] self.spec_edges()[j]).0, self.spec_edges()[j].1),
    {
        assert forall|i: int| 0 <= i < self.spec_queue().len()
            implies (#[trigger] self.spec_queue()[i]).1 <= self.spec_max_depth() by {
            assert(self.spec_queue()[i].1 == self.queue@[i].1);
        }
        assert forall|i: int, j: int| 0 <= i < j < self.spec_edges().len()
            implies edge_key((#[trigger] self.spec_edges()[i]).0, self.spec_edges()[i].1)
                != edge_key((#[trigger] self.spec_edges()[j]).0, self.spec_edges()[j].1) by {
            assert(self.keys.spec_members()[i] == edge_key(self.sources@[i]@, self.targets@[i]@));
            assert(self.keys.spec_members()[j] == edge_key(self.sources@[j]@, self.targets@[j]@));
        }
    }

    /// The neurons found, in visiting order.
    pub fn nodes(&self) -> (r: Vec<String>)
        ensures
            strs_view(r@) == self.spec_nodes(),
    {
        self.nodes.members()
    }

    /// Positions (in recording order) of the recorded edges whose two ends are both among
    /// the neurons found, ascending.
    pub fn kept_edges(&self) -> (r: Vec<usize>)
        requires
            self.wf(),
        ensures
            r@.len() == kept_positions(self.spec_edges(), self.spec_nodes().to_set(), self.spec_edges().len() as int).len(),
            forall|i: int| 0 <= i < r@.len()
                ==> #[trigger] r@[i] as int == kept_positions(self.spec_edges(), self.spec_nodes().to_set(), self.spec_edges().len() as int)[i],
    {
        let ghost es = self.spec_edges();
        let ghost ns = self.spec_nodes().to_set();
        let mut out: Vec<usize> = Vec::new();
        let n = self.sources.len();
        let mut i: usize = 0;
        while i < n
            invariant
                n == self.sources@.len(),
                self.sources@.len() == self.targets@.len(),
                es == self.spec_edges(),
                ns == self.nodes.spec_seen(),
                i <= n,
                out@.len() == kept_positions(es, ns, i as int).len(),
                forall|j: int| 0 <= j < out@.len() ==> #[trigger] out@[j] as int == kept_positions(es, ns, i as int)[j],
            decreases n - i,
        {
            let keep = self.nodes.contains(&self.sources[i]) && self.nodes.contains(&self.targets[i]);
            proof {
                assert(es[i as int] == (self.sources@[i as int]@, self.targets@[i as int]@));
            }
            if keep {
                out.push(i);
            }
            i += 1;
        }
        out
    }
}

} // verus!

verus! {

/// Positions of the rows a limited listing keeps among the first `k`: rows in order, minus
/// the excluded ids, until `limit` are kept. A limit of 0 keeps every row that is not
/// excluded (the count is compared after each row kept, so it never equals 0).
pub open spec fn taken_rows(ids: Seq<Seq<char>>, excluded: Seq<String>, limit: nat, k: int) -> Seq<int>
    decreases k,
{
    if k <= 0 {
        Seq::empty()
    } else {
        let prev = taken_rows(ids, excluded, limit, k - 1);
        if limit > 0 && prev.len() == limit {
            prev
        } else if has_text(excluded, ids[k - 1]) {
            prev
        } else {
            prev.push(k - 1)
        }
    }
}

/// Positions of the rows to keep from `ids` (in the order the query returned them): rows
/// whose id is excluded are skipped, and the listing stops once `limit` rows are kept.
pub fn take_unexcluded(ids: &Vec<String>, limit: usize, excluded: &Vec<String>) -> (r: Vec<usize>)
    ensures
        r@.len() == taken_rows(strs_view(ids@), excluded@, limit as nat, ids@.len() as int).len(),
        forall|i: int| 0 <= i < r@.len()
            ==> #[trigger] r@[i] as int == taken_rows(strs_view(ids@), excluded@, limit as nat, ids@.len() as int)[i],
{
    let ghost v = strs_view(ids@);
    let mut out: Vec<usize> = Vec::new();
    let n = ids.len();
    let mut i: usize = 0;
    while i < n
        invariant
            n == ids@.len(),
            v == strs_view(ids@),
            i <= n,
            out@.len() == taken_rows(v, excluded@, limit as nat, i as int).len(),
            forall|j: int| 0 <= j < out@.len() ==> #[trigger] out@[j] as int == taken_rows(v, excluded@, limit as nat, i as int)[j],
            limit > 0 ==> out@.len() < limit,
        decreases n - i,
    {
        if !contains_text(excluded, &ids[i]) {
            out.push(i);
            if out.len() == limit {
                i += 1;
                proof {
                    assert(v[i - 1] == ids@[i - 1]@);
                    lemma_taken_stays(v, excluded@, limit as nat, i as int, n as int);
                }
                return out;
            }
        }
        proof {
            assert(v[i as int] == ids@[i as int]@);
        }
        i += 1;
    }
    out
}

/// Once a listing holds `limit` rows it takes no more.
proof fn lemma_taken_stays(ids: Seq<Seq<char>>, excluded: Seq<String>, limit: nat, k: int, m: int)
    requires
        0 <= k <= m,
        limit > 0,
        taken_rows(ids, excluded, limit, k).len() == limit,
    ensures
        taken_rows(ids, excluded, limit, m) == taken_rows(ids, excluded, limit, k),
    decreases m - k,
{
    if m > k {
        lemma_taken_stays(ids, excluded, limit, k, m - 1);
    }
}

/// Most rows a page of the admin listing holds.
pub const MAX_PAGE_SIZE: usize = 100;

/// Page size of the admin listing: clamped to `1..=100`.
pub open spec fn clamp_page_size(page_size: usize) -> usize {
    if page_size < 1 {
        1
    } else if page_size > MAX_PAGE_SIZE {
        MAX_PAGE_SIZE
    } else {
        page_size
    }
}

/// Offset of a page: `page * size`, saturating at `usize::MAX`.
pub open spec fn page_offset(page: usize, size: usize) -> usize {
    if page * size > usize::MAX {
        usize::MAX
    } else {
        (page * size) as usize
    }
}

/// A search term with the `LIKE` wildcards (`%`, `_`) and the escape character (`\`)
/// preceded by `\`.
pub open spec fn escape_like(s: Seq<char>) -> Seq<char>
    decreases s.len(),
{
    if s.len() == 0 {
        s
    } else {
        let c = s.last();
        let tail: Seq<char> = if c == '\\' || c == '%' || c == '_' {
            seq!['\\', c]
        } else {
            seq![c]
        };
        escape_like(s.drop_last()) + tail
    }
}

/// `escape_like` of `s`.
pub fn escape_like_text(s: &str) -> (r: String)
    ensures
        r@ == escape_like(s@),
{
    let cs = chars_of(s);
    let mut out = String::new();
    let n = cs.len();
    let mut i: usize = 0;
    proof {
        assert(escape_like(s@.subrange(0, 0)) == Seq::<char>::empty());
        assert(out@ =~= escape_like(s@.subrange(0, 0)));
    }
    while i < n
        invariant
            n == cs@.len(),
            cs@ == s@,
            i <= n,
            out@ == escape_like(s@.subrange(0, i as int)),
        decreases n - i,
    {
        let c = cs[i];
        let ghost before = out@;
        if c == '\\' {
            push_str(&mut out, "\\\\");
            proof { reveal_strlit("\\\\"); }
        } else if c == '%' {
            push_str(&mut out, "\\%");
            proof { reveal_strlit("\\%"); }
        } else if c == '_' {
            push_str(&mut out, "\\_");
            proof { reveal_strlit("\\_"); }
        } else {
            let one = s.substring_char(i, i + 1);
            proof {
                assert(one@ =~= seq![c]);
            }
            push_str(&mut out, one);
        }
        proof {
            let p = s@.subrange(0, i as int + 1);
            assert(p.drop_last() =~= s@.subrange(0, i as int));
            assert(p.last() == c);
            assert(out@ =~= escape_like(p));
        }
        i += 1;
    }
    proof {
        assert(s@.subrange(0, n as int) =~= s@);
    }
    out
}

/// Statements of one page of the admin neuron listing, and their parameters.
#[derive(Debug, Clone, PartialEq, Eq)]
pub struct NeuronPageQuery {
    /// Counts the neurons matching the filter (parameters: `patterns`).
    pub count_sql: String,
    /// Selects the page (parameters: `patterns`, then `limit` and `offset`).
    pub select_sql: String,
    /// The search pattern, once per searched column; empty without a search.
    pub patterns: Vec<String>,
    pub limit: usize,
    pub offset: usize,
}

/// Filter of the admin listing: live neurons, of the kind asked for, matching the search in
/// description or id.
pub open spec fn page_where(kind: NeuronKindFilter, searching: bool) -> Seq<char> {
    let base = "deleted_at IS NULL"@;
    let with_kind = match kind {
        NeuronKindFilter::All => base,
        NeuronKindFilter::System => base + " AND system_type IS NOT NULL"@,
        NeuronKindFilter::Normal => base + " AND system_type IS NULL"@,
    };
    if searching {
        with_kind + " AND (desc LIKE ? ESCAPE '\\' OR id LIKE ? ESCAPE '\\')"@
    } else {
        with_kind
    }
}

/// Columns of a neuron row, in the order the caller reads them.
pub const NEURON_COLUMNS: &'static str = "id, desc, content, weight, system_type, tool_ids, created_at, updated_at, use_count, last_used_at, deleted_at, behavior";

/// The statements of page `page` of the admin listing: the size is clamped to `1..=100`,
/// the offset is `page * size` (saturating), the filter keeps live neurons of `kind`, and a
/// search (trimmed, when not blank) matches description or id as a literal substring.
/// Rows are ordered by weight (descending), then id.
pub fn neuron_page_query(page: usize, page_size: usize, search: Option<&str>, kind: NeuronKindFilter) -> (r: NeuronPageQuery)
    ensures
        ({
            let term: Option<Seq<char>> = match search {
                Some(s) => if trim_seq(s@).len() > 0 { Some(trim_seq(s@)) } else { None },
                None => None,
            };
            let w = page_where(kind, term is Some);
            &&& r.limit == clamp_page_size(page_size)
            &&& r.offset == page_offset(page, clamp_page_size(page_size))
            &&& r.count_sql@ == "SELECT COUNT(*) FROM neurons WHERE "@ + w
            &&& r.select_sql@ == "SELECT "@ + NEURON_COLUMNS@ + " FROM neurons WHERE "@ + w
                + " ORDER BY weight DESC, id ASC LIMIT ? OFFSET ?"@
            &&& match term {
                Some(t) => strs_view(r.patterns@) == seq!["%"@ + escape_like(t) + "%"@, "%"@ + escape_like(t) + "%"@],
                None => r.patterns@.len() == 0,
            }
        }),
{
    let limit: usize = if page_size < 1 {
        1
    } else if page_size > MAX_PAGE_SIZE {
        MAX_PAGE_SIZE
    } else {
        page_size
    };
    let offset: usize = match page.checked_mul(limit) {
        Some(o) => o,
        None => usize::MAX,
    };
    let mut wh = owned("deleted_at IS NULL");
    match kind {
        NeuronKindFilter::All => {},
        NeuronKindFilter::System => push_str(&mut wh, " AND system_type IS NOT NULL"),
        NeuronKindFilter::Normal => push_str(&mut wh, " AND system_type IS NULL"),
    }
    let mut patterns: Vec<String> = Vec::new();
    match search {
        Some(s) => {
            let t = trim_str(s);
            if !str_is_empty(t) {
                push_str(&mut wh, " AND (desc LIKE ? ESCAPE '\\' OR id LIKE ? ESCAPE '\\')");
                let esc = escape_like_text(t);
                let mut pattern = join2("%", esc.as_str());
                push_str(&mut pattern, "%");
                patterns.push(pattern.clone());
                patterns.push(pattern);
                proof {
                    assert(strs_view(patterns@) =~= seq!["%"@ + escape_like(trim_seq(s@)) + "%"@, "%"@ + escape_like(trim_seq(s@)) + "%"@]);
                }
            }
        },
        None => {},
    }
    let count_sql = join2("SELECT COUNT(*) FROM neurons WHERE ", wh.as_str());
    let mut select_sql = join2("SELECT ", NEURON_COLUMNS);
    push_str(&mut select_sql, " FROM neurons WHERE ");
    push_str(&mut select_sql, wh.as_str());
    push_str(&mut select_sql, " ORDER BY weight DESC, id ASC LIMIT ? OFFSET ?");
    proof {
        assert(page * limit <= usize::MAX ==> offset == page * limit);
    }
    NeuronPageQuery { count_sql, select_sql, patterns, limit, offset }
}

/// Whether rows follow the page: `offset + items < total`.
pub fn page_has_more(offset: usize, items: usize, total: usize) -> (r: bool)
    ensures
        r == (offset + items < total),
{
    if items > total {
        false
    } else {
        offset < total - items
    }
}

} // verus!
