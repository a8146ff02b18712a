//! The assistant's neighbourhood candidate pool around a neuron: its existing children and
//! new ones created for it, the neuron itself, its siblings, its ancestors, and the
//! heaviest neurons of the whole graph, each id once, in that order.
//!
//! The caller reads the graph and creates neurons when asked; this module decides each
//! step and which of the reported neurons join.

use vstd::prelude::*;

use crate::error::AppError;
use crate::models::{strs_view, NeighborhoodPoolPolicy};
use crate::selection::{insert_all, joining, neighborhood_pool_bound, new_child_count, tidy, too_many_children_message, IdPool};
use crate::text::owned;

verus! {

/// What the caller does next for a neighbourhood pool.
#[derive(Debug, Clone, PartialEq, Eq)]
pub enum NeighborStep {
    /// Check that the neuron exists (`self_found`).
    FetchSelf { id: String },
    /// List up to `limit` direct children of `source` not in `exclude` (`children`).
    Children { source: String, limit: usize, exclude: Vec<String> },
    /// Create `count` children of the neuron (`created`).
    Create { count: usize },
    /// Find the direct parent of `of` (`parent`).
    Parent { of: String },
    /// List up to `limit` direct children of `parent` not in `exclude` (`listed`).
    Siblings { parent: String, limit: usize, exclude: Vec<String> },
    /// List up to `limit` of the heaviest ordinary neurons not in `exclude` (`listed`).
    Global { limit: usize, exclude: Vec<String> },
    /// The pool is complete (`members`).
    Done,
    /// The pool cannot be assembled.
    Failed(AppError),
}

/// Where a neighbourhood pool stands.
#[derive(Debug, Clone, Copy, PartialEq, Eq, Structural)]
pub enum NeighborStage {
    SelfCheck,
    Children,
    Create,
    ParentOfSelf,
    Siblings,
    Ancestor,
    Global,
    Finished,
}

/// Assembly of the neighbourhood pool of one neuron.
pub struct NeighborhoodAssembly {
    self_id: String,
    policy: NeighborhoodPoolPolicy,
    stage: NeighborStage,
    children: Vec<String>,
    parent: String,
    left: usize,
    pool: IdPool,
}

impl NeighborhoodAssembly {
    /// The neuron whose neighbourhood is assembled.
    pub closed spec fn spec_self(self) -> Seq<char> {
        self.self_id@
    }

    /// The quotas.
    pub closed spec fn spec_policy(self) -> NeighborhoodPoolPolicy {
        self.policy
    }

    /// Where the assembly stands.
    pub closed spec fn spec_stage(self) -> NeighborStage {
        self.stage
    }

    /// Existing children reported (they join once the new ones are created).
    pub closed spec fn spec_children(self) -> Seq<Seq<char>> {
        strs_view(self.children@)
    }

    /// The neuron's parent, once found.
    pub closed spec fn spec_parent(self) -> Seq<char> {
        self.parent@
    }

    /// Ancestor steps left.
    pub closed spec fn spec_left(self) -> nat {
        self.left as nat
    }

    /// Members so far, in order.
    pub closed spec fn spec_members(self) -> Seq<Seq<char>> {
        self.pool.spec_members()
    }

    /// Ids that joined so far.
    pub closed spec fn spec_seen(self) -> Set<Seq<char>> {
        self.pool.spec_seen()
    }

    /// Invariant: the members are distinct and are the ids seen.
    pub closed spec fn wf(self) -> bool {
        tidy(self.pool.spec_members(), self.pool.spec_seen())
    }

    /// At every step of an assembly each id is in the pool at most once, and the members are
    /// exactly the ids that joined.
    pub proof fn lemma_members_distinct(self)
        requires
            self.wf(),
        ensures
            self.spec_members().no_duplicates(),
            self.spec_members().to_set() == self.spec_seen(),
    {
    }

    /// The pool's members, for an exclusion list.
    fn exclusions(&self) -> (r: Vec<String>)
        ensures
            strs_view(r@) == self.pool.spec_members(),
    {
        self.pool.members()
    }

    /// Starts the pool of `self_id` with `policy`: quotas whose total overflows fail
    /// (`InvalidInput`); otherwise the neuron is checked first.
    pub fn start(self_id: &str, policy: NeighborhoodPoolPolicy) -> (r: (NeighborhoodAssembly, NeighborStep))
        ensures
            r.0.wf(),
            r.0.spec_self() == self_id@,
            r.0.spec_policy() == policy,
            r.0.spec_members().len() == 0,
            r.0.spec_seen() == Set::<Seq<char>>::empty(),
            ({
                let total = policy.existing_downstream + policy.new_downstream + 1 + policy.siblings
                    + policy.upstream_depth + policy.global_top_weight;
                if total > usize::MAX {
                    r.0.spec_stage() == NeighborStage::Finished && (r.1 matches NeighborStep::Failed(AppError::InvalidInput(m))
                        && m@ == "assistant candidate quotas overflow usize"@)
                } else {
                    r.0.spec_stage() == NeighborStage::SelfCheck && (r.1 matches NeighborStep::FetchSelf { id } && id@ == self_id@)
                }
            }),
    {
        let pool = IdPool::new();
        let mut a = NeighborhoodAssembly {
            self_id: owned(self_id),
            policy,
            stage: NeighborStage::SelfCheck,
            children: Vec::new(),
            parent: String::new(),
            left: 0,
            pool,
        };
        proof {
            assert(a.pool.spec_members().to_set() =~= Set::<Seq<char>>::empty());
        }
        match neighborhood_pool_bound(&policy) {
            Err(e) => {
                a.stage = NeighborStage::Finished;
                (a, NeighborStep::Failed(e))
            },
            Ok(_) => (a, NeighborStep::FetchSelf { id: owned(self_id) }),
        }
    }

    /// Whether the neuron exists: a missing neuron fails (`NeuronNotFound` with its id);
    /// otherwise its existing children are listed, up to the quota, without itself.
    pub fn self_found(&mut self, found: bool) -> (r: NeighborStep)
        requires
            old(self).wf(),
            old(self).spec_stage() == NeighborStage::SelfCheck,
        ensures
            final(self).wf(),
            final(self).spec_self() == old(self).spec_self(),
            final(self).spec_policy() == old(self).spec_policy(),
            final(self).spec_members() == old(self).spec_members(),
            final(self).spec_seen() == old(self).spec_seen(),
            !found ==> final(self).spec_stage() == NeighborStage::Finished && (r matches NeighborStep::Failed(AppError::NeuronNotFound(m))
                && m@ == old(self).spec_self()),
            found ==> final(self).spec_stage() == NeighborStage::Children && (r matches NeighborStep::Children { source, limit, exclude }
                && source@ == old(self).spec_self() && limit == old(self).spec_policy().existing_downstream
                && strs_view(exclude@) == seq![old(self).spec_self()]),
    {
        if !found {
            self.stage = NeighborStage::Finished;
            return NeighborStep::Failed(AppError::NeuronNotFound(self.self_id.clone()));
        }
        self.stage = NeighborStage::Children;
        let mut exclude: Vec<String> = Vec::new();
        exclude.push(self.self_id.clone());
        proof {
            assert(strs_view(exclude@) =~= seq![self.self_id@]);
        }
        NeighborStep::Children {
            source: self.self_id.clone(),
            limit: self.policy.existing_downstream,
            exclude,
        }
    }

    /// The existing children found (in order). The children to create are the new quota plus,
    /// when the shortage is filled, the existing ones missing; more than ten, or a count
    /// that overflows, fails (`InvalidInput`). With none to create, the pool is filled at once.
    pub fn children(&mut self, ids: &Vec<String>) -> (r: NeighborStep)
        requires
            old(self).wf(),
            old(self).spec_stage() == NeighborStage::Children,
        ensures
            final(self).wf(),
            final(self).spec_self() == old(self).spec_self(),
            final(self).spec_policy() == old(self).spec_policy(),
            ({
                let p = old(self).spec_policy();
                let shortage: int = if p.fill_downstream_shortage && ids@.len() < p.existing_downstream {
                    p.existing_downstream - ids@.len()
                } else {
                    0
                };
                let count = p.new_downstream + shortage;
                if count > usize::MAX {
                    final(self).spec_stage() == NeighborStage::Finished && (r matches NeighborStep::Failed(AppError::InvalidInput(m))
                        && m@ == "assistant new downstream quota overflows usize"@)
                } else if count > 10 {
                    final(self).spec_stage() == NeighborStage::Finished && (r matches NeighborStep::Failed(AppError::InvalidInput(m))
                        && m@ == too_many_children_message(count as nat))
                } else if count > 0 {
                    &&& final(self).spec_stage() == NeighborStage::Create
                    &&& final(self).spec_children() == strs_view(ids@)
                    &&& final(self).spec_members() == old(self).spec_members()
                    &&& r == (NeighborStep::Create { count: count as usize })
                } else {
                    &&& final(self).spec_stage() == NeighborStage::ParentOfSelf
                    &&& final(self).spec_members() == old(self).spec_members()
                        + joining(old(self).spec_seen(), strs_view(ids@) + seq![old(self).spec_self()], ids@.len() + 1int)
                    &&& (r matches NeighborStep::Parent { of } && of@ == old(self).spec_self())
                }
            }),
    {
        let count = match new_child_count(&self.policy, ids.len()) {
            Err(e) => {
                self.stage = NeighborStage::Finished;
                return NeighborStep::Failed(e);
            },
            Ok(c) => c,
        };
        self.children = ids.clone();
        proof {
            assert(self.children@ == ids@);
        }
        if count > 0 {
            self.stage = NeighborStage::Create;
            return NeighborStep::Create { count };
        }
        let empty: Vec<String> = Vec::new();
        self.join_family(&empty)
    }

    /// Children, created ones and the neuron itself join; then the parent is looked up.
    fn join_family(&mut self, created: &Vec<String>) -> (r: NeighborStep)
        requires
            old(self).wf(),
        ensures
            final(self).wf(),
            final(self).self_id == old(self).self_id,
            final(self).policy == old(self).policy,
            final(self).children == old(self).children,
            final(self).spec_stage() == NeighborStage::ParentOfSelf,
            final(self).spec_members() == old(self).spec_members() + joining(
                old(self).spec_seen(),
                strs_view(old(self).children@) + strs_view(created@) + seq![old(self).spec_self()],
                old(self).children@.len() + created@.len() + 1int,
            ),
            r matches NeighborStep::Parent { of } && of@ == old(self).spec_self(),
    {
        let mut all: Vec<String> = self.children.clone();
        let mut k: usize = 0;
        while k < created.len()
            invariant
                k <= created@.len(),
                strs_view(all@) == strs_view(self.children@) + strs_view(created@.take(k as int)),
            decreases created@.len() - k,
        {
            let ghost a0 = all@;
            let item = created[k].clone();
            all.push(item);
            proof {
                assert(strs_view(all@) =~= strs_view(a0).push(created@[k as int]@));
                assert(strs_view(created@.take(k as int + 1)) =~= strs_view(created@.take(k as int)).push(created@[k as int]@));
                assert(strs_view(all@) =~= strs_view(self.children@) + strs_view(created@.take(k as int + 1)));
            }
            k += 1;
        }
        all.push(self.self_id.clone());
        proof {
            assert(created@.take(created@.len() as int) =~= created@);
            assert(strs_view(all@) =~= strs_view(self.children@) + strs_view(created@) + seq![self.self_id@]);
        }
        insert_all(&mut self.pool, &all);
        self.stage = NeighborStage::ParentOfSelf;
        NeighborStep::Parent { of: self.self_id.clone() }
    }

    /// The children created (in order): the existing children, these and the neuron itself
    /// join; then the neuron's parent is looked up.
    pub fn created(&mut self, ids: &Vec<String>) -> (r: NeighborStep)
        requires
            old(self).wf(),
            old(self).spec_stage() == NeighborStage::Create,
        ensures
            final(self).wf(),
            final(self).spec_self() == old(self).spec_self(),
            final(self).spec_policy() == old(self).spec_policy(),
            final(self).spec_stage() == NeighborStage::ParentOfSelf,
            final(self).spec_members() == old(self).spec_members() + joining(
                old(self).spec_seen(),
                old(self).spec_children() + strs_view(ids@) + seq![old(self).spec_self()],
                old(self).spec_children().len() + ids@.len() + 1int,
            ),
            r matches NeighborStep::Parent { of } && of@ == old(self).spec_self(),
    {
        self.join_family(ids)
    }

    /// The global supplement when asked for, else done.
    fn to_global(&mut self) -> (r: NeighborStep)
        requires
            old(self).wf(),
        ensures
            final(self).wf(),
            final(self).self_id == old(self).self_id,
            final(self).policy == old(self).policy,
            final(self).spec_members() == old(self).spec_members(),
            final(self).spec_seen() == old(self).spec_seen(),
            old(self).policy.global_top_weight > 0 ==> final(self).spec_stage() == NeighborStage::Global
                && (r matches NeighborStep::Global { limit, exclude } && limit == old(self).policy.global_top_weight
                    && strs_view(exclude@) == old(self).spec_members()),
            old(self).policy.global_top_weight == 0 ==> final(self).spec_stage() == NeighborStage::Finished
                && r == NeighborStep::Done,
    {
        if self.policy.global_top_weight > 0 {
            self.stage = NeighborStage::Global;
            NeighborStep::Global { limit: self.policy.global_top_weight, exclude: self.exclusions() }
        } else {
            self.stage = NeighborStage::Finished;
            NeighborStep::Done
        }
    }

    /// One ancestor step from `current`: with steps left it joins and its parent is looked
    /// up; otherwise the walk ends.
    fn ancestor_step(&mut self, current: &String) -> (r: NeighborStep)
        requires
            old(self).wf(),
        ensures
            final(self).wf(),
            final(self).self_id == old(self).self_id,
            final(self).policy == old(self).policy,
            old(self).left > 0 ==> {
                &&& final(self).spec_stage() == NeighborStage::Ancestor
                &&& final(self).left == old(self).left - 1
                &&& final(self).spec_members() == old(self).spec_members() + joining(old(self).spec_seen(), seq![current@], 1)
                &&& r matches NeighborStep::Parent { of } && of@ == current@
            },
            old(self).left == 0 ==> final(self).spec_members() == old(self).spec_members() && ({
                let p = old(self).policy;
                &&& p.global_top_weight > 0 ==> final(self).spec_stage() == NeighborStage::Global
                    && (r matches NeighborStep::Global { limit, exclude } && limit == p.global_top_weight
                        && strs_view(exclude@) == old(self).spec_members())
                &&& p.global_top_weight == 0 ==> final(self).spec_stage() == NeighborStage::Finished && r == NeighborStep::Done
            }),
    {
        if self.left == 0 {
            return self.to_global();
        }
        let mut one: Vec<String> = Vec::new();
        one.push(current.clone());
        proof {
            assert(strs_view(one@) =~= seq![current@]);
        }
        insert_all(&mut self.pool, &one);
        self.left = self.left - 1;
        self.stage = NeighborStage::Ancestor;
        NeighborStep::Parent { of: current.clone() }
    }

    /// The parent found, if any. For the neuron itself: with a parent, its siblings are
    /// listed (up to the quota, without the pool's members); without, the walk ends. During
    /// the ancestor walk: the parent is the next ancestor; none ends the walk.
    pub fn parent(&mut self, found: Option<String>) -> (r: NeighborStep)
        requires
            old(self).wf(),
            old(self).spec_stage() == NeighborStage::ParentOfSelf || old(self).spec_stage() == NeighborStage::Ancestor,
        ensures
            final(self).wf(),
            final(self).spec_self() == old(self).spec_self(),
            final(self).spec_policy() == old(self).spec_policy(),
            ({
                let p = old(self).spec_policy();
                match found {
                    None => {
                        &&& final(self).spec_members() == old(self).spec_members()
                        &&& p.global_top_weight > 0 ==> final(self).spec_stage() == NeighborStage::Global
                            && (r matches NeighborStep::Global { limit, exclude } && limit == p.global_top_weight
                                && strs_view(exclude@) == old(self).spec_members())
                        &&& p.global_top_weight == 0 ==> final(self).spec_stage() == NeighborStage::Finished
                            && r == NeighborStep::Done
                    },
                    Some(id) => if old(self).spec_stage() == NeighborStage::ParentOfSelf {
                        &&& final(self).spec_stage() == NeighborStage::Siblings
                        &&& final(self).spec_members() == old(self).spec_members()
                        &&& final(self).spec_left() == p.upstream_depth
                        &&& r matches NeighborStep::Siblings { parent, limit, exclude } && parent@ == id@
                            && limit == p.siblings && strs_view(exclude@) == old(self).spec_members()
                    } else if old(self).spec_left() > 0 {
                        &&& final(self).spec_stage() == NeighborStage::Ancestor
                        &&& final(self).spec_left() == old(self).spec_left() - 1
                        &&& final(self).spec_members() == old(self).spec_members() + joining(old(self).spec_seen(), seq![id@], 1)
                        &&& r matches NeighborStep::Parent { of } && of@ == id@
                    } else {
                        &&& final(self).spec_members() == old(self).spec_members()
                        &&& p.global_top_weight > 0 ==> final(self).spec_stage() == NeighborStage::Global
                            && (r matches NeighborStep::Global { limit, exclude } && limit == p.global_top_weight
                                && strs_view(exclude@) == old(self).spec_members())
                        &&& p.global_top_weight == 0 ==> final(self).spec_stage() == NeighborStage::Finished
                            && r == NeighborStep::Done
                    },
                }
            }),
    {
        match found {
            None => self.to_global(),
            Some(id) => {
                if self.stage == NeighborStage::ParentOfSelf {
                    self.parent = id.clone();
                    self.left = self.policy.upstream_depth;
                    self.stage = NeighborStage::Siblings;
                    NeighborStep::Siblings { parent: id, limit: self.policy.siblings, exclude: self.exclusions() }
                } else {
                    self.ancestor_step(&id)
                }
            },
        }
    }

    /// Neurons listed for the pending step (siblings or the global supplement), in order;
    /// they join unless seen. After the siblings the ancestor walk starts at the parent;
    /// after the global supplement the pool is done.
    pub fn listed(&mut self, ids: &Vec<String>) -> (r: NeighborStep)
        requires
            old(self).wf(),
            old(self).spec_stage() == NeighborStage::Siblings || old(self).spec_stage() == NeighborStage::Global,
        ensures
            final(self).wf(),
            final(self).spec_self() == old(self).spec_self(),
            final(self).spec_policy() == old(self).spec_policy(),
            old(self).spec_stage() == NeighborStage::Global ==> {
                &&& final(self).spec_stage() == NeighborStage::Finished
                &&& r == NeighborStep::Done
                &&& final(self).spec_members() == old(self).spec_members()
                    + joining(old(self).spec_seen(), strs_view(ids@), ids@.len() as int)
            },
            old(self).spec_stage() == NeighborStage::Siblings ==> {
                let mid = old(self).spec_members() + joining(old(self).spec_seen(), strs_view(ids@), ids@.len() as int);
                let mid_seen = mid.to_set();
                if old(self).spec_left() > 0 {
                    &&& final(self).spec_stage() == NeighborStage::Ancestor
                    &&& final(self).spec_left() == old(self).spec_left() - 1
                    &&& final(self).spec_members() == mid + joining(mid_seen, seq![old(self).spec_parent()], 1)
                    &&& r matches NeighborStep::Parent { of } && of@ == old(self).spec_parent()
                } else {
                    &&& final(self).spec_members() == mid
                    &&& old(self).spec_policy().global_top_weight > 0 ==> final(self).spec_stage() == NeighborStage::Global
                        && (r matches NeighborStep::Global { limit, exclude } && limit == old(self).spec_policy().global_top_weight
                            && strs_view(exclude@) == mid)
                    &&& old(self).spec_policy().global_top_weight == 0 ==> final(self).spec_stage() == NeighborStage::Finished
                        && r == NeighborStep::Done
                }
            },
    {
        insert_all(&mut self.pool, ids);
        if self.stage == NeighborStage::Global {
            self.stage = NeighborStage::Finished;
            return NeighborStep::Done;
        }
        let parent = self.parent.clone();
        self.ancestor_step(&parent)
    }

    /// The pool's members, in order.
    pub fn members(&self) -> (r: Vec<String>)
        ensures
            strs_view(r@) == self.spec_members(),
    {
        self.pool.members()
    }
}

} // verus!
