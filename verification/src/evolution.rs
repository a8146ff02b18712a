//! Creator variant evolution: after a scoring round, at most one variant of the creator is
//! acted on — an observing variant is promoted or rolled back, else a regressed variant is
//! eliminated (rolled back), else a variant with a strong signal is rewritten.
//!
//! The score comparisons are made by the caller on its stored deltas and handed in as facts.

use vstd::prelude::*;

verus! {

/// What evolution reads of one creator variant.
#[derive(Debug, Clone, Copy, PartialEq, Eq, Structural)]
pub struct VariantFacts {
    /// In the observing slot (just rewritten, on probation).
    pub observing: bool,
    /// Times the variant generated a neuron.
    pub use_count: i64,
    /// Edited by hand: never eliminated or rewritten automatically.
    pub manual_edited: bool,
    /// Its accumulated score delta is negative.
    pub negative: bool,
    /// Its accumulated score delta is at most -3.
    pub deeply_negative: bool,
    /// Its accumulated score delta is at least 2 in magnitude.
    pub strong_signal: bool,
}

/// The action evolution takes, on the variant at the given position.
#[derive(Debug, Clone, Copy, PartialEq, Eq, Structural)]
pub enum EvolutionAction {
    Nothing,
    /// An observing variant regressed: restore its archived version.
    RollBack(usize),
    /// An observing variant was used without regressing: make it active.
    Promote(usize),
    /// A settled variant regressed: restore its archived version.
    Eliminate(usize),
    /// A settled variant has a strong signal: rewrite it differentially.
    Rewrite(usize),
}

/// An observing variant decides (it regressed, or it was used).
pub open spec fn observing_decides(v: VariantFacts) -> bool {
    v.observing && (v.negative || v.use_count >= 1)
}

/// A settled, automatically managed variant is eliminated.
pub open spec fn eliminated(v: VariantFacts) -> bool {
    !v.observing && !v.manual_edited && (v.deeply_negative || (v.use_count >= 10 && v.negative))
}

/// A settled, automatically managed variant is rewritten.
pub open spec fn rewritten(v: VariantFacts) -> bool {
    !v.observing && !v.manual_edited && v.use_count >= 3 && v.strong_signal
}

/// Position of the first variant satisfying `p` (`vs.len()` when none).
pub open spec fn first_where(vs: Seq<VariantFacts>, p: spec_fn(VariantFacts) -> bool) -> int
    decreases vs.len(),
{
    if vs.len() == 0 {
        0
    } else if first_where(vs.drop_last(), p) < vs.len() - 1 {
        first_where(vs.drop_last(), p)
    } else if p(vs.last()) {
        vs.len() - 1
    } else {
        vs.len() as int
    }
}

proof fn lemma_first_where(vs: Seq<VariantFacts>, p: spec_fn(VariantFacts) -> bool)
    ensures
        0 <= first_where(vs, p) <= vs.len(),
        forall|j: int| 0 <= j < first_where(vs, p) ==> !p(#[trigger] vs[j]),
        first_where(vs, p) < vs.len() ==> p(vs[first_where(vs, p)]),
    decreases vs.len(),
{
    if vs.len() > 0 {
        let prefix = vs.drop_last();
        lemma_first_where(prefix, p);
        assert forall|j: int| 0 <= j < vs.len() - 1 implies vs[j] == prefix[j] by {}
        let kp = first_where(prefix, p);
        if kp < vs.len() - 1 {
            assert(vs[kp] == prefix[kp]);
        }
    }
}

/// The action on the variant pool: the first observing variant that decides is rolled back
/// (regressed) or promoted (used); else the first eliminated variant; else the first
/// rewritten one; else nothing.
pub open spec fn evolution_spec(vs: Seq<VariantFacts>) -> EvolutionAction {
    let o = first_where(vs, |v: VariantFacts| observing_decides(v));
    let e = first_where(vs, |v: VariantFacts| eliminated(v));
    let w = first_where(vs, |v: VariantFacts| rewritten(v));
    if o < vs.len() {
        if vs[o].negative {
            EvolutionAction::RollBack(o as usize)
        } else {
            EvolutionAction::Promote(o as usize)
        }
    } else if e < vs.len() {
        EvolutionAction::Eliminate(e as usize)
    } else if w < vs.len() {
        EvolutionAction::Rewrite(w as usize)
    } else {
        EvolutionAction::Nothing
    }
}

fn find_first(vs: &Vec<VariantFacts>, kind: u8) -> (r: usize)
    requires
        kind < 3,
    ensures
        kind == 0 ==> r == first_where(vs@, |v: VariantFacts| observing_decides(v)),
        kind == 1 ==> r == first_where(vs@, |v: VariantFacts| eliminated(v)),
        kind == 2 ==> r == first_where(vs@, |v: VariantFacts| rewritten(v)),
{
    let ghost p: spec_fn(VariantFacts) -> bool = if kind == 0 {
        |v: VariantFacts| observing_decides(v)
    } else if kind == 1 {
        |v: VariantFacts| eliminated(v)
    } else {
        |v: VariantFacts| rewritten(v)
    };
    proof {
        lemma_first_where(vs@, p);
    }
    let n = vs.len();
    let mut i: usize = 0;
    while i < n
        invariant
            n == vs@.len(),
            kind < 3,
            p == (if kind == 0 {
                |v: VariantFacts| observing_decides(v)
            } else if kind == 1 {
                |v: VariantFacts| eliminated(v)
            } else {
                |v: VariantFacts| rewritten(v)
            }),
            i <= first_where(vs@, p),
            0 <= first_where(vs@, p) <= vs@.len(),
            forall|j: int| 0 <= j < first_where(vs@, p) ==> !p(#[trigger] vs@[j]),
            first_where(vs@, p) < vs@.len() ==> p(vs@[first_where(vs@, p)]),
        decreases n - i,
    {
        let v = vs[i];
        let hit = if kind == 0 {
            v.observing && (v.negative || v.use_count >= 1)
        } else if kind == 1 {
            !v.observing && !v.manual_edited && (v.deeply_negative || (v.use_count >= 10 && v.negative))
        } else {
            !v.observing && !v.manual_edited && v.use_count >= 3 && v.strong_signal
        };
        assert(hit == p(v));
        if hit {
            return i;
        }
        i += 1;
    }
    n
}

/// The action on the creator's variant pool (see [`evolution_spec`]); nothing for an empty
/// pool.
pub fn evolution_action(variants: &Vec<VariantFacts>) -> (r: EvolutionAction)
    ensures
        r == evolution_spec(variants@),
{
    let o = find_first(variants, 0);
    if o < variants.len() {
        if variants[o].negative {
            return EvolutionAction::RollBack(o);
        }
        return EvolutionAction::Promote(o);
    }
    let e = find_first(variants, 1);
    if e < variants.len() {
        return EvolutionAction::Eliminate(e);
    }
    let w = find_first(variants, 2);
    if w < variants.len() {
        return EvolutionAction::Rewrite(w);
    }
    EvolutionAction::Nothing
}

/// A regression decides before any rewrite: when no observing variant regressed or was used,
/// and some settled variant that is not hand-edited has an accumulated delta of at most -3,
/// the action eliminates a settled, not hand-edited, regressed variant (delta at most -3, or
/// negative after at least 10 uses), the first such one; it is never a rewrite. (The pool is
/// a list in memory, so its length fits a `usize`.)
pub proof fn law_deep_regression_eliminated(vs: Seq<VariantFacts>, d: int)
    requires
        vs.len() <= usize::MAX,
        forall|j: int| 0 <= j < vs.len() ==> !((#[trigger] vs[j]).observing && (vs[j].negative || vs[j].use_count >= 1)),
        0 <= d < vs.len(),
        !vs[d].observing,
        !vs[d].manual_edited,
        vs[d].deeply_negative,
    ensures
        evolution_spec(vs) matches EvolutionAction::Eliminate(k) && {
            &&& k <= d
            &&& !vs[k as int].observing
            &&& !vs[k as int].manual_edited
            &&& (vs[k as int].deeply_negative || (vs[k as int].use_count >= 10 && vs[k as int].negative))
            &&& forall|j: int| 0 <= j < k ==> !(!(#[trigger] vs[j]).observing && !vs[j].manual_edited
                && (vs[j].deeply_negative || (vs[j].use_count >= 10 && vs[j].negative)))
        },
{
    let po = |v: VariantFacts| observing_decides(v);
    let pe = |v: VariantFacts| eliminated(v);
    lemma_first_where(vs, po);
    lemma_first_where(vs, pe);
    let o = first_where(vs, po);
    if o < vs.len() {
        assert(po(vs[o]));
        assert(!(vs[o].observing && (vs[o].negative || vs[o].use_count >= 1)));
    }
    assert(o == vs.len());
    assert(pe(vs[d]));
    let e = first_where(vs, pe);
    assert(e <= d);
    assert(pe(vs[e]));
    assert forall|j: int| 0 <= j < e implies !(!(#[trigger] vs[j]).observing && !vs[j].manual_edited
        && (vs[j].deeply_negative || (vs[j].use_count >= 10 && vs[j].negative))) by {
        assert(!pe(vs[j]));
    }
    assert(evolution_spec(vs) == EvolutionAction::Eliminate(e as usize));
}

/// What each action requires of the variant it names, and of the pool:
/// - a rollback names an observing variant with a negative delta, a promotion an observing
///   variant with no negative delta that was used at least once;
/// - an elimination names a settled, not hand-edited variant with a delta of at most -3 or a
///   negative delta after at least 10 uses, and is only chosen when no observing variant
///   was used or regressed;
/// - a rewrite names a settled, not hand-edited variant used at least 3 times with a delta of
///   at least 2 in magnitude, and is only chosen when nothing is to be rolled back,
///   promoted or eliminated;
/// - nothing is done only when no variant meets any of these.
pub proof fn law_evolution_action_fits(vs: Seq<VariantFacts>)
    requires
        vs.len() <= usize::MAX,
    ensures
        match evolution_spec(vs) {
            EvolutionAction::RollBack(k) => k < vs.len() && vs[k as int].observing && vs[k as int].negative,
            EvolutionAction::Promote(k) => k < vs.len() && vs[k as int].observing && !vs[k as int].negative
                && vs[k as int].use_count >= 1,
            EvolutionAction::Eliminate(k) => k < vs.len() && !vs[k as int].observing && !vs[k as int].manual_edited
                && (vs[k as int].deeply_negative || (vs[k as int].use_count >= 10 && vs[k as int].negative))
                && forall|j: int| 0 <= j < vs.len() ==> !((#[trigger] vs[j]).observing && (vs[j].negative || vs[j].use_count >= 1)),
            EvolutionAction::Rewrite(k) => k < vs.len() && !vs[k as int].observing && !vs[k as int].manual_edited
                && vs[k as int].use_count >= 3 && vs[k as int].strong_signal
                && forall|j: int| 0 <= j < vs.len() ==> {
                    &&& !((#[trigger] vs[j]).observing && (vs[j].negative || vs[j].use_count >= 1))
                    &&& !(!vs[j].observing && !vs[j].manual_edited && (vs[j].deeply_negative || (vs[j].use_count >= 10 && vs[j].negative)))
                },
            EvolutionAction::Nothing => forall|j: int| 0 <= j < vs.len() ==> {
                &&& !((#[trigger] vs[j]).observing && (vs[j].negative || vs[j].use_count >= 1))
                &&& !(!vs[j].observing && !vs[j].manual_edited && (vs[j].deeply_negative || (vs[j].use_count >= 10 && vs[j].negative)))
                &&& !(!vs[j].observing && !vs[j].manual_edited && vs[j].use_count >= 3 && vs[j].strong_signal)
            },
        },
{
    let po = |v: VariantFacts| observing_decides(v);
    let pe = |v: VariantFacts| eliminated(v);
    let pw = |v: VariantFacts| rewritten(v);
    lemma_first_where(vs, po);
    lemma_first_where(vs, pe);
    lemma_first_where(vs, pw);
    let o = first_where(vs, po);
    let e = first_where(vs, pe);
    let w = first_where(vs, pw);
    if o < vs.len() {
        assert(po(vs[o]));
    } else {
        assert forall|j: int| 0 <= j < vs.len() implies !((#[trigger] vs[j]).observing && (vs[j].negative || vs[j].use_count >= 1)) by {
            assert(!po(vs[j]));
        }
        if e < vs.len() {
            assert(pe(vs[e]));
        } else {
            assert forall|j: int| 0 <= j < vs.len() implies !(!(#[trigger] vs[j]).observing && !vs[j].manual_edited
                && (vs[j].deeply_negative || (vs[j].use_count >= 10 && vs[j].negative))) by {
                assert(!pe(vs[j]));
            }
            if w < vs.len() {
                assert(pw(vs[w]));
            } else {
                assert forall|j: int| 0 <= j < vs.len() implies !(!(#[trigger] vs[j]).observing && !vs[j].manual_edited
                    && vs[j].use_count >= 3 && vs[j].strong_signal) by {
                    assert(!pw(vs[j]));
                }
            }
        }
    }
}

/// How a rollback ends: with an archived version the variant gets its content back and
/// becomes active; without one it is demoted to observing (leaving the active pool).
#[derive(Debug, Clone, Copy, PartialEq, Eq, Structural)]
pub enum RollbackOutcome {
    RestoreAndActivate,
    DemoteToObserving,
}

/// The outcome of a rollback given whether the variant has an archived version.
pub fn rollback_outcome(has_archived_version: bool) -> (r: RollbackOutcome)
    ensures
        has_archived_version ==> r == RollbackOutcome::RestoreAndActivate,
        !has_archived_version ==> r == RollbackOutcome::DemoteToObserving,
{
    if has_archived_version {
        RollbackOutcome::RestoreAndActivate
    } else {
        RollbackOutcome::DemoteToObserving
    }
}

} // verus!
