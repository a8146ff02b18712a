//! Per-session round serialisation: at most one round runs in a session at a time.
//!
//! - A **user** round always runs: it preempts (cancels) the session's running round, if any,
//!   and receives that round's token so it can wait for its convergence before reading the
//!   message snapshot.
//! - A **non-user** round (poller, manual step, agent loop) is skipped while the session is busy.
//! - Ending a round only clears the session when it is still that round's registration, so a
//!   preempted round that finishes late never releases the round that replaced it.
//!
//! Rounds are identified by tokens handed out in increasing order; cancellation and
//! convergence are recorded per token. The running program attaches its cancellation and
//! wake-up primitives to these tokens.

use vstd::prelude::*;

use crate::round_types::RoundTriggerKind;
use crate::text::{owned, str_eq};

verus! {

/// Registration of the running round of one session.
#[derive(Debug, Clone)]
struct ActiveEntry {
    session_id: String,
    token: u64,
}

/// Session coordinator: `session_id → token of the running round`, plus the tokens that
/// were cancelled and the rounds that converged.
#[derive(Debug)]
pub struct SessionCoordinator {
    active: Vec<ActiveEntry>,
    cancelled: Vec<u64>,
    converged: Vec<u64>,
    next_token: u64,
}

/// The registration of one running round (what a round holds while it runs).
#[derive(Debug)]
pub struct ActiveRound {
    session_id: String,
    token: u64,
    preempt_wait: Option<u64>,
}

impl SessionCoordinator {
    /// Session ids are unique among the registrations, and every token recorded is below
    /// the next one.
    pub closed spec fn wf(self) -> bool {
        &&& forall|i: int, j: int|
            0 <= i < j < self.active@.len() ==> (#[trigger] self.active@[i]).session_id@
                != (#[trigger] self.active@[j]).session_id@
        &&& forall|i: int| 0 <= i < self.active@.len() ==> (#[trigger] self.active@[i]).token
            < self.next_token
        &&& forall|i: int| 0 <= i < self.cancelled@.len() ==> #[trigger] self.cancelled@[i]
            < self.next_token
        &&& forall|i: int| 0 <= i < self.converged@.len() ==> #[trigger] self.converged@[i]
            < self.next_token
    }

    /// Token of the round running in `session_id`, if any.
    pub closed spec fn token_of(self, session_id: Seq<char>) -> Option<u64> {
        if exists|i: int|
            0 <= i < self.active@.len() && (#[trigger] self.active@[i]).session_id@ == session_id {
            Some(
                self.active@[choose|i: int|
                    0 <= i < self.active@.len() && (#[trigger] self.active@[i]).session_id@
                        == session_id].token,
            )
        } else {
            None
        }
    }

    /// Whether the round with `token` was cancelled.
    pub closed spec fn spec_cancelled(self, token: u64) -> bool {
        self.cancelled@.contains(token)
    }

    /// Whether the round with `token` signalled convergence (its output is persisted).
    pub closed spec fn spec_converged(self, token: u64) -> bool {
        self.converged@.contains(token)
    }

    /// The token the next started round receives; every token handed out so far is lower.
    pub closed spec fn spec_next_token(self) -> u64 {
        self.next_token
    }

    /// Every round registered, cancelled or converged so far holds a token below the next one.
    pub closed spec fn tokens_below_next(self) -> bool {
        &&& forall|s: Seq<char>| #[trigger] self.token_of(s) is Some ==> self.token_of(s).unwrap()
            < self.next_token
        &&& forall|t: u64| #[trigger] self.spec_cancelled(t) ==> t < self.next_token
        &&& forall|t: u64| #[trigger] self.spec_converged(t) ==> t < self.next_token
    }

    proof fn lemma_token_of(self, session_id: Seq<char>, i: int)
        requires
            self.wf(),
            0 <= i < self.active@.len(),
            self.active@[i].session_id@ == session_id,
        ensures
            self.token_of(session_id) == Some(self.active@[i].token),
    {
        let k = choose|k: int|
            0 <= k < self.active@.len() && (#[trigger] self.active@[k]).session_id@ == session_id;
        assert(0 <= k < self.active@.len() && self.active@[k].session_id@ == session_id);
        if k != i {
            if k < i {
                assert(self.active@[k].session_id@ != self.active@[i].session_id@);
            } else {
                assert(self.active@[i].session_id@ != self.active@[k].session_id@);
            }
        }
    }

    proof fn lemma_tokens_below_next(self)
        requires
            self.wf(),
        ensures
            self.tokens_below_next(),
    {
        assert forall|s: Seq<char>| #[trigger] self.token_of(s) is Some implies self.token_of(
            s,
        ).unwrap() < self.next_token by {
            let k = choose|k: int|
                0 <= k < self.active@.len() && (#[trigger] self.active@[k]).session_id@ == s;
            assert(self.active@[k].token < self.next_token);
        }
        assert forall|t: u64| #[trigger] self.spec_cancelled(t) implies t < self.next_token by {
            let k = choose|k: int| 0 <= k < self.cancelled@.len() && self.cancelled@[k] == t;
            assert(self.cancelled@[k] < self.next_token);
        }
        assert forall|t: u64| #[trigger] self.spec_converged(t) implies t < self.next_token by {
            let k = choose|k: int| 0 <= k < self.converged@.len() && self.converged@[k] == t;
            assert(self.converged@[k] < self.next_token);
        }
    }

    /// An idle coordinator: no session busy, nothing cancelled or converged.
    pub fn new() -> (r: SessionCoordinator)
        ensures
            r.wf(),
            forall|s: Seq<char>| #[trigger] r.token_of(s) == None::<u64>,
            forall|t: u64| !(#[trigger] r.spec_cancelled(t)),
            forall|t: u64| !(#[trigger] r.spec_converged(t)),
            r.spec_next_token() == 0,
    {
        SessionCoordinator {
            active: Vec::new(),
            cancelled: Vec::new(),
            converged: Vec::new(),
            next_token: 0,
        }
    }

    /// Whether another round can get a fresh token (tokens are never reused).
    pub fn has_fresh_token(&self) -> (r: bool)
        ensures
            r == (self.spec_next_token() < u64::MAX),
    {
        self.next_token < u64::MAX
    }

    fn find(&self, session_id: &str) -> (r: Option<usize>)
        requires
            self.wf(),
        ensures
            match r {
                Some(i) => i < self.active@.len() && self.active@[i as int].session_id@
                    == session_id@,
                None => forall|i: int|
                    0 <= i < self.active@.len() ==> (#[trigger] self.active@[i]).session_id@
                        != session_id@,
            },
    {
        let n = self.active.len();
        let mut i: usize = 0;
        while i < n
            invariant
                n == self.active@.len(),
                i <= n,
                forall|j: int|
                    0 <= j < i ==> (#[trigger] self.active@[j]).session_id@ != session_id@,
            decreases n - i,
        {
            if str_eq(self.active[i].session_id.as_str(), session_id) {
                return Some(i);
            }
            i += 1;
        }
        None
    }

    /// Token of the round running in `session_id`, if any.
    pub fn active_token(&self, session_id: &str) -> (r: Option<u64>)
        requires
            self.wf(),
        ensures
            r == self.token_of(session_id@),
    {
        match self.find(session_id) {
            Some(i) => {
                proof {
                    self.lemma_token_of(session_id@, i as int);
                }
                Some(self.active[i].token)
            },
            None => None,
        }
    }

    /// Whether the round with `token` was cancelled.
    pub fn is_cancelled(&self, token: u64) -> (r: bool)
        ensures
            r == self.spec_cancelled(token),
    {
        let n = self.cancelled.len();
        let mut i: usize = 0;
        while i < n
            invariant
                n == self.cancelled@.len(),
                i <= n,
                forall|j: int| 0 <= j < i ==> self.cancelled@[j] != token,
            decreases n - i,
        {
            if self.cancelled[i] == token {
                return true;
            }
            i += 1;
        }
        false
    }

    /// Whether the round with `token` signalled convergence.
    pub fn has_converged(&self, token: u64) -> (r: bool)
        ensures
            r == self.spec_converged(token),
    {
        let n = self.converged.len();
        let mut i: usize = 0;
        while i < n
            invariant
                n == self.converged@.len(),
                i <= n,
                forall|j: int| 0 <= j < i ==> self.converged@[j] != token,
            decreases n - i,
        {
            if self.converged[i] == token {
                return true;
            }
            i += 1;
        }
        false
    }

    /// Registers the start of a round in `session_id`.
    ///
    /// - Session idle: the round runs (`Some`), with nothing to wait for.
    /// - Session busy and `trigger` is `User`: the running round is cancelled and the new
    ///   round runs, carrying the cancelled round's token to wait on.
    /// - Session busy and `trigger` is not `User`: the round is skipped (`None`) and nothing
    ///   changes.
    ///
    /// Other sessions are never touched; the new round's token is fresh, so it is neither
    /// cancelled nor converged.
    pub fn begin(&mut self, session_id: &str, trigger: RoundTriggerKind) -> (r: Option<
        ActiveRound,
    >)
        requires
            old(self).wf(),
            old(self).spec_next_token() < u64::MAX,
        ensures
            final(self).wf(),
            match old(self).token_of(session_id@) {
                Some(running) => if trigger == RoundTriggerKind::User {
                    &&& r matches Some(round) && round.spec_session_id() == session_id@
                        && round.spec_token() == old(self).spec_next_token()
                        && round.spec_preempt_wait() == Some(running)
                    &&& forall|t: u64| #[trigger] final(self).spec_cancelled(t)
                        == (old(self).spec_cancelled(t) || t == running)
                } else {
                    &&& r is None
                    &&& final(self).spec_next_token() == old(self).spec_next_token()
                    &&& forall|t: u64| #[trigger] final(self).spec_cancelled(t)
                        == old(self).spec_cancelled(t)
                },
                None => {
                    &&& r matches Some(round) && round.spec_session_id() == session_id@
                        && round.spec_token() == old(self).spec_next_token()
                        && round.spec_preempt_wait() == None::<u64>
                    &&& forall|t: u64| #[trigger] final(self).spec_cancelled(t)
                        == old(self).spec_cancelled(t)
                },
            },
            r is Some ==> final(self).token_of(session_id@) == Some(old(self).spec_next_token())
                && final(self).spec_next_token() == old(self).spec_next_token() + 1,
            r is None ==> final(self).token_of(session_id@) == old(self).token_of(session_id@),
            forall|s: Seq<char>|
                s != session_id@ ==> #[trigger] final(self).token_of(s) == old(self).token_of(s),
            forall|t: u64| #[trigger] final(self).spec_converged(t) == old(self).spec_converged(t),
            !final(self).spec_cancelled(old(self).spec_next_token()),
            !final(self).spec_converged(old(self).spec_next_token()),
            final(self).tokens_below_next(),
    {
        let token = self.next_token;
        let found = self.find(session_id);
        let ghost old_active = self.active@;
        let ghost old_self = *self;
        let mut preempt_wait: Option<u64> = None;
        match found {
            Some(i) => {
                proof {
                    self.lemma_token_of(session_id@, i as int);
                }
                if trigger != RoundTriggerKind::User {
                    proof {
                        self.lemma_tokens_below_next();
                    }
                    return None;
                }
                let running = self.active[i].token;
                self.cancelled.push(running);
                preempt_wait = Some(running);
                self.next_token = token + 1;
                self.active.set(i, ActiveEntry { session_id: owned(session_id), token });
            },
            None => {
                self.next_token = token + 1;
                self.active.push(ActiveEntry { session_id: owned(session_id), token });
            },
        }
        proof {
            let new_self = *self;
            assert(forall|j: int|
                0 <= j < new_self.active@.len() ==> (#[trigger] new_self.active@[j]).session_id@
                    == if j < old_active.len() && old_active[j].session_id@ != session_id@ {
                    old_active[j].session_id@
                } else {
                    session_id@
                });
            let idx: int = match found {
                Some(i) => i as int,
                None => old_active.len() as int,
            };
            assert(new_self.active@[idx].session_id@ == session_id@);
            assert(new_self.wf());
            new_self.lemma_token_of(session_id@, idx);
            assert forall|s: Seq<char>| s != session_id@ implies #[trigger] new_self.token_of(s)
                == old_self.token_of(s) by {
                if exists|k: int|
                    0 <= k < old_active.len() && (#[trigger] old_active[k]).session_id@ == s {
                    let k = choose|k: int|
                        0 <= k < old_active.len() && (#[trigger] old_active[k]).session_id@ == s;
                    old_self.lemma_token_of(s, k);
                    assert(new_self.active@[k] == old_active[k]);
                    new_self.lemma_token_of(s, k);
                } else {
                    assert forall|k: int| 0 <= k < new_self.active@.len() implies (
                    #[trigger] new_self.active@[k]).session_id@ != s by {
                        if k < old_active.len() && old_active[k].session_id@ != session_id@ {
                            assert(new_self.active@[k] == old_active[k]);
                        }
                    }
                }
            }
            assert forall|t: u64| #[trigger] new_self.spec_cancelled(t) == (
            old_self.spec_cancelled(t) || (found is Some && t == old_active[idx].token)) by {
                if found is Some {
                    assert(new_self.cancelled@ == old_self.cancelled@.push(old_active[idx].token));
                    if new_self.cancelled@.contains(t) {
                        let k = choose|k: int|
                            0 <= k < new_self.cancelled@.len() && new_self.cancelled@[k] == t;
                        if k < old_self.cancelled@.len() {
                            assert(old_self.cancelled@[k] == t);
                        }
                    }
                    if old_self.cancelled@.contains(t) {
                        let k = choose|k: int|
                            0 <= k < old_self.cancelled@.len() && old_self.cancelled@[k] == t;
                        assert(new_self.cancelled@[k] == t);
                    }
                    if t == old_active[idx].token {
                        assert(new_self.cancelled@[old_self.cancelled@.len() as int] == t);
                    }
                }
            }
            old_self.lemma_tokens_below_next();
            new_self.lemma_tokens_below_next();
        }
        Some(ActiveRound { session_id: owned(session_id), token, preempt_wait })
    }

    /// Ends the round with `token` in `session_id`: the session is cleared (and the round
    /// marked converged) only when `token` is still its registration; otherwise nothing changes.
    pub fn end(&mut self, session_id: &str, token: u64)
        requires
            old(self).wf(),
        ensures
            final(self).wf(),
            old(self).token_of(session_id@) == Some(token) ==> final(self).token_of(session_id@)
                == None::<u64> && forall|t: u64| #[trigger] final(self).spec_converged(t) == (
            old(self).spec_converged(t) || t == token),
            old(self).token_of(session_id@) != Some(token) ==> final(self).token_of(session_id@)
                == old(self).token_of(session_id@) && forall|t: u64| #[trigger] final(self).spec_converged(t) == old(self).spec_converged(t),
            forall|s: Seq<char>|
                s != session_id@ ==> #[trigger] final(self).token_of(s) == old(self).token_of(s),
            forall|t: u64| #[trigger] final(self).spec_cancelled(t) == old(self).spec_cancelled(t),
            final(self).spec_next_token() == old(self).spec_next_token(),
    {
        let found = self.find(session_id);
        match found {
            Some(i) => {
                proof {
                    self.lemma_token_of(session_id@, i as int);
                }
                if self.active[i].token == token {
                    let ghost old_self = *self;
                    self.active.remove(i);
                    self.mark_converged(token);
                    proof {
                        let new_self = *self;
                        assert forall|k: int| 0 <= k < new_self.active@.len() implies (
                        #[trigger] new_self.active@[k]).session_id@ != session_id@ by {
                            if k < i {
                                assert(new_self.active@[k] == old_self.active@[k]);
                            } else {
                                assert(new_self.active@[k] == old_self.active@[k + 1]);
                            }
                        }
                        assert forall|s: Seq<char>| s != session_id@ implies #[trigger] new_self.token_of(s)
                            == old_self.token_of(s) by {
                            if exists|k: int|
                                0 <= k < old_self.active@.len()
                                    && (#[trigger] old_self.active@[k]).session_id@ == s {
                                let k = choose|k: int|
                                    0 <= k < old_self.active@.len()
                                        && (#[trigger] old_self.active@[k]).session_id@ == s;
                                old_self.lemma_token_of(s, k);
                                if k < i {
                                    assert(new_self.active@[k] == old_self.active@[k]);
                                    new_self.lemma_token_of(s, k);
                                } else {
                                    assert(k != i);
                                    assert(new_self.active@[k - 1] == old_self.active@[k]);
                                    new_self.lemma_token_of(s, k - 1);
                                }
                            } else {
                                assert forall|k: int| 0 <= k < new_self.active@.len() implies (
                                #[trigger] new_self.active@[k]).session_id@ != s by {
                                    if k < i {
                                        assert(new_self.active@[k] == old_self.active@[k]);
                                    } else {
                                        assert(new_self.active@[k] == old_self.active@[k + 1]);
                                    }
                                }
                            }
                        }
                    }
                }
            },
            None => {},
        }
    }

    fn mark_converged(&mut self, token: u64)
        requires
            old(self).wf(),
            token < old(self).next_token,
        ensures
            final(self).wf(),
            final(self).active@ == old(self).active@,
            final(self).cancelled@ == old(self).cancelled@,
            final(self).next_token == old(self).next_token,
            forall|t: u64| #[trigger] final(self).spec_converged(t) == (old(self).spec_converged(t)
                || t == token),
    {
        if self.has_converged(token) {
            return;
        }
        let ghost before = self.converged@;
        self.converged.push(token);
        proof {
            assert forall|t: u64| #[trigger] self.spec_converged(t) == (before.contains(t)
                || t == token) by {
                if self.converged@.contains(t) {
                    let k = choose|k: int| 0 <= k < self.converged@.len() && self.converged@[k] == t;
                    if k < before.len() {
                        assert(before[k] == t);
                    }
                }
                if before.contains(t) {
                    let k = choose|k: int| 0 <= k < before.len() && before[k] == t;
                    assert(self.converged@[k] == t);
                }
                if t == token {
                    assert(self.converged@[before.len() as int] == t);
                }
            }
        }
    }

    /// Forgets what is recorded of the round with `token`: its cancellation and its
    /// convergence. A preempting round calls it once it has seen the round it preempted
    /// converge, so that nothing is kept of rounds that are over.
    pub fn release(&mut self, token: u64)
        requires
            old(self).wf(),
        ensures
            final(self).wf(),
            forall|t: u64| #[trigger] final(self).spec_converged(t) == (old(self).spec_converged(t) && t != token),
            forall|t: u64| #[trigger] final(self).spec_cancelled(t) == (old(self).spec_cancelled(t) && t != token),
            forall|s: Seq<char>| #[trigger] final(self).token_of(s) == old(self).token_of(s),
            final(self).spec_next_token() == old(self).spec_next_token(),
    {
        let ghost old_self = *self;
        drop_token(&mut self.converged, token);
        drop_token(&mut self.cancelled, token);
        proof {
            assert(self.active@ == old_self.active@);
            assert forall|s: Seq<char>| #[trigger] self.token_of(s) == old_self.token_of(s) by {}
            assert forall|i: int| 0 <= i < self.cancelled@.len() implies #[trigger] self.cancelled@[i] < self.next_token by {
                assert(old_self.cancelled@.contains(self.cancelled@[i]));
            }
            assert forall|i: int| 0 <= i < self.converged@.len() implies #[trigger] self.converged@[i] < self.next_token by {
                assert(old_self.converged@.contains(self.converged@[i]));
            }
        }
    }

    fn drop_cancelled(&mut self, token: u64)
        requires
            old(self).wf(),
        ensures
            final(self).wf(),
            final(self).active@ == old(self).active@,
            final(self).converged@ == old(self).converged@,
            final(self).next_token == old(self).next_token,
            forall|t: u64| #[trigger] final(self).spec_cancelled(t) == (old(self).spec_cancelled(t) && t != token),
    {
        let ghost old_self = *self;
        drop_token(&mut self.cancelled, token);
        proof {
            assert forall|i: int| 0 <= i < self.cancelled@.len() implies #[trigger] self.cancelled@[i] < self.next_token by {
                assert(old_self.cancelled@.contains(self.cancelled@[i]));
            }
        }
    }

    /// External interrupt (the stop button): cancels the round running in `session_id`.
    /// Returns whether there was one; with none it is a no-op.
    pub fn cancel_active(&mut self, session_id: &str) -> (r: bool)
        requires
            old(self).wf(),
        ensures
            final(self).wf(),
            r == old(self).token_of(session_id@) is Some,
            forall|t: u64| #[trigger] final(self).spec_cancelled(t) == (old(self).spec_cancelled(t)
                || old(self).token_of(session_id@) == Some(t)),
            forall|s: Seq<char>| #[trigger] final(self).token_of(s) == old(self).token_of(s),
            forall|t: u64| #[trigger] final(self).spec_converged(t) == old(self).spec_converged(t),
            final(self).spec_next_token() == old(self).spec_next_token(),
    {
        match self.find(session_id) {
            Some(i) => {
                proof {
                    self.lemma_token_of(session_id@, i as int);
                }
                let running = self.active[i].token;
                let ghost before = self.cancelled@;
                let ghost old_self = *self;
                self.cancelled.push(running);
                proof {
                    assert(self.active@ == old_self.active@);
                    assert forall|s: Seq<char>| #[trigger] self.token_of(s) == old_self.token_of(
                        s,
                    ) by {}
                    assert forall|t: u64| #[trigger] self.spec_cancelled(t) == (before.contains(t)
                        || t == running) by {
                        if self.cancelled@.contains(t) {
                            let k = choose|k: int|
                                0 <= k < self.cancelled@.len() && self.cancelled@[k] == t;
                            if k < before.len() {
                                assert(before[k] == t);
                            }
                        }
                        if before.contains(t) {
                            let k = choose|k: int| 0 <= k < before.len() && before[k] == t;
                            assert(self.cancelled@[k] == t);
                        }
                        if t == running {
                            assert(self.cancelled@[before.len() as int] == t);
                        }
                    }
                }
                true
            },
            None => false,
        }
    }
}

/// Removes every occurrence of `token` from `v`.
fn drop_token(v: &mut Vec<u64>, token: u64)
    ensures
        forall|t: u64| #[trigger] final(v)@.contains(t) == (old(v)@.contains(t) && t != token),
        forall|i: int| 0 <= i < final(v)@.len() ==> old(v)@.contains(#[trigger] final(v)@[i]),
{
    let mut kept: Vec<u64> = Vec::new();
    let n = v.len();
    let mut i: usize = 0;
    while i < n
        invariant
            n == v@.len(),
            i <= n,
            forall|t: u64| #[trigger] kept@.contains(t) == (v@.take(i as int).contains(t) && t != token),
            forall|k: int| 0 <= k < kept@.len() ==> v@.contains(#[trigger] kept@[k]),
        decreases n - i,
    {
        let x = v[i];
        let ghost before = kept@;
        if x != token {
            kept.push(x);
        }
        proof {
            let pre = v@.take(i as int);
            let post = v@.take(i + 1);
            assert(post =~= pre.push(x));
            assert forall|t: u64| #[trigger] kept@.contains(t) == (post.contains(t) && t != token) by {
                if kept@.contains(t) {
                    let k = choose|k: int| 0 <= k < kept@.len() && kept@[k] == t;
                    if k < before.len() {
                        assert(before.contains(t));
                        let j = choose|j: int| 0 <= j < pre.len() && pre[j] == t;
                        assert(post[j] == t);
                    } else {
                        assert(post[i as int] == t);
                    }
                }
                if post.contains(t) && t != token {
                    let j = choose|j: int| 0 <= j < post.len() && post[j] == t;
                    if j < i {
                        assert(pre[j] == t);
                        assert(before.contains(t));
                        let k = choose|k: int| 0 <= k < before.len() && before[k] == t;
                        assert(kept@[k] == t);
                    } else {
                        assert(kept@[kept@.len() - 1] == t);
                    }
                }
            }
            assert forall|k: int| 0 <= k < kept@.len() implies v@.contains(#[trigger] kept@[k]) by {
                if k == before.len() && x != token {
                    assert(v@[i as int] == kept@[k]);
                }
            }
        }
        i += 1;
    }
    assert(v@.take(n as int) =~= v@);
    *v = kept;
}

impl ActiveRound {
    /// Session the round runs in.
    pub closed spec fn spec_session_id(self) -> Seq<char> {
        self.session_id@
    }

    /// The round's token.
    pub closed spec fn spec_token(self) -> u64 {
        self.token
    }

    /// Token of the round this one preempted and still has to wait for, if any.
    pub closed spec fn spec_preempt_wait(self) -> Option<u64> {
        self.preempt_wait
    }

    /// Whether this round was cancelled (preempted or interrupted).
    pub fn cancelled(&self, coordinator: &SessionCoordinator) -> (r: bool)
        ensures
            r == coordinator.spec_cancelled(self.spec_token()),
    {
        coordinator.is_cancelled(self.token)
    }

    /// Takes the token of the preempted round to wait on; a second call gives `None`.
    pub fn take_preempt_wait(&mut self) -> (r: Option<u64>)
        ensures
            r == old(self).spec_preempt_wait(),
            final(self).spec_preempt_wait() == None::<u64>,
            final(self).spec_token() == old(self).spec_token(),
            final(self).spec_session_id() == old(self).spec_session_id(),
    {
        self.preempt_wait.take()
    }

    /// The round's token.
    pub fn token(&self) -> (r: u64)
        ensures
            r == self.spec_token(),
    {
        self.token
    }

    /// Signals that this round converged (its output is persisted); repeating it is harmless.
    pub fn notify_converged(&self, coordinator: &mut SessionCoordinator)
        requires
            old(coordinator).wf(),
            self.spec_token() < old(coordinator).spec_next_token(),
        ensures
            final(coordinator).wf(),
            forall|t: u64| #[trigger] final(coordinator).spec_converged(t) == (old(coordinator).spec_converged(t) || t == self.spec_token()),
            forall|s: Seq<char>| #[trigger] final(coordinator).token_of(s) == old(coordinator).token_of(s),
            forall|t: u64| #[trigger] final(coordinator).spec_cancelled(t) == old(coordinator).spec_cancelled(t),
            final(coordinator).spec_next_token() == old(coordinator).spec_next_token(),
    {
        coordinator.mark_converged(self.token);
    }

    /// Finishes the round, whatever path it ends on. When the round is still its session's
    /// registration, the session is released and nothing is kept of the round (nobody waits
    /// for it). When another round replaced it, the round is marked converged for that round
    /// to see (it forgets it with [`SessionCoordinator::release`]) and its cancellation is
    /// forgotten.
    pub fn finish(self, coordinator: &mut SessionCoordinator)
        requires
            old(coordinator).wf(),
            self.spec_token() < old(coordinator).spec_next_token(),
        ensures
            final(coordinator).wf(),
            old(coordinator).token_of(self.spec_session_id()) == Some(self.spec_token()) ==> {
                &&& final(coordinator).token_of(self.spec_session_id()) == None::<u64>
                &&& forall|t: u64| #[trigger] final(coordinator).spec_converged(t) == (old(coordinator).spec_converged(t) && t != self.spec_token())
            },
            old(coordinator).token_of(self.spec_session_id()) != Some(self.spec_token()) ==> {
                &&& final(coordinator).token_of(self.spec_session_id()) == old(coordinator).token_of(self.spec_session_id())
                &&& forall|t: u64| #[trigger] final(coordinator).spec_converged(t) == (old(coordinator).spec_converged(t) || t == self.spec_token())
            },
            forall|s: Seq<char>|
                s != self.spec_session_id() ==> #[trigger] final(coordinator).token_of(s) == old(coordinator).token_of(s),
            forall|t: u64| #[trigger] final(coordinator).spec_cancelled(t) == (old(coordinator).spec_cancelled(t) && t != self.spec_token()),
            final(coordinator).spec_next_token() == old(coordinator).spec_next_token(),
    {
        let own = match coordinator.active_token(self.session_id.as_str()) {
            Some(t) => t == self.token,
            None => false,
        };
        if own {
            coordinator.end(self.session_id.as_str(), self.token);
            coordinator.release(self.token);
        } else {
            coordinator.end(self.session_id.as_str(), self.token);
            let ghost c0 = *coordinator;
            coordinator.mark_converged(self.token);
            let ghost c1 = *coordinator;
            coordinator.drop_cancelled(self.token);
            proof {
                assert forall|s: Seq<char>| #[trigger] coordinator.token_of(s) == c0.token_of(s) by {
                    assert(coordinator.active@ == c0.active@);
                }
                assert forall|t: u64| #[trigger] coordinator.spec_cancelled(t) == (old(coordinator).spec_cancelled(t) && t != self.token) by {
                    assert(c1.spec_cancelled(t) == c0.spec_cancelled(t));
                    assert(c0.spec_cancelled(t) == old(coordinator).spec_cancelled(t));
                }
                assert forall|t: u64| #[trigger] coordinator.spec_converged(t) == (old(coordinator).spec_converged(t) || t == self.token) by {
                    assert(coordinator.converged@ == c1.converged@);
                    assert(c1.spec_converged(t) == (c0.spec_converged(t) || t == self.token));
                    assert(c0.spec_converged(t) == old(coordinator).spec_converged(t));
                }
            }
        }
    }
}

} // verus!
