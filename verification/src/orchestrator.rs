//! Credential selection and fallback for one target domain.
//!
//! Candidates are chosen once: when any credential's declared domain scope
//! covers the target, exactly the covering credentials are tried, in their
//! configured order; otherwise every credential is. The attempts then run
//! strictly in order: a domain-not-found outcome moves on to the next
//! candidate, the first success ends the run carrying the credential's
//! sandbox flag, and any other failure — including a session-close failure
//! when nothing worse happened first — ends the run immediately. Exhausting
//! every candidate is itself a domain-not-found failure.

use vstd::prelude::*;
use vstd::string::StrSliceExecFns;
use crate::config::Account;
use crate::inwx::{zone_suffix_match, InwxError};
use crate::text::{str_ends_with, str_eq};

verus! {

/// How a whole orchestrated run can fail: nothing was configured at all, or
/// an attempt (or its session cleanup) failed hard.
#[derive(Debug)]
pub enum OrchestrationError {
    NoAccounts,
    Operation(InwxError),
}

/// What one candidate's attempt came to: the session never opened, or the
/// operation and the unconditional session close each ended somehow.
#[derive(Debug)]
pub enum AttemptOutcome {
    LoginFailed(InwxError),
    Completed { op: Result<(), InwxError>, close: Result<(), InwxError> },
}

/// What the run does after one attempt: stop successfully with the
/// candidate's sandbox flag, stop with a hard error, or try the next
/// candidate.
#[derive(Debug)]
pub enum StepOutcome {
    Done(bool),
    Fail(OrchestrationError),
    Continue,
}

/// The credential's declared scope covers the domain: some declared suffix
/// equals it or is a proper dot-suffix of it.
pub open spec fn scope_matches(acc: Account, d: Seq<char>) -> bool {
    exists|k: int|
        0 <= k < acc.domains@.len() && (acc.domains@[k]@ == d || zone_suffix_match(
            d,
            acc.domains@[k]@,
        ))
}

/// Does the credential's declared scope cover the domain?
pub fn account_matches(acc: &Account, domain: &str) -> (b: bool)
    ensures
        b == scope_matches(*acc, domain@),
{
    let d_len = domain.unicode_len();
    let n = acc.domains.len();
    let mut k: usize = 0;
    while k < n
        invariant
            k <= n,
            n == acc.domains@.len(),
            d_len == domain@.len(),
            forall|l: int|
                0 <= l < k ==> !(acc.domains@[l]@ == domain@ || zone_suffix_match(
                    domain@,
                    acc.domains@[l]@,
                )),
        decreases n - k,
    {
        let s = &acc.domains[k];
        if str_eq(domain, s.as_str()) {
            return true;
        }
        let s_len = s.as_str().unicode_len();
        if d_len > s_len && str_ends_with(domain, s.as_str()) && domain.get_char(
            d_len - s_len - 1,
        ) == '.' {
            assert(zone_suffix_match(domain@, acc.domains@[k as int]@));
            return true;
        }
        assert(!zone_suffix_match(domain@, acc.domains@[k as int]@));
        k = k + 1;
    }
    false
}

/// The candidate list is right for the configured credentials and the
/// domain: when any credential's scope covers the domain, the candidates
/// are exactly the covering credentials' positions, in increasing order;
/// otherwise they are every position, in order.
pub open spec fn candidate_set_ok(accounts: Seq<Account>, d: Seq<char>, cands: Seq<usize>) -> bool {
    if exists|i: int| 0 <= i < accounts.len() && scope_matches(accounts[i], d) {
        &&& forall|p: int|
            0 <= p < cands.len() ==> (cands[p] as int) < accounts.len() && scope_matches(
                accounts[cands[p] as int],
                d,
            )
        &&& forall|i: int|
            0 <= i < accounts.len() && scope_matches(accounts[i], d) ==> cands.contains(i as usize)
    } else {
        cands.len() == accounts.len() && (forall|p: int| 0 <= p < cands.len() ==> cands[p] == p)
    }
}

/// A run over the configured credentials: the chosen candidate positions
/// and how far the attempts have come.
pub struct Orchestrator {
    pub accounts: Vec<Account>,
    pub candidates: Vec<usize>,
    pub pos: usize,
}

impl Orchestrator {
    /// The structural soundness of a run: every candidate position is in
    /// range, the positions increase strictly, and the cursor never passes
    /// the end.
    pub open spec fn wf(self) -> bool {
        &&& self.pos <= self.candidates@.len()
        &&& forall|p: int|
            0 <= p < self.candidates@.len() ==> (self.candidates@[p] as int)
                < self.accounts@.len()
        &&& forall|p: int, q: int|
            0 <= p < q < self.candidates@.len() ==> self.candidates@[p] < self.candidates@[q]
    }

    /// Selects the candidates for a domain. An empty credential list is an
    /// immediate hard error, before any attempt.
    pub fn new(accounts: Vec<Account>, domain: &str) -> (r: Result<
        Orchestrator,
        OrchestrationError,
    >)
        ensures
            r is Err <==> accounts@.len() == 0,
            r matches Err(e) ==> e is NoAccounts,
            r matches Ok(o) ==> (o.accounts == accounts && o.pos == 0 && o.wf()
                && candidate_set_ok(accounts@, domain@, o.candidates@)),
    {
        if accounts.len() == 0 {
            return Err(OrchestrationError::NoAccounts);
        }
        let n = accounts.len();
        let mut matched: Vec<usize> = Vec::new();
        let mut i: usize = 0;
        while i < n
            invariant
                i <= n,
                n == accounts@.len(),
                forall|p: int|
                    0 <= p < matched@.len() ==> (matched@[p] as int) < i && scope_matches(
                        accounts@[matched@[p] as int],
                        domain@,
                    ),
                forall|p: int, q: int|
                    0 <= p < q < matched@.len() ==> matched@[p] < matched@[q],
                forall|k: int|
                    0 <= k < i && scope_matches(accounts@[k], domain@) ==> matched@.contains(
                        k as usize,
                    ),
            decreases n - i,
        {
            if account_matches(&accounts[i], domain) {
                let ghost m0 = matched@;
                matched.push(i);
                proof {
                    assert(matched@ =~= m0.push(i as usize));
                    assert forall|k: int|
                        0 <= k < i + 1 && scope_matches(accounts@[k], domain@) implies matched@
                        .contains(k as usize) by {
                        if k < i {
                            assert(m0.contains(k as usize));
                            let p = choose|p: int| 0 <= p < m0.len() && m0[p] == (k as usize);
                            assert(matched@[p] == k as usize);
                        } else {
                            assert(matched@[m0.len() as int] == i as usize);
                        }
                    }
                    assert forall|p: int, q: int|
                        0 <= p < q < matched@.len() implies matched@[p] < matched@[q] by {
                        if q == matched@.len() - 1 {
                            assert((m0[p] as int) < i);
                        }
                    }
                }
            }
            i = i + 1;
        }
        if matched.len() > 0 {
            assert(scope_matches(accounts@[matched@[0] as int], domain@));
            Ok(Orchestrator { accounts, candidates: matched, pos: 0 })
        } else {
            assert(forall|k: int| 0 <= k < n ==> !scope_matches(accounts@[k], domain@)) by {
                assert forall|k: int| 0 <= k < n implies !scope_matches(accounts@[k], domain@) by {
                    if scope_matches(accounts@[k], domain@) {
                        assert(matched@.contains(k as usize));
                    }
                }
            }
            let mut all: Vec<usize> = Vec::new();
            let mut j: usize = 0;
            while j < n
                invariant
                    j <= n,
                    all@.len() == j,
                    forall|p: int| 0 <= p < all@.len() ==> all@[p] == p,
                decreases n - j,
            {
                all.push(j);
                j = j + 1;
            }
            Ok(Orchestrator { accounts, candidates: all, pos: 0 })
        }
    }

    /// The position (into the configured credentials) of the candidate to
    /// try next, while one is left.
    pub fn current_index(&self) -> (r: Option<usize>)
        ensures
            self.pos < self.candidates@.len() ==> r == Some(self.candidates@[self.pos as int]),
            self.pos >= self.candidates@.len() ==> r is None,
    {
        if self.pos < self.candidates.len() {
            Some(self.candidates[self.pos])
        } else {
            None
        }
    }

    /// Consumes one attempt's outcome and moves the run on as described on
    /// [`step_decision`].
    pub fn step(&mut self, outcome: AttemptOutcome) -> (r: StepOutcome)
        requires
            old(self).wf(),
            old(self).pos < old(self).candidates@.len(),
        ensures
            final(self).wf(),
            final(self).accounts == old(self).accounts,
            final(self).candidates == old(self).candidates,
            r == step_decision(
                old(self).accounts@[old(self).candidates@[old(self).pos as int] as int].ote,
                old(self).pos + 1 < old(self).candidates@.len(),
                outcome,
            ),
            r is Continue ==> final(self).pos == old(self).pos + 1,
            !(r is Continue) ==> final(self).pos == old(self).pos,
    {
        let idx = self.candidates[self.pos];
        let ote = self.accounts[idx].ote;
        let more = self.pos < self.candidates.len() - 1;
        match outcome {
            AttemptOutcome::LoginFailed(e) => StepOutcome::Fail(OrchestrationError::Operation(e)),
            AttemptOutcome::Completed { op, close } => {
                match op {
                    Ok(_) => {
                        match close {
                            Ok(_) => StepOutcome::Done(ote),
                            Err(c) => StepOutcome::Fail(OrchestrationError::Operation(c)),
                        }
                    },
                    Err(e) => {
                        match e {
                            InwxError::DomainNotFound => {
                                match close {
                                    Err(c) => StepOutcome::Fail(
                                        OrchestrationError::Operation(c),
                                    ),
                                    Ok(_) => {
                                        if more {
                                            self.pos = self.pos + 1;
                                            StepOutcome::Continue
                                        } else {
                                            StepOutcome::Fail(
                                                OrchestrationError::Operation(
                                                    InwxError::DomainNotFound,
                                                ),
                                            )
                                        }
                                    },
                                }
                            },
                            other => StepOutcome::Fail(OrchestrationError::Operation(other)),
                        }
                    },
                }
            },
        }
    }
}

/// The decision after one attempt, given the candidate's sandbox flag and
/// whether further candidates remain:
/// a session that never opened fails the run with its error;
/// an operation failure other than domain-not-found fails the run with that
/// first error, whatever the close did;
/// a close failure beside no worse error fails the run with the close error;
/// a clean success ends the run with the sandbox flag;
/// and a clean domain-not-found moves on — or, with no candidate left, fails
/// the run with domain-not-found.
/// LAW: the run never leaves a credential with its session unaccounted for.
/// It moves on to the next candidate exactly when the attempt completed —
/// its session was opened, the operation came back domain-not-found, and the
/// session's close succeeded — and a candidate is left; so by the time the
/// next credential's session can be opened, the previous one's close has
/// already happened and been judged. Likewise a successful end carries a
/// completed attempt whose operation and close both succeeded.
pub proof fn lemma_step_advances_only_after_clean_close(
    ote: bool,
    more: bool,
    outcome: AttemptOutcome,
)
    ensures
        step_decision(ote, more, outcome) is Continue <==> (more && (outcome
            matches AttemptOutcome::Completed { op, close } && (op matches Err(e) && e
            is DomainNotFound) && close is Ok)),
        step_decision(ote, more, outcome) is Done ==> (outcome
            matches AttemptOutcome::Completed { op, close } && op is Ok && close is Ok
            && step_decision(ote, more, outcome) == StepOutcome::Done(ote)),
{
}

pub open spec fn step_decision(ote: bool, more: bool, outcome: AttemptOutcome) -> StepOutcome {
    match outcome {
        AttemptOutcome::LoginFailed(e) => StepOutcome::Fail(OrchestrationError::Operation(e)),
        AttemptOutcome::Completed { op, close } => {
            match op {
                Ok(u) => {
                    match close {
                        Ok(v) => StepOutcome::Done(ote),
                        Err(c) => StepOutcome::Fail(OrchestrationError::Operation(c)),
                    }
                },
                Err(e) => {
                    match e {
                        InwxError::DomainNotFound => {
                            match close {
                                Err(c) => StepOutcome::Fail(OrchestrationError::Operation(c)),
                                Ok(v) => {
                                    if more {
                                        StepOutcome::Continue
                                    } else {
                                        StepOutcome::Fail(
                                            OrchestrationError::Operation(
                                                InwxError::DomainNotFound,
                                            ),
                                        )
                                    }
                                },
                            }
                        },
                        _ => StepOutcome::Fail(OrchestrationError::Operation(e)),
                    }
                },
            }
        },
    }
}

} // verus!
