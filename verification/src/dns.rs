//! The DNS side of the workflow: name normalisation, the alias chase that
//! finds the name to query, the polling machine with its exponential
//! backoff and ceiling, and the match test over TXT answers.
//!
//! The queries themselves are network work and stay with the caller; the
//! machines here decide, from each answer, what happens next, and those
//! decisions are what is verified.

use vstd::prelude::*;
use vstd::string::StrSliceExecFns;
use crate::text::str_eq;

verus! {

/// `d` with a trailing dot added when it does not already end in one.
pub open spec fn with_trailing_dot(d: Seq<char>) -> Seq<char> {
    if d.len() > 0 && d[d.len() - 1] == '.' {
        d
    } else {
        d.push('.')
    }
}

/// `d` with one trailing dot removed, when it ends in one.
pub open spec fn without_trailing_dot(d: Seq<char>) -> Seq<char> {
    if d.len() > 0 && d[d.len() - 1] == '.' {
        d.drop_last()
    } else {
        d
    }
}

/// Appends a trailing dot unless the domain already ends in one.
pub fn add_trailing_dot(domain: &str) -> (r: String)
    ensures
        r@ == with_trailing_dot(domain@),
{
    let len = domain.unicode_len();
    if len > 0 && domain.get_char(len - 1) == '.' {
        domain.to_owned()
    } else {
        let mut s = domain.to_owned();
        s.push('.');
        s
    }
}

/// Removes one trailing dot when the domain ends in one.
pub fn remove_trailing_dot(domain: &str) -> (r: String)
    ensures
        r@ == without_trailing_dot(domain@),
{
    let len = domain.unicode_len();
    if len > 0 && domain.get_char(len - 1) == '.' {
        let r = domain.substring_char(0, len - 1).to_owned();
        assert(domain@.subrange(0, len - 1) =~= domain@.drop_last());
        r
    } else {
        domain.to_owned()
    }
}

/// The most alias hops the chase will follow.
pub const MAX_CNAME_HOPS: u8 = 10;

/// Where a chase over a fixed alias table ends: the name itself when the
/// table has no entry for it, and otherwise the chase of its target, cut
/// off after the hop limit.
pub open spec fn spec_chase(cnames: Map<Seq<char>, Seq<char>>, name: Seq<char>, hops: nat) -> Seq<
    char,
>
    decreases 10 - hops,
{
    if hops >= 10 || !cnames.contains_key(name) {
        name
    } else {
        spec_chase(cnames, cnames[name], hops + 1)
    }
}

/// LAW: resolving a name that has no alias returns it unchanged.
pub proof fn lemma_chase_no_cname(cnames: Map<Seq<char>, Seq<char>>, name: Seq<char>)
    requires
        !cnames.contains_key(name),
    ensures
        spec_chase(cnames, name, 0) == name,
{
}

/// LAW: a chain of three aliases resolves to the chain's final target.
pub proof fn lemma_chase_chain_of_three(
    cnames: Map<Seq<char>, Seq<char>>,
    a: Seq<char>,
    b: Seq<char>,
    c: Seq<char>,
    d: Seq<char>,
)
    requires
        cnames.contains_key(a) && cnames[a] == b,
        cnames.contains_key(b) && cnames[b] == c,
        cnames.contains_key(c) && cnames[c] == d,
        !cnames.contains_key(d),
    ensures
        spec_chase(cnames, a, 0) == d,
{
    assert(spec_chase(cnames, d, 3) == d);
    assert(spec_chase(cnames, c, 2) == spec_chase(cnames, d, 3));
    assert(spec_chase(cnames, b, 1) == spec_chase(cnames, c, 2));
    assert(spec_chase(cnames, a, 0) == spec_chase(cnames, b, 1));
}

proof fn lemma_chase_saturates(cnames: Map<Seq<char>, Seq<char>>, names: Seq<Seq<char>>, k: nat)
    requires
        names.len() == 11,
        k <= 10,
        forall|i: int|
            0 <= i < 10 ==> cnames.contains_key(#[trigger] names[i]) && cnames[names[i]]
                == names[i + 1],
    ensures
        spec_chase(cnames, names[k as int], k) == names[10],
    decreases 10 - k,
{
    if k < 10 {
        lemma_chase_saturates(cnames, names, k + 1);
    }
}

/// LAW: a chain of eleven or more aliases is cut off at the tenth hop: the
/// chase yields the name reached there, even though the chain still
/// resolved, and never an error.
pub proof fn lemma_chase_hop_limit(cnames: Map<Seq<char>, Seq<char>>, names: Seq<Seq<char>>)
    requires
        names.len() == 11,
        forall|i: int|
            0 <= i < 10 ==> cnames.contains_key(#[trigger] names[i]) && cnames[names[i]]
                == names[i + 1],
    ensures
        spec_chase(cnames, names[0], 0) == names[10],
{
    lemma_chase_saturates(cnames, names, 0);
}

/// The running state of one alias chase: the name reached so far and the
/// hops already taken.
pub struct CnameChase {
    pub current: String,
    pub hops: u8,
}

impl CnameChase {
    /// Starts a chase at the given name.
    pub fn new(domain: &str) -> (c: CnameChase)
        ensures
            c.current@ == domain@,
            c.hops == 0,
    {
        CnameChase { current: domain.to_owned(), hops: 0 }
    }

    /// Consumes one alias answer for the current name: no alias ends the
    /// chase at the current name; an alias moves the chase to its target,
    /// and the chase ends anyway once the hop limit is reached — the limit
    /// truncates, it never errors.
    pub fn step(&mut self, cname: Option<String>) -> (done: bool)
        requires
            old(self).hops < MAX_CNAME_HOPS,
        ensures
            cname is None ==> (done && *final(self) == *old(self)),
            cname matches Some(target) ==> (final(self).current == target && final(self).hops
                == old(self).hops + 1 && (done <==> final(self).hops == MAX_CNAME_HOPS)),
    {
        match cname {
            None => true,
            Some(target) => {
                self.current = target;
                self.hops = self.hops + 1;
                self.hops == MAX_CNAME_HOPS
            },
        }
    }
}

/// Powers of two.
pub open spec fn pow2(k: nat) -> nat
    decreases k,
{
    if k == 0 {
        1
    } else {
        2 * pow2((k - 1) as nat)
    }
}

/// The sleep the polling machine takes after its (n+1)-th unsuccessful
/// attempt: 5 seconds at first, doubling after every attempt.
pub open spec fn wait_after(n: nat) -> nat
    decreases n,
{
    if n == 0 {
        5
    } else {
        2 * wait_after((n - 1) as nat)
    }
}

/// The seconds slept before the (n+1)-th attempt.
pub open spec fn elapsed_after(n: nat) -> nat
    decreases n,
{
    if n == 0 {
        0
    } else {
        elapsed_after((n - 1) as nat) + wait_after((n - 1) as nat)
    }
}

/// LAW: the backoff sequence is exactly 5, 10, 20, 40, …: the sleep after n
/// unsuccessful attempts is 5·2^n seconds, and the sleeps before the
/// (n+1)-th attempt add up to 5·(2^n − 1) seconds.
pub proof fn lemma_backoff_closed_form(n: nat)
    ensures
        wait_after(n) == 5 * pow2(n),
        elapsed_after(n) == 5 * (pow2(n) - 1),
        pow2(n) >= 1,
    decreases n,
{
    if n > 0 {
        lemma_backoff_closed_form((n - 1) as nat);
    }
}

/// The overall deadline of the polling loop, in seconds.
pub const POLL_CEILING_SECS: u64 = 600;

/// The state of one polling loop: the seconds slept so far and the next
/// sleep interval.
pub struct PollState {
    pub elapsed: u64,
    pub wait: u64,
}

/// What the polling loop does next: stop because the record was seen, stop
/// because the deadline passed, or sleep and try again.
pub enum PollStep {
    Done,
    Timeout,
    Sleep(u64),
}

/// The polling machine's bookkeeping never drifts: the next sleep always
/// exceeds the slept total by the initial interval.
pub open spec fn poll_inv(s: PollState) -> bool {
    s.wait == s.elapsed + 5
}

/// The decision the machine takes in state `s`: past the ceiling it times
/// out before attempting again; a sighting of the record ends the loop; and
/// otherwise it sleeps for the current interval.
pub open spec fn poll_decision(s: PollState, found: bool) -> PollStep {
    if s.elapsed > POLL_CEILING_SECS {
        PollStep::Timeout
    } else if found {
        PollStep::Done
    } else {
        PollStep::Sleep(s.wait)
    }
}

/// Starts a polling loop: nothing slept, first sleep 5 seconds.
pub fn poll_start() -> (s: PollState)
    ensures
        s.elapsed == 0,
        s.wait == 5,
        poll_inv(s),
{
    PollState { elapsed: 0, wait: 5 }
}

/// Consumes one attempt's outcome: `found` says whether the expected value
/// was seen on this attempt, made only if the deadline had not passed.
pub fn poll_step(s: &mut PollState, found: bool) -> (r: PollStep)
    requires
        poll_inv(*old(s)),
    ensures
        poll_inv(*final(s)),
        r == poll_decision(*old(s), found),
        r is Sleep ==> (final(s).elapsed == old(s).elapsed + old(s).wait && final(s).wait == 2
            * old(s).wait),
        !(r is Sleep) ==> *final(s) == *old(s),
{
    if s.elapsed > POLL_CEILING_SECS {
        PollStep::Timeout
    } else if found {
        PollStep::Done
    } else {
        let w = s.wait;
        s.elapsed = s.elapsed + w;
        s.wait = 2 * w;
        PollStep::Sleep(w)
    }
}

/// LAW: in the state reached after n unsuccessful attempts, the machine
/// either sleeps exactly 5·2^n seconds more, or — once the slept total
/// exceeds the ceiling — reports a timeout instead of attempting again.
pub proof fn lemma_poll_progression(n: nat, s: PollState, found: bool)
    requires
        s.wait == wait_after(n),
        s.elapsed == elapsed_after(n),
    ensures
        (elapsed_after(n) <= POLL_CEILING_SECS && !found) ==> poll_decision(s, found)
            == PollStep::Sleep(s.wait) && s.wait == 5 * pow2(n),
        elapsed_after(n) > POLL_CEILING_SECS ==> poll_decision(s, found) is Timeout,
{
    lemma_backoff_closed_form(n);
}

/// LAW: one sleep advances the machine from the state after n misses to the
/// state after n + 1 misses.
pub proof fn lemma_poll_advance(n: nat, s: PollState, t: PollState)
    requires
        s.wait == wait_after(n),
        s.elapsed == elapsed_after(n),
        t.elapsed == s.elapsed + s.wait,
        t.wait == 2 * s.wait,
    ensures
        t.wait == wait_after(n + 1),
        t.elapsed == elapsed_after(n + 1),
{
}

/// One answer of a TXT query: the answering record's name and its text
/// values.
pub struct TxtAnswer {
    pub name: String,
    pub values: Vec<String>,
}

/// One answer for `qname` carries `value`.
pub open spec fn answer_matches(a: TxtAnswer, qname: Seq<char>, value: Seq<char>) -> bool {
    a.name@ == qname && exists|j: int| 0 <= j < a.values@.len() && a.values@[j]@ == value
}

/// Some answer for `qname` carries `value`.
pub open spec fn txt_present(answers: Seq<TxtAnswer>, qname: Seq<char>, value: Seq<char>) -> bool {
    exists|i: int| 0 <= i < answers.len() && answer_matches(answers[i], qname, value)
}

/// Does any answer whose name equals `qname` carry exactly `value`? The
/// comparison is character for character, case-sensitive.
pub fn check_txt_answers(answers: &Vec<TxtAnswer>, qname: &str, value: &str) -> (b: bool)
    ensures
        b == txt_present(answers@, qname@, value@),
{
    let n = answers.len();
    let mut i: usize = 0;
    while i < n
        invariant
            i <= n,
            n == answers@.len(),
            forall|k: int| 0 <= k < i ==> !answer_matches(answers@[k], qname@, value@),
        decreases n - i,
    {
        let a = &answers[i];
        if str_eq(a.name.as_str(), qname) {
            let m = a.values.len();
            let mut j: usize = 0;
            while j < m
                invariant
                    j <= m,
                    i < n,
                    n == answers@.len(),
                    *a == answers@[i as int],
                    a.name@ == qname@,
                    m == a.values@.len(),
                    forall|l: int| 0 <= l < j ==> a.values@[l]@ != value@,
                decreases m - j,
            {
                if str_eq(a.values[j].as_str(), value) {
                    assert(answer_matches(answers@[i as int], qname@, value@));
                    return true;
                }
                j = j + 1;
            }
            assert(!answer_matches(answers@[i as int], qname@, value@));
        } else {
            assert(!answer_matches(answers@[i as int], qname@, value@));
        }
        i = i + 1;
    }
    false
}

} // verus!
