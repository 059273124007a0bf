//! Collision-retry slug allocation: a bounded loop that perturbs a candidate
//! identifier until the store reports one free or the retry budget of five
//! existence checks is spent. The store check itself is I/O and is performed
//! by the caller; this type only decides what to check next and when to give
//! up.

use crate::slug::{alnum, random_alphanumeric, slug_char_ok};
use vstd::prelude::*;

verus! {

/// The fixed retry budget: five existence checks in total (the initial
/// candidate plus up to four extensions).
pub const MAX_CHECKS: u8 = 5;

/// The visible state of an allocation in progress: the candidate under
/// consideration and how many existence checks have come back "taken".
pub struct AllocModel {
    pub candidate: Seq<char>,
    pub checks: int,
}

/// One "taken" answer: the candidate grows by one disambiguation character
/// and one more unit of the budget is spent.
pub open spec fn taken_step(m: AllocModel, c: char) -> AllocModel {
    AllocModel { candidate: m.candidate.push(c), checks: m.checks + 1 }
}

/// The model after a whole run of "taken" answers, one per drawn character.
pub open spec fn run_taken(m: AllocModel, cs: Seq<char>) -> AllocModel
    decreases cs.len(),
{
    if cs.len() == 0 {
        m
    } else {
        run_taken(taken_step(m, cs[0]), cs.drop_first())
    }
}

/// Each "taken" answer costs exactly one check, whatever characters were
/// drawn: after a run of collisions the budget spent equals their number.
pub proof fn lemma_run_taken_checks(m: AllocModel, cs: Seq<char>)
    ensures
        run_taken(m, cs).checks == m.checks + cs.len(),
    decreases cs.len(),
{
    if cs.len() > 0 {
        lemma_run_taken_checks(taken_step(m, cs[0]), cs.drop_first());
    }
}

/// Allocator bound: an oracle that reports "taken" for five checks in a row
/// exhausts a fresh allocator — after five collisions the budget is spent
/// and allocation must fail, whatever extension characters were drawn. More
/// than five checks can never happen: `note_taken` refuses a spent budget.
pub proof fn lemma_five_collisions_exhaust(m: AllocModel, cs: Seq<char>)
    requires
        m.checks == 0,
        cs.len() == MAX_CHECKS as int,
    ensures
        run_taken(m, cs).checks == MAX_CHECKS as int,
{
    lemma_run_taken_checks(m, cs);
}

/// A collision-retry allocation in progress.
pub struct SlugAllocator {
    candidate: String,
    checks_done: u8,
}

impl SlugAllocator {
    /// The candidate for the next existence check, and the budget spent.
    pub closed spec fn model(&self) -> AllocModel {
        AllocModel { candidate: self.candidate@, checks: self.checks_done as int }
    }

    /// The budget is never exceeded and the candidate stays a well-formed
    /// slug: non-empty and URL-safe.
    pub open spec fn wf(&self) -> bool {
        &&& 0 <= self.model().checks <= MAX_CHECKS as int
        &&& self.model().candidate.len() > 0
        &&& forall|i: int|
            0 <= i < self.model().candidate.len() ==> slug_char_ok(
                #[trigger] self.model().candidate[i],
            )
    }

    /// Starts allocating from a derived candidate; no check is spent yet.
    pub fn new(candidate: String) -> (r: Self)
        requires
            candidate@.len() > 0,
            forall|i: int| 0 <= i < candidate@.len() ==> slug_char_ok(#[trigger] candidate@[i]),
        ensures
            r.wf(),
            r.model().candidate == candidate@,
            r.model().checks == 0,
    {
        SlugAllocator { candidate, checks_done: 0 }
    }

    /// The candidate the caller should check against the store next.
    pub fn candidate(&self) -> (r: &String)
        ensures
            r@ == self.model().candidate,
    {
        &self.candidate
    }

    /// Whether the budget of five checks is spent.
    pub fn exhausted(&self) -> (r: bool)
        ensures
            r == (self.model().checks == MAX_CHECKS as int),
    {
        self.checks_done == MAX_CHECKS
    }

    /// Whether the check now being answered was the last one the budget
    /// allows.
    pub fn on_last_check(&self) -> (r: bool)
        ensures
            r == (self.model().checks == MAX_CHECKS as int - 1),
    {
        self.checks_done == MAX_CHECKS - 1
    }

    /// The store reported the current candidate as taken: spend one unit of
    /// the budget and append one fresh random alphanumeric character, so the
    /// next check asks about a perturbed candidate.
    pub fn note_taken(&mut self)
        requires
            old(self).wf(),
            old(self).model().checks < MAX_CHECKS as int,
        ensures
            final(self).wf(),
            exists|c: char|
                alnum(c) && final(self).model() == taken_step(old(self).model(), c),
            final(self).model().checks == old(self).model().checks + 1,
    {
        let ext = random_alphanumeric(1);
        let ghost c = ext@[0];
        self.candidate.append(ext.as_str());
        self.checks_done = self.checks_done + 1;
        proof {
            assert(self.candidate@ =~= old(self).model().candidate.push(c));
            assert(alnum(c) && self.model() == taken_step(old(self).model(), c));
        }
    }
}

} // verus!
