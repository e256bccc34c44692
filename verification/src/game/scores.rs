//! Score keeping: one counter per subject, held in memory.

use crate::text::str_eq;
use vstd::prelude::*;
use vstd::string::StringExecFns;

verus! {

/// The score of one subject, a user or a group.
pub struct ScoreEntry {
    pub subject: String,
    pub score: u32,
}

/// Counters by subject. A subject that was never scored counts as zero, and
/// scores only ever grow.
pub struct ScoreLedger {
    pub entries: Vec<ScoreEntry>,
}

impl ScoreLedger {
    /// No subject has two entries.
    pub open spec fn wf(&self) -> bool {
        forall|i: int, j: int|
            0 <= i < j < self.entries@.len() ==> (#[trigger] self.entries@[i]).subject@ != (
            #[trigger] self.entries@[j]).subject@
    }

    /// Whether the entry at `at` exists and belongs to `subject`.
    pub open spec fn entry_of(&self, at: int, subject: Seq<char>) -> bool {
        0 <= at < self.entries@.len() && self.entries@[at].subject@ == subject
    }

    /// The score of `subject`: that of its entry, or zero without one.
    pub open spec fn score_of(&self, subject: Seq<char>) -> nat {
        if exists|at: int| self.entry_of(at, subject) {
            let at = choose|at: int| self.entry_of(at, subject);
            self.entries@[at].score as nat
        } else {
            0
        }
    }

    /// A ledger without entries: every subject stands at zero.
    pub fn new() -> (ledger: ScoreLedger)
        ensures
            ledger.entries@.len() == 0,
            ledger.wf(),
            forall|subject: Seq<char>| #[trigger] ledger.score_of(subject) == 0,
    {
        ScoreLedger { entries: Vec::new() }
    }

    /// The position of the entry of `subject`, if it has one.
    fn position(&self, subject: &str) -> (found: Option<usize>)
        ensures
            match found {
                Some(at) => self.entry_of(at as int, subject@),
                None => forall|at: int| !self.entry_of(at, subject@),
            },
    {
        let mut i: usize = 0;
        while i < self.entries.len()
            invariant
                i <= self.entries@.len(),
                forall|at: int| 0 <= at < i ==> !self.entry_of(at, subject@),
            decreases self.entries@.len() - i,
        {
            if str_eq(self.entries[i].subject.as_str(), subject) {
                return Some(i);
            }
            i += 1;
        }
        None
    }

    /// In a well-formed ledger the entry of a subject decides its score.
    pub proof fn lemma_entry_decides(&self, at: int, subject: Seq<char>)
        requires
            self.wf(),
            self.entry_of(at, subject),
        ensures
            self.score_of(subject) == self.entries@[at].score,
    {
    }

    /// The score of `subject`.
    pub fn get(&self, subject: &str) -> (score: u32)
        requires
            self.wf(),
        ensures
            score == self.score_of(subject@),
    {
        match self.position(subject) {
            Some(at) => {
                proof {
                    self.lemma_entry_decides(at as int, subject@);
                }
                self.entries[at].score
            },
            None => 0,
        }
    }

    /// Adds one to the score of `subject` and returns the new score. No
    /// other subject's score changes.
    pub fn increment(&mut self, subject: &str) -> (score: u32)
        requires
            old(self).wf(),
            old(self).score_of(subject@) < u32::MAX,
        ensures
            final(self).wf(),
            score == old(self).score_of(subject@) + 1,
            final(self).score_of(subject@) == score,
            forall|other: Seq<char>|
                other != subject@ ==> #[trigger] final(self).score_of(other) == old(self).score_of(
                    other,
                ),
    {
        let ghost before = *self;
        match self.position(subject) {
            Some(at) => {
                proof {
                    before.lemma_entry_decides(at as int, subject@);
                }
                let score = self.entries[at].score + 1;
                self.entries[at].score = score;
                proof {
                    self.lemma_entry_decides(at as int, subject@);
                    assert forall|other: Seq<char>| other != subject@ implies self.score_of(other)
                        == before.score_of(other) by {
                        if exists|i: int| before.entry_of(i, other) {
                            let i = choose|i: int| before.entry_of(i, other);
                            self.lemma_entry_decides(i, other);
                        } else {
                            if exists|i: int| self.entry_of(i, other) {
                                let i = choose|i: int| self.entry_of(i, other);
                                assert(before.entry_of(i, other));
                            }
                        }
                    }
                }
                score
            },
            None => {
                let ghost at = self.entries@.len() as int;
                self.entries.push(ScoreEntry { subject: String::from_str(subject), score: 1 });
                proof {
                    assert forall|i: int, j: int| 0 <= i < j < self.entries@.len() implies (
                    #[trigger] self.entries@[i]).subject@ != (
                    #[trigger] self.entries@[j]).subject@ by {
                        if j == at {
                            assert(!before.entry_of(i, subject@));
                        }
                    }
                    self.lemma_entry_decides(at, subject@);
                    assert forall|other: Seq<char>| other != subject@ implies self.score_of(other)
                        == before.score_of(other) by {
                        if exists|i: int| before.entry_of(i, other) {
                            let i = choose|i: int| before.entry_of(i, other);
                            self.lemma_entry_decides(i, other);
                        } else {
                            if exists|i: int| self.entry_of(i, other) {
                                let i = choose|i: int| self.entry_of(i, other);
                                assert(before.entry_of(i, other));
                            }
                        }
                    }
                }
                1
            },
        }
    }
}

} // verus!
