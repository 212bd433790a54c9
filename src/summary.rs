//! Per-file outcomes and the run summary they add up to.
use vstd::prelude::*;

verus! {

/// Why a file could not be processed.
#[derive(Clone, Copy, Debug, PartialEq, Eq, Structural)]
pub enum Failure {
    /// Reading, copying or writing a file failed.
    Io,
    /// The source bytes are not an image of the format their extension names.
    Decode,
    /// The pixels could not be encoded, or the encoded bytes not written.
    Encode,
    /// Lossless recompression of the written PNG failed.
    Optimize,
}

/// What became of one candidate file.
#[derive(Clone, Copy, Debug, PartialEq, Eq, Structural)]
pub enum Outcome {
    Processed,
    Skipped,
    Errored(Failure),
}

/// Counters of a run: one increment for each dispatched candidate.
#[derive(Clone, Copy, Debug, PartialEq, Eq, Structural)]
pub struct RunSummary {
    pub processed: usize,
    pub skipped: usize,
    pub errored: usize,
}

/// How many of `outcomes` are `Processed`, `Skipped` and `Errored`.
pub open spec fn count_processed(outcomes: Seq<Outcome>) -> nat
    decreases outcomes.len(),
{
    if outcomes.len() == 0 {
        0
    } else {
        count_processed(outcomes.drop_last()) + if outcomes.last() is Processed {
            1nat
        } else {
            0nat
        }
    }
}

pub open spec fn count_skipped(outcomes: Seq<Outcome>) -> nat
    decreases outcomes.len(),
{
    if outcomes.len() == 0 {
        0
    } else {
        count_skipped(outcomes.drop_last()) + if outcomes.last() is Skipped {
            1nat
        } else {
            0nat
        }
    }
}

pub open spec fn count_errored(outcomes: Seq<Outcome>) -> nat
    decreases outcomes.len(),
{
    if outcomes.len() == 0 {
        0
    } else {
        count_errored(outcomes.drop_last()) + if outcomes.last() is Errored {
            1nat
        } else {
            0nat
        }
    }
}

impl RunSummary {
    pub open spec fn total(self) -> int {
        self.processed + self.skipped + self.errored
    }

    /// The summary of a run in which nothing was dispatched yet.
    pub fn new() -> (r: RunSummary)
        ensures
            r.processed == 0 && r.skipped == 0 && r.errored == 0,
    {
        RunSummary { processed: 0, skipped: 0, errored: 0 }
    }

    /// Count one outcome: exactly the counter that matches it grows by one.
    pub fn record(&mut self, outcome: Outcome)
        requires
            old(self).total() < usize::MAX,
        ensures
            final(self).processed == old(self).processed + if outcome is Processed {
                1int
            } else {
                0int
            },
            final(self).skipped == old(self).skipped + if outcome is Skipped {
                1int
            } else {
                0int
            },
            final(self).errored == old(self).errored + if outcome is Errored {
                1int
            } else {
                0int
            },
            final(self).total() == old(self).total() + 1,
    {
        match outcome {
            Outcome::Processed => self.processed = self.processed + 1,
            Outcome::Skipped => self.skipped = self.skipped + 1,
            Outcome::Errored(_) => self.errored = self.errored + 1,
        }
    }

    /// The process exit status after the run: 1 when any file errored, else 0.
    pub fn exit_code(&self) -> (r: i32)
        ensures
            r == (if self.errored > 0 {
                1i32
            } else {
                0i32
            }),
    {
        if self.errored > 0 {
            1
        } else {
            0
        }
    }
}

/// Every outcome falls under exactly one counter, so the three counts of a
/// sequence of outcomes add up to its length.
pub proof fn lemma_counts_partition(outcomes: Seq<Outcome>)
    ensures
        count_processed(outcomes) + count_skipped(outcomes) + count_errored(outcomes)
            == outcomes.len(),
    decreases outcomes.len(),
{
    if outcomes.len() > 0 {
        lemma_counts_partition(outcomes.drop_last());
    }
}

/// Add up the outcomes of all dispatched files, in any order.
pub fn tally(outcomes: &Vec<Outcome>) -> (r: RunSummary)
    ensures
        r.processed == count_processed(outcomes@),
        r.skipped == count_skipped(outcomes@),
        r.errored == count_errored(outcomes@),
        r.total() == outcomes@.len(),
{
    let mut s = RunSummary::new();
    let mut i: usize = 0;
    while i < outcomes.len()
        invariant
            i <= outcomes.len(),
            s.processed == count_processed(outcomes@.subrange(0, i as int)),
            s.skipped == count_skipped(outcomes@.subrange(0, i as int)),
            s.errored == count_errored(outcomes@.subrange(0, i as int)),
            s.total() == i,
        decreases outcomes.len() - i,
    {
        proof {
            assert(outcomes@.subrange(0, i + 1).drop_last() =~= outcomes@.subrange(0, i as int));
        }
        s.record(outcomes[i]);
        i = i + 1;
    }
    proof {
        assert(outcomes@.subrange(0, i as int) =~= outcomes@);
        lemma_counts_partition(outcomes@);
    }
    s
}

} // verus!
