//! The results of a benchmark, gathered by size and phase.

use crate::args::BenchmarkArgs;
use crate::report::{SummaryText, TransferText};
use crate::run::{law_course_of_a_benchmark, nth_step, PhaseKind, RunStep};
use vstd::prelude::*;

verus! {

/// What is known of one size.
#[derive(Debug, PartialEq, Eq)]
pub struct SizeResult {
    /// The size, as text.
    pub size: String,
    /// Rates of the write phase, once it is done.
    pub write: Option<SummaryText>,
    /// Rates of the read phase, once it is done.
    pub read: Option<SummaryText>,
    /// Rates of the skip phase, once it is done.
    pub skip: Option<SummaryText>,
}

impl SizeResult {
    /// Nothing is known yet.
    pub open spec fn empty(size: String) -> SizeResult {
        SizeResult { size, write: None, read: None, skip: None }
    }

    /// The same with the rates of one phase.
    pub open spec fn with(self, kind: PhaseKind, summary: SummaryText) -> SizeResult {
        match kind {
            PhaseKind::Write => SizeResult { write: Some(summary), ..self },
            PhaseKind::Read => SizeResult { read: Some(summary), ..self },
            PhaseKind::Skip => SizeResult { skip: Some(summary), ..self },
        }
    }

    /// Whether all phases are done.
    pub open spec fn is_complete(self) -> bool {
        self.write is Some && self.read is Some && self.skip is Some
    }

    /// The part of the report: each phase under its own name.
    pub open spec fn transfer(self) -> TransferText {
        TransferText {
            size: self.size,
            write: self.write->0,
            read: self.read->0,
            skip: self.skip->0,
        }
    }
}

/// The results of a benchmark so far.
#[derive(Debug)]
pub struct Results {
    sizes: Vec<SizeResult>,
}

impl View for Results {
    type V = Seq<SizeResult>;

    /// One entry for each size, in the order of the arguments.
    closed spec fn view(&self) -> Seq<SizeResult> {
        self.sizes@
    }
}

fn copied(summary: &SummaryText) -> (copy: SummaryText)
    ensures
        copy == *summary,
{
    SummaryText { mean: summary.mean.clone(), stddev: summary.stddev.clone() }
}

/// An entry without results for each size.
pub open spec fn no_results(size_texts: Seq<String>) -> Seq<SizeResult> {
    Seq::new(size_texts.len(), |k: int| SizeResult::empty(size_texts[k]))
}

impl Results {
    /// Starts without results; `size_texts` are the sizes of the arguments, as
    /// text.
    pub fn new(args: &BenchmarkArgs, size_texts: &Vec<String>) -> (results: Results)
        requires
            size_texts@.len() == args.sizes@.len(),
        ensures
            results@ == no_results(size_texts@),
            results@.len() == args.sizes@.len(),
            forall|k: int|
                0 <= k < results@.len() ==> {
                    let entry = #[trigger] results@[k];
                    &&& entry.size == size_texts@[k]
                    &&& entry.write is None && entry.read is None && entry.skip is None
                },
    {
        let mut sizes: Vec<SizeResult> = Vec::new();
        let mut k: usize = 0;
        while k < args.sizes.len()
            invariant
                k <= size_texts@.len(),
                size_texts@.len() == args.sizes@.len(),
                sizes@ == no_results(size_texts@.take(k as int)),
            decreases args.sizes@.len() - k,
        {
            sizes.push(
                SizeResult { size: size_texts[k].clone(), write: None, read: None, skip: None },
            );
            k = k + 1;
            assert(sizes@ =~= no_results(size_texts@.take(k as int)));
        }
        assert(size_texts@.take(k as int) =~= size_texts@);
        Results { sizes }
    }

    /// Notes the rates of a phase of the size with index `index`.
    pub fn record(&mut self, index: usize, kind: PhaseKind, summary: SummaryText)
        requires
            index < old(self)@.len(),
        ensures
            final(self)@ == old(self)@.update(
                index as int,
                old(self)@[index as int].with(kind, summary),
            ),
            final(self)@.len() == old(self)@.len(),
            forall|k: int|
                0 <= k < old(self)@.len() && k != index ==> #[trigger] final(self)@[k] == old(
                    self,
                )@[k],
            ({
                let before = old(self)@[index as int];
                let after = final(self)@[index as int];
                &&& after.size == before.size
                &&& after.write == if kind is Write {
                    Some(summary)
                } else {
                    before.write
                }
                &&& after.read == if kind is Read {
                    Some(summary)
                } else {
                    before.read
                }
                &&& after.skip == if kind is Skip {
                    Some(summary)
                } else {
                    before.skip
                }
            }),
    {
        match kind {
            PhaseKind::Write => {
                self.sizes[index].write = Some(summary);
            },
            PhaseKind::Read => {
                self.sizes[index].read = Some(summary);
            },
            PhaseKind::Skip => {
                self.sizes[index].skip = Some(summary);
            },
        }
    }

    /// The results of all sizes, in the order of the arguments, if every phase of
    /// every size is done.
    pub fn transfers(&self) -> (transfers: Option<Vec<TransferText>>)
        ensures
            transfers is Some <==> forall|k: int|
                0 <= k < self@.len() ==> (#[trigger] self@[k]).is_complete(),
            transfers matches Some(list) ==> {
                &&& list@.len() == self@.len()
                &&& forall|k: int|
                    0 <= k < self@.len() ==> #[trigger] list@[k] == self@[k].transfer()
            },
            transfers is Some <==> forall|k: int|
                0 <= k < self@.len() ==> (#[trigger] self@[k]).write is Some && self@[k].read is Some
                    && self@[k].skip is Some,
            transfers matches Some(list) ==> forall|k: int|
                0 <= k < self@.len() ==> {
                    &&& (#[trigger] list@[k]).size == self@[k].size
                    &&& self@[k].write == Some(list@[k].write)
                    &&& self@[k].read == Some(list@[k].read)
                    &&& self@[k].skip == Some(list@[k].skip)
                },
    {
        let mut list: Vec<TransferText> = Vec::new();
        let mut k: usize = 0;
        while k < self.sizes.len()
            invariant
                k <= self@.len(),
                self@ == self.sizes@,
                list@.len() == k,
                forall|j: int| 0 <= j < k ==> (#[trigger] self@[j]).is_complete(),
                forall|j: int| 0 <= j < k ==> #[trigger] list@[j] == self@[j].transfer(),
            decreases self@.len() - k,
        {
            let entry = &self.sizes[k];
            assert(*entry == self@[k as int]);
            match (&entry.write, &entry.read, &entry.skip) {
                (Some(write), Some(read), Some(skip)) => {
                    list.push(
                        TransferText {
                            size: entry.size.clone(),
                            write: copied(write),
                            read: copied(read),
                            skip: copied(skip),
                        },
                    );
                },
                _ => {
                    assert(!self@[k as int].is_complete());
                    return None;
                },
            }
            k = k + 1;
        }
        Some(list)
    }
}

/// The results after the first `n` steps of a benchmark whose phases gave the
/// summaries `summary(k, kind)`.
pub open spec fn results_after(
    args: BenchmarkArgs,
    size_texts: Seq<String>,
    summary: spec_fn(int, PhaseKind) -> SummaryText,
    n: nat,
) -> Seq<SizeResult>
    decreases n,
{
    if n == 0 {
        no_results(size_texts)
    } else {
        let before = results_after(args, size_texts, summary, (n - 1) as nat);
        match nth_step(args, (n - 1) as nat) {
            RunStep::RunPhase(k, kind) => before.update(
                k as int,
                before[k as int].with(kind, summary(k as int, kind)),
            ),
            _ => before,
        }
    }
}

/// What is known of the size with index `k` after `n` steps.
spec fn known_after(
    args: BenchmarkArgs,
    size_texts: Seq<String>,
    summary: spec_fn(int, PhaseKind) -> SummaryText,
    n: nat,
    k: int,
) -> SizeResult {
    let first = 1 + args.iterations + 3 * k;
    SizeResult {
        size: size_texts[k],
        write: if n > first {
            Some(summary(k, PhaseKind::Write))
        } else {
            None
        },
        read: if n > first + 1 {
            Some(summary(k, PhaseKind::Read))
        } else {
            None
        },
        skip: if n > first + 2 {
            Some(summary(k, PhaseKind::Skip))
        } else {
            None
        },
    }
}

proof fn lemma_results_after(
    args: BenchmarkArgs,
    size_texts: Seq<String>,
    summary: spec_fn(int, PhaseKind) -> SummaryText,
    n: nat,
)
    requires
        size_texts.len() == args.sizes@.len(),
    ensures
        results_after(args, size_texts, summary, n).len() == size_texts.len(),
        forall|k: int|
            0 <= k < size_texts.len() ==> #[trigger] results_after(args, size_texts, summary, n)[k]
                == known_after(args, size_texts, summary, n, k),
    decreases n,
{
    if n > 0 {
        lemma_results_after(args, size_texts, summary, (n - 1) as nat);
        law_course_of_a_benchmark(args, (n - 1) as nat);
        assert(args.sizes@.len() == args.sizes.len());
    }
}

/// At the end of a benchmark the results are complete: one entry for each size, in
/// the order of the arguments, with the summary of each phase of that size under
/// the name of the phase.
pub proof fn law_results_of_a_benchmark(
    args: BenchmarkArgs,
    size_texts: Seq<String>,
    summary: spec_fn(int, PhaseKind) -> SummaryText,
    n: nat,
    k: int,
)
    requires
        size_texts.len() == args.sizes@.len(),
        nth_step(args, n) is Report,
        0 <= k < args.sizes@.len(),
    ensures
        ({
            let results = results_after(args, size_texts, summary, n);
            &&& results.len() == args.sizes@.len()
            &&& results[k].is_complete()
            &&& results[k].transfer() == TransferText {
                size: size_texts[k],
                write: summary(k, PhaseKind::Write),
                read: summary(k, PhaseKind::Read),
                skip: summary(k, PhaseKind::Skip),
            }
        }),
{
    lemma_results_after(args, size_texts, summary, n);
    law_course_of_a_benchmark(args, n);
}

/// The summaries of the phases are kept apart: noting one changes that one only,
/// and once all three are noted, in any order, each stands under its own name.
pub proof fn law_phases_are_kept_apart(
    entry: SizeResult,
    kind: PhaseKind,
    summary: SummaryText,
    write: SummaryText,
    read: SummaryText,
    skip: SummaryText,
)
    ensures
        ({
            let after = entry.with(kind, summary);
            &&& after.size == entry.size
            &&& after.write == if kind is Write {
                Some(summary)
            } else {
                entry.write
            }
            &&& after.read == if kind is Read {
                Some(summary)
            } else {
                entry.read
            }
            &&& after.skip == if kind is Skip {
                Some(summary)
            } else {
                entry.skip
            }
        }),
        ({
            let all = entry.with(PhaseKind::Skip, skip).with(PhaseKind::Write, write).with(
                PhaseKind::Read,
                read,
            );
            &&& all.is_complete()
            &&& all.transfer() == (TransferText { size: entry.size, write, read, skip })
        }),
        entry.is_complete() <==> entry.write is Some && entry.read is Some && entry.skip is Some,
        SizeResult::empty(entry.size) == (SizeResult {
            size: entry.size,
            write: None,
            read: None,
            skip: None,
        }),
{
}

} // verus!
