//! Progress of a batch, and a model of a whole run over a file system in
//! which outputs exist or not.

use vstd::prelude::*;
use crate::discovery::{candidate_views, Candidate};
use crate::runner::{
    conversion_report, log_views, plan_file, report_console, report_log, run_succeeded, skip_line,
    ConverterRun, FilePlan, FileReport, Outcome,
};

verus! {

/// Counts of a batch: its size, how many candidates are done, and how each
/// one ended.
pub struct Tally {
    pub total: usize,
    pub done: usize,
    pub skipped: usize,
    pub converted: usize,
    pub failed: usize,
}

pub struct TallyView {
    pub total: nat,
    pub done: nat,
    pub skipped: nat,
    pub converted: nat,
    pub failed: nat,
}

impl View for Tally {
    type V = TallyView;

    open spec fn view(&self) -> TallyView {
        TallyView {
            total: self.total as nat,
            done: self.done as nat,
            skipped: self.skipped as nat,
            converted: self.converted as nat,
            failed: self.failed as nat,
        }
    }
}

impl TallyView {
    /// Every candidate done is counted under exactly one outcome.
    pub open spec fn wf(self) -> bool {
        &&& self.done == self.skipped + self.converted + self.failed
        &&& self.done <= self.total
    }
}

/// An empty tally for a batch of `total` candidates.
pub open spec fn tally_start(total: nat) -> TallyView {
    TallyView { total, done: 0, skipped: 0, converted: 0, failed: 0 }
}

/// One more candidate done, with the given outcome.
pub open spec fn tally_step(t: TallyView, o: Outcome) -> TallyView {
    TallyView {
        total: t.total,
        done: t.done + 1,
        skipped: t.skipped + if o == Outcome::Skipped {
            1nat
        } else {
            0nat
        },
        converted: t.converted + if o == Outcome::Succeeded {
            1nat
        } else {
            0nat
        },
        failed: t.failed + if o == Outcome::Failed {
            1nat
        } else {
            0nat
        },
    }
}

impl Tally {
    /// The tally at the start of a batch of `total` candidates.
    pub fn new(total: usize) -> (r: Tally)
        ensures
            r@ == tally_start(total as nat),
            r@.wf(),
    {
        Tally { total, done: 0, skipped: 0, converted: 0, failed: 0 }
    }

    /// Records that one more candidate is done: progress advances by one,
    /// whatever the outcome.
    pub fn record(&mut self, o: Outcome)
        requires
            old(self)@.wf(),
            old(self)@.done < old(self)@.total,
        ensures
            final(self)@ == tally_step(old(self)@, o),
            final(self)@.wf(),
    {
        self.done = self.done + 1;
        match o {
            Outcome::Skipped => self.skipped = self.skipped + 1,
            Outcome::Succeeded => self.converted = self.converted + 1,
            Outcome::Failed => self.failed = self.failed + 1,
        }
    }

    /// Whether every candidate of the batch is done.
    pub fn is_finished(&self) -> (r: bool)
        ensures
            r == (self@.done == self@.total),
    {
        self.done == self.total
    }
}

/// A batch in progress: the candidates, in order, and the tally of those
/// done. The next candidate to handle is the one at `tally.done`.
pub struct Batch {
    candidates: Vec<Candidate>,
    tally: Tally,
}

impl Batch {
    pub closed spec fn candidates_view(&self) -> Seq<(Seq<char>, Seq<char>)> {
        candidate_views(self.candidates@)
    }

    pub closed spec fn tally_view(&self) -> TallyView {
        self.tally@
    }

    pub closed spec fn wf(&self) -> bool {
        &&& self.tally@.wf()
        &&& self.tally@.total == self.candidates@.len()
    }

    /// Starts a batch: none where nothing was found, else one in which no
    /// candidate is done yet.
    pub fn start(candidates: Vec<Candidate>) -> (r: Option<Batch>)
        ensures
            r is None <==> candidates@.len() == 0,
            r matches Some(b) ==> {
                &&& b.wf()
                &&& b.candidates_view() == candidate_views(candidates@)
                &&& b.tally_view() == tally_start(candidates@.len())
            },
    {
        if candidates.len() == 0 {
            None
        } else {
            let tally = Tally::new(candidates.len());
            Some(Batch { candidates, tally })
        }
    }

    /// The tally so far.
    pub fn tally(&self) -> (r: &Tally)
        ensures
            r@ == self.tally_view(),
    {
        &self.tally
    }

    /// The candidate to handle next, or none once every one is done.
    pub fn current(&self) -> (r: Option<&Candidate>)
        requires
            self.wf(),
        ensures
            r is None <==> self.tally_view().done == self.tally_view().total,
            r is Some <==> self.tally_view().done < self.tally_view().total,
            r matches Some(c) ==> c@ == self.candidates_view()[self.tally_view().done as int],
    {
        if self.tally.done < self.candidates.len() {
            Some(&self.candidates[self.tally.done])
        } else {
            None
        }
    }

    /// Decides on the current candidate once it is known whether its output
    /// exists: where it does, the candidate is done as skipped; else it is
    /// to be converted and stays current.
    pub fn check_output(&mut self, output_exists: bool) -> (r: FilePlan)
        requires
            old(self).wf(),
            old(self).tally_view().done < old(self).tally_view().total,
        ensures
            final(self).wf(),
            final(self).candidates_view() == old(self).candidates_view(),
            output_exists <==> r is Skip,
            r matches FilePlan::Skip { log_line } ==> log_line@ == skip_line(
                old(self).candidates_view()[old(self).tally_view().done as int].1,
            ),
            final(self).tally_view() == if output_exists {
                tally_step(old(self).tally_view(), Outcome::Skipped)
            } else {
                old(self).tally_view()
            },
    {
        let plan = plan_file(&self.candidates[self.tally.done], output_exists);
        if output_exists {
            self.tally.record(Outcome::Skipped);
        }
        plan
    }

    /// Finishes the current candidate with what the converter gave back.
    pub fn finish_conversion(&mut self, run: ConverterRun) -> (r: FileReport)
        requires
            old(self).wf(),
            old(self).tally_view().done < old(self).tally_view().total,
        ensures
            final(self).wf(),
            final(self).candidates_view() == old(self).candidates_view(),
            ({
                let c = old(self).candidates_view()[old(self).tally_view().done as int];
                &&& log_views(r.log@) == report_log(c.0, c.1, run)
                &&& match r.console {
                    Some(s) => report_console(c.0, run) == Some(s@),
                    None => report_console(c.0, run) is None,
                }
            }),
            r.outcome == outcome_of(false, run_succeeded(run)),
            final(self).tally_view() == tally_step(old(self).tally_view(), r.outcome),
    {
        let report = conversion_report(&self.candidates[self.tally.done], run);
        self.tally.record(report.outcome);
        report
    }
}

/// The outcome of a candidate: skipped where its output exists, else as the
/// converter ended.
pub open spec fn outcome_of(output_exists: bool, converter_ok: bool) -> Outcome {
    if output_exists {
        Outcome::Skipped
    } else if converter_ok {
        Outcome::Succeeded
    } else {
        Outcome::Failed
    }
}

/// A run over candidates with the given outputs, in order, from a file system
/// where the outputs in `existing` exist; `ok[i]` is whether the converter
/// succeeds on the i-th candidate if it is run on it, and a success leaves its
/// output behind. Gives the tally and the outputs that exist afterwards.
pub open spec fn run_model(outputs: Seq<Seq<char>>, existing: Set<Seq<char>>, ok: Seq<bool>) -> (
    TallyView,
    Set<Seq<char>>,
)
    decreases outputs.len(),
{
    if outputs.len() == 0 {
        (tally_start(0), existing)
    } else {
        let (t, fs) = run_model(outputs.drop_last(), existing, ok);
        let o = outputs.last();
        let i = outputs.len() - 1;
        let outcome = outcome_of(fs.contains(o), ok[i]);
        let t2 = tally_step(t, outcome);
        (
            TallyView { total: t.total + 1, ..t2 },
            if outcome == Outcome::Succeeded {
                fs.insert(o)
            } else {
                fs
            },
        )
    }
}

/// Every run does every candidate exactly once, each under one outcome, and
/// no output that existed goes away.
pub proof fn lemma_run_does_every_candidate(
    outputs: Seq<Seq<char>>,
    existing: Set<Seq<char>>,
    ok: Seq<bool>,
)
    ensures
        run_model(outputs, existing, ok).0.done == outputs.len(),
        run_model(outputs, existing, ok).0.total == outputs.len(),
        run_model(outputs, existing, ok).0.wf(),
        existing.subset_of(run_model(outputs, existing, ok).1),
    decreases outputs.len(),
{
    if outputs.len() > 0 {
        lemma_run_does_every_candidate(outputs.drop_last(), existing, ok);
    }
}

/// A run without failures leaves every candidate's output behind.
proof fn lemma_clean_run_leaves_outputs(
    outputs: Seq<Seq<char>>,
    existing: Set<Seq<char>>,
    ok: Seq<bool>,
)
    requires
        run_model(outputs, existing, ok).0.failed == 0,
    ensures
        forall|k: int|
            0 <= k < outputs.len() ==> run_model(outputs, existing, ok).1.contains(
                #[trigger] outputs[k],
            ),
    decreases outputs.len(),
{
    if outputs.len() > 0 {
        let init = outputs.drop_last();
        lemma_clean_run_leaves_outputs(init, existing, ok);
        let fs = run_model(init, existing, ok).1;
        let fs2 = run_model(outputs, existing, ok).1;
        assert(fs.subset_of(fs2));
        assert forall|k: int| 0 <= k < outputs.len() implies fs2.contains(#[trigger] outputs[k]) by {
            if k < init.len() {
                assert(init[k] == outputs[k]);
            }
        }
    }
}

/// A run where every candidate's output already exists skips them all and
/// changes nothing.
proof fn lemma_run_over_existing_outputs(
    outputs: Seq<Seq<char>>,
    existing: Set<Seq<char>>,
    ok: Seq<bool>,
)
    requires
        forall|k: int| 0 <= k < outputs.len() ==> existing.contains(#[trigger] outputs[k]),
    ensures
        run_model(outputs, existing, ok).0.skipped == outputs.len(),
        run_model(outputs, existing, ok).0.converted == 0,
        run_model(outputs, existing, ok).0.failed == 0,
        run_model(outputs, existing, ok).1 == existing,
    decreases outputs.len(),
{
    if outputs.len() > 0 {
        let init = outputs.drop_last();
        assert forall|k: int| 0 <= k < init.len() implies existing.contains(#[trigger] init[k]) by {
            assert(init[k] == outputs[k]);
        }
        lemma_run_over_existing_outputs(init, existing, ok);
        assert(existing.contains(outputs[outputs.len() - 1]));
    }
}

/// Running twice over the same candidates, with nothing deleted in between
/// and no failure in the first run, converts nothing the second time, while
/// each run still advances progress once per candidate.
pub proof fn lemma_second_run_converts_nothing(
    outputs: Seq<Seq<char>>,
    existing: Set<Seq<char>>,
    first_ok: Seq<bool>,
    second_ok: Seq<bool>,
)
    requires
        run_model(outputs, existing, first_ok).0.failed == 0,
    ensures
        ({
            let (first, after) = run_model(outputs, existing, first_ok);
            let (second, again) = run_model(outputs, after, second_ok);
            &&& first.done == outputs.len()
            &&& second.done == outputs.len()
            &&& second.converted == 0
            &&& second.failed == 0
            &&& second.skipped == outputs.len()
            &&& again == after
        }),
{
    let after = run_model(outputs, existing, first_ok).1;
    lemma_run_does_every_candidate(outputs, existing, first_ok);
    lemma_run_does_every_candidate(outputs, after, second_ok);
    lemma_clean_run_leaves_outputs(outputs, existing, first_ok);
    lemma_run_over_existing_outputs(outputs, after, second_ok);
}

} // verus!
