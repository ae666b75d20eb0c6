//! The harness: the configuration of a benchmark, its sample store and its
//! cumulative runtime, and the steps that turn the samples of an execution
//! into a report.
use vstd::prelude::*;
use core::marker::PhantomData;
use crate::stats::{sorted, summarize, summary_of, mean_of, Summary, MIN_SAMPLES};
use crate::store::{merge_rounds, round_samples, rounds_of_width};
use crate::report::{
    render, join_lines, lines_view, report_spec, text_of, DisplayCfg, Line, RunInfo,
};

verus! {

/// A subject to benchmark. `generate` builds a fresh instance and is not
/// timed; `test` is the operation that is timed, once per instance.
pub trait Bench: Sized {
    fn generate() -> Self;

    fn test(&mut self);
}

/// Why a harness refused to record an execution or to summarise its samples.
#[derive(Clone, Copy, Debug, PartialEq, Eq, Structural)]
pub enum BenchError {
    /// The harness was built with no workers per round.
    ZeroThreads,
    /// The harness was built with no rounds.
    ZeroRounds,
    /// An execution did not bring one sample from every worker of every
    /// round: some worker failed or could not be joined.
    IncompleteRun,
    /// The store holds fewer samples than the statistics need.
    TooFewSamples,
}

/// The sections a new harness reports: system information, a blank line,
/// mean, median and deviation, a blank line, then minimum, maximum and their
/// difference.
pub open spec fn default_sections() -> Seq<DisplayCfg> {
    seq![
        DisplayCfg::SysInfo,
        DisplayCfg::Space,
        DisplayCfg::Mean,
        DisplayCfg::Median,
        DisplayCfg::Deviation,
        DisplayCfg::Space,
        DisplayCfg::AbsMin,
        DisplayCfg::AbsMax,
        DisplayCfg::AbsDiff,
    ]
}

/// The default section list.
pub fn default_config() -> (r: Vec<DisplayCfg>)
    ensures
        r@ == default_sections(),
{
    let mut r: Vec<DisplayCfg> = Vec::new();
    r.push(DisplayCfg::SysInfo);
    r.push(DisplayCfg::Space);
    r.push(DisplayCfg::Mean);
    r.push(DisplayCfg::Median);
    r.push(DisplayCfg::Deviation);
    r.push(DisplayCfg::Space);
    r.push(DisplayCfg::AbsMin);
    r.push(DisplayCfg::AbsMax);
    r.push(DisplayCfg::AbsDiff);
    assert(r@ =~= default_sections());
    r
}

/// Whether a harness of `threads` workers and `rounds` rounds may execute.
pub open spec fn config_outcome(threads: usize, rounds: usize) -> Result<(), BenchError> {
    if threads == 0 {
        Err(BenchError::ZeroThreads)
    } else if rounds == 0 {
        Err(BenchError::ZeroRounds)
    } else {
        Ok(())
    }
}

/// Whether an execution that collected `collected`, round by round, is
/// recorded: the configuration must be usable and every round complete.
pub open spec fn record_outcome(threads: usize, rounds: usize, collected: Seq<Vec<u64>>) -> Result<
    (),
    BenchError,
> {
    match config_outcome(threads, rounds) {
        Err(e) => Err(e),
        Ok(_) => if collected.len() == rounds && rounds_of_width(collected, threads as int) {
            Ok(())
        } else {
            Err(BenchError::IncompleteRun)
        },
    }
}

/// `a + b`, or `u64::MAX` where that does not fit.
pub open spec fn add_saturated(a: u64, b: u64) -> u64 {
    if a + b > u64::MAX {
        u64::MAX
    } else {
        (a + b) as u64
    }
}

/// Runs a [`Bench`] subject in rounds of parallel workers and keeps every
/// measured latency, in nanoseconds, in a sorted sample store.
pub struct BenchMarker<T: Bench> {
    phantom: PhantomData<T>,
    time_table: Vec<u64>,
    max_threads: usize,
    max_runcount: usize,
    runtime: u64,
    runs: Ghost<nat>,
    display_config: Vec<DisplayCfg>,
}

impl<T: Bench> BenchMarker<T> {
    /// The sample store, in nanoseconds.
    pub closed spec fn spec_samples(&self) -> Seq<u64> {
        self.time_table@
    }

    /// Workers per round.
    pub closed spec fn spec_threads(&self) -> usize {
        self.max_threads
    }

    /// Rounds per execution.
    pub closed spec fn spec_rounds(&self) -> usize {
        self.max_runcount
    }

    /// Cumulative wall-clock time of all recorded executions, in nanoseconds.
    pub closed spec fn spec_runtime(&self) -> u64 {
        self.runtime
    }

    /// The sections a report shows, in order.
    pub closed spec fn spec_config(&self) -> Seq<DisplayCfg> {
        self.display_config@
    }

    /// How many executions have been recorded.
    pub closed spec fn spec_runs(&self) -> nat {
        self.runs@
    }

    /// The store is sorted ascending and holds `threads × rounds` samples for
    /// every recorded execution.
    pub open spec fn wf(&self) -> bool {
        &&& sorted(self.spec_samples())
        &&& self.spec_samples().len() == self.spec_runs() * self.spec_threads() * self.spec_rounds()
    }

    /// What a report states about the run.
    pub open spec fn spec_info(&self) -> RunInfo {
        RunInfo {
            threads: self.spec_threads(),
            samples: self.spec_samples().len() as usize,
            runtime: self.spec_runtime(),
        }
    }

    /// A harness of `max_threads` workers per round and `max_runcount`
    /// rounds, with an empty store, no runtime and the default sections.
    pub fn new(max_threads: usize, max_runcount: usize) -> (r: Self)
        ensures
            r.wf(),
            r.spec_threads() == max_threads,
            r.spec_rounds() == max_runcount,
            r.spec_samples() == Seq::<u64>::empty(),
            r.spec_runtime() == 0,
            r.spec_runs() == 0,
            r.spec_config() == default_sections(),
    {
        assert(0 * max_threads * max_runcount == 0) by (nonlinear_arith);
        Self {
            phantom: PhantomData,
            time_table: Vec::new(),
            max_threads,
            max_runcount,
            runtime: 0,
            runs: Ghost(0),
            display_config: default_config(),
        }
    }

    /// Workers per round.
    pub fn max_threads(&self) -> (r: usize)
        ensures
            r == self.spec_threads(),
    {
        self.max_threads
    }

    /// Rounds per execution.
    pub fn max_runcount(&self) -> (r: usize)
        ensures
            r == self.spec_rounds(),
    {
        self.max_runcount
    }

    /// Cumulative wall-clock time of all recorded executions, in nanoseconds.
    pub fn runtime(&self) -> (r: u64)
        ensures
            r == self.spec_runtime(),
    {
        self.runtime
    }

    /// The sample store, in nanoseconds.
    pub fn samples(&self) -> (r: &Vec<u64>)
        ensures
            r@ == self.spec_samples(),
    {
        &self.time_table
    }

    /// The sections a report shows, in order.
    pub fn display_config(&self) -> (r: &Vec<DisplayCfg>)
        ensures
            r@ == self.spec_config(),
    {
        &self.display_config
    }

    /// Replaces the sections a report shows; they may repeat or omit any kind.
    pub fn set_display_config(&mut self, config: Vec<DisplayCfg>)
        ensures
            final(self).spec_config() == config@,
            final(self).spec_samples() == old(self).spec_samples(),
            final(self).spec_threads() == old(self).spec_threads(),
            final(self).spec_rounds() == old(self).spec_rounds(),
            final(self).spec_runtime() == old(self).spec_runtime(),
            final(self).spec_runs() == old(self).spec_runs(),
    {
        self.display_config = config;
    }

    /// Fails unless the harness has at least one worker and one round; an
    /// execution calls this before it times anything.
    pub fn check_config(&self) -> (r: Result<(), BenchError>)
        ensures
            r == config_outcome(self.spec_threads(), self.spec_rounds()),
    {
        if self.max_threads == 0 {
            Err(BenchError::ZeroThreads)
        } else if self.max_runcount == 0 {
            Err(BenchError::ZeroRounds)
        } else {
            Ok(())
        }
    }

    /// Records one execution: `rounds` holds the samples of each round, in
    /// the order they were collected, and `elapsed` the wall-clock time of the
    /// whole execution. The samples join the store, which is sorted again,
    /// and `elapsed` is added to the runtime. An execution that is not
    /// complete is refused whole, and nothing changes.
    pub fn record(&mut self, rounds: Vec<Vec<u64>>, elapsed: u64) -> (r: Result<(), BenchError>)
        requires
            old(self).wf(),
        ensures
            r == record_outcome(old(self).spec_threads(), old(self).spec_rounds(), rounds@),
            final(self).wf(),
            r is Err ==> *final(self) == *old(self),
            r is Ok ==> {
                &&& final(self).spec_threads() == old(self).spec_threads()
                &&& final(self).spec_rounds() == old(self).spec_rounds()
                &&& final(self).spec_config() == old(self).spec_config()
                &&& final(self).spec_runs() == old(self).spec_runs() + 1
                &&& final(self).spec_samples().len() == old(self).spec_samples().len()
                    + old(self).spec_threads() * old(self).spec_rounds()
                &&& final(self).spec_samples().to_multiset() == old(
                    self,
                ).spec_samples().to_multiset().add(round_samples(rounds@).to_multiset())
                &&& final(self).spec_runtime() == add_saturated(old(self).spec_runtime(), elapsed)
            },
    {
        match self.check_config() {
            Err(e) => {
                return Err(e);
            },
            Ok(_) => {},
        }
        if rounds.len() != self.max_runcount {
            return Err(BenchError::IncompleteRun);
        }
        let mut k: usize = 0;
        while k < rounds.len()
            invariant
                k <= rounds.len(),
                *self == *old(self),
                self.wf(),
                self.max_threads > 0,
                self.max_runcount > 0,
                rounds.len() == self.max_runcount,
                forall|j: int| 0 <= j < k ==> #[trigger] rounds@[j]@.len() == self.max_threads,
            decreases rounds.len() - k,
        {
            if rounds[k].len() != self.max_threads {
                return Err(BenchError::IncompleteRun);
            }
            k = k + 1;
        }
        proof {
            crate::store::lemma_round_samples_len(rounds@, self.max_threads as int);
            assert((self.runs@ + 1) * self.max_threads * self.max_runcount == self.runs@
                * self.max_threads * self.max_runcount + self.max_threads * self.max_runcount)
                by (nonlinear_arith);
        }
        merge_rounds(&mut self.time_table, &rounds);
        self.runtime = self.runtime.saturating_add(elapsed);
        self.runs = Ghost(self.runs@ + 1);
        Ok(())
    }

    /// The mean of the store, or `None` while it is empty.
    pub fn mean(&self) -> (r: Option<u64>)
        ensures
            r == if self.spec_samples().len() == 0 {
                None
            } else {
                Some(mean_of(self.spec_samples()) as u64)
            },
    {
        if self.time_table.len() == 0 {
            None
        } else {
            Some(crate::stats::mean(&self.time_table))
        }
    }

    /// The summary statistics of the store, which needs `MIN_SAMPLES`.
    pub fn statistics(&self) -> (r: Result<Summary, BenchError>)
        requires
            self.wf(),
        ensures
            r == if self.spec_samples().len() >= MIN_SAMPLES {
                Ok(summary_of(self.spec_samples()))
            } else {
                Err::<Summary, BenchError>(BenchError::TooFewSamples)
            },
    {
        if self.time_table.len() < MIN_SAMPLES {
            Err(BenchError::TooFewSamples)
        } else {
            Ok(summarize(&self.time_table))
        }
    }

    /// The report as lines, each tagged with its emphasis: the sections of
    /// `display_config`, in order. The statistics are computed once.
    pub fn report_lines(&self) -> (r: Result<Vec<Line>, BenchError>)
        requires
            self.wf(),
        ensures
            match r {
                Ok(lines) => self.spec_samples().len() >= MIN_SAMPLES && lines_view(lines@)
                    == report_spec(
                    self.spec_config(),
                    self.spec_info(),
                    summary_of(self.spec_samples()),
                ),
                Err(e) => self.spec_samples().len() < MIN_SAMPLES && e == BenchError::TooFewSamples,
            },
    {
        let m = match self.statistics() {
            Ok(m) => m,
            Err(e) => {
                return Err(e);
            },
        };
        let info = RunInfo {
            threads: self.max_threads,
            samples: self.time_table.len(),
            runtime: self.runtime,
        };
        Ok(render(&self.display_config, &info, &m))
    }

    /// The report as plain text, each line ended by a line break.
    pub fn report(&self) -> (r: Result<String, BenchError>)
        requires
            self.wf(),
        ensures
            match r {
                Ok(text) => self.spec_samples().len() >= MIN_SAMPLES && text@ == text_of(
                    report_spec(
                        self.spec_config(),
                        self.spec_info(),
                        summary_of(self.spec_samples()),
                    ),
                ),
                Err(e) => self.spec_samples().len() < MIN_SAMPLES && e == BenchError::TooFewSamples,
            },
    {
        match self.report_lines() {
            Ok(lines) => Ok(join_lines(&lines)),
            Err(e) => Err(e),
        }
    }
}

} // verus!
