//! The run's dispatcher: which files become jobs, how many jobs hold a
//! permit at once, when a failed job is retried, and when the run may clean
//! up. The caller performs the work and reports back; every decision is here.

use vstd::prelude::*;

use crate::classify::Actions;
use crate::engine::{fallback_params, EncodeParams};

verus! {

/// The stage a run is in.
#[derive(Debug, Clone, Copy, PartialEq, Eq, Structural)]
pub enum Phase {
    /// Nothing has started.
    Idle,
    /// The directory is walked and its files dispatched.
    Walking,
    /// The walk is over; the jobs still running are awaited.
    Draining,
    /// Every job has ended; empty output files are removed.
    CleaningUp,
    /// The run is complete.
    Done,
}

/// The two kinds of job.
#[derive(Debug, Clone, Copy, PartialEq, Eq, Structural)]
pub enum JobKind {
    /// Encode to WebP.
    Convert,
    /// Copy a WebP file as it is.
    Copy,
}

/// Which try of a job has ended.
#[derive(Debug, Clone, Copy, PartialEq, Eq, Structural)]
pub enum Attempt {
    /// The first try, with the user's settings.
    Primary,
    /// The one retry, with the fixed fallback settings.
    Fallback,
}

/// The answer to a file found by the walk.
#[derive(Debug, Clone, Copy, PartialEq, Eq, Structural)]
pub enum Admission {
    /// A permit is taken: run the job.
    Start(JobKind),
    /// The file is not handled: warn and move on.
    Skip,
    /// Every permit is held: wait for a job to end, then offer the file again.
    Wait,
}

/// The answer to the end of a try.
#[derive(Debug, Clone, Copy, PartialEq, Eq, Structural)]
pub enum Next {
    /// Run the job again, keeping its permit, with these settings.
    Retry(EncodeParams),
    /// The job is over and its permit is released.
    Released,
}

/// How many files each outcome had.
#[derive(Debug, Clone, Copy, PartialEq, Eq, Structural)]
pub struct RunSummary {
    /// Files encoded, at the first try or at the retry.
    pub converted: u64,
    /// WebP files copied.
    pub copied: u64,
    /// Files of no handled kind.
    pub skipped: u64,
    /// Files whose job failed for good.
    pub failed: u64,
}

/// A count plus one, held at `u64::MAX`.
pub open spec fn bump(n: u64) -> u64 {
    if n < u64::MAX {
        (n + 1) as u64
    } else {
        n
    }
}

fn bump_count(n: u64) -> (r: u64)
    ensures
        r == bump(n),
{
    if n < u64::MAX {
        n + 1
    } else {
        n
    }
}

/// The number of jobs that may run at once on a machine with `cores`
/// cores: one core is left to the system, and at least one job runs.
pub open spec fn concurrency_for(cores: nat) -> nat {
    if cores > 2 {
        (cores - 1) as nat
    } else {
        1
    }
}

/// Computes `concurrency_for(cores)`.
pub fn max_concurrency(cores: usize) -> (r: usize)
    ensures
        r == concurrency_for(cores as nat),
        r >= 1,
{
    if cores > 2 {
        cores - 1
    } else {
        1
    }
}

/// Relies on `num_cpus::get`: the number of logical cores available to this
/// process, documented to be at least 1.
#[verifier::external_body]
fn available_cores() -> (r: usize)
    ensures
        r >= 1,
{
    num_cpus::get()
}

/// The state of a scheduler, as its contracts see it.
pub struct SchedulerView {
    pub capacity: nat,
    pub in_flight: nat,
    pub phase: Phase,
    pub summary: RunSummary,
}

impl SchedulerView {
    /// The scheduler's invariant: there is at least one permit, no more
    /// jobs hold a permit than there are permits, and outside the walk and
    /// the drain no job runs.
    pub open spec fn wf(self) -> bool {
        &&& self.capacity >= 1
        &&& self.in_flight <= self.capacity
        &&& (self.phase == Phase::Idle || self.phase == Phase::CleaningUp || self.phase == Phase::Done)
            ==> self.in_flight == 0
    }
}

/// The empty summary.
pub open spec fn no_files() -> RunSummary {
    RunSummary { converted: 0, copied: 0, skipped: 0, failed: 0 }
}

/// Dispatches the jobs of one run over a fixed pool of permits.
pub struct Scheduler {
    capacity: usize,
    in_flight: usize,
    phase: Phase,
    summary: RunSummary,
}

impl View for Scheduler {
    type V = SchedulerView;

    closed spec fn view(&self) -> SchedulerView {
        SchedulerView {
            capacity: self.capacity as nat,
            in_flight: self.in_flight as nat,
            phase: self.phase,
            summary: self.summary,
        }
    }
}

impl Scheduler {
    /// A scheduler for a machine with `cores` cores, before its run starts.
    pub fn new(cores: usize) -> (r: Scheduler)
        ensures
            r@.wf(),
            r@.capacity == concurrency_for(cores as nat),
            r@.in_flight == 0,
            r@.phase == Phase::Idle,
            r@.summary == no_files(),
    {
        Scheduler {
            capacity: max_concurrency(cores),
            in_flight: 0,
            phase: Phase::Idle,
            summary: RunSummary { converted: 0, copied: 0, skipped: 0, failed: 0 },
        }
    }

    /// A scheduler sized for the cores available to this process.
    pub fn for_this_machine() -> (r: Scheduler)
        ensures
            r@.wf(),
            exists|cores: nat| cores >= 1 && r@.capacity == concurrency_for(cores),
            r@.in_flight == 0,
            r@.phase == Phase::Idle,
            r@.summary == no_files(),
    {
        let cores = available_cores();
        Scheduler::new(cores)
    }

    /// The number of permits.
    pub fn capacity(&self) -> (r: usize)
        ensures
            r == self@.capacity,
    {
        self.capacity
    }

    /// The number of jobs that hold a permit.
    pub fn in_flight(&self) -> (r: usize)
        ensures
            r == self@.in_flight,
    {
        self.in_flight
    }

    /// The stage of the run.
    pub fn phase(&self) -> (r: Phase)
        ensures
            r == self@.phase,
    {
        self.phase
    }

    /// The outcomes counted so far.
    pub fn summary(&self) -> (r: RunSummary)
        ensures
            r == self@.summary,
    {
        self.summary
    }

    /// Opens the walk. Only an idle scheduler starts; otherwise nothing
    /// changes and `false` is returned.
    pub fn start_walk(&mut self) -> (r: bool)
        requires
            old(self)@.wf(),
        ensures
            final(self)@.wf(),
            r == (old(self)@.phase == Phase::Idle),
            r ==> final(self)@ == (SchedulerView { phase: Phase::Walking, ..old(self)@ }),
            !r ==> final(self)@ == old(self)@,
    {
        if self.phase == Phase::Idle {
            self.phase = Phase::Walking;
            true
        } else {
            false
        }
    }

    /// Offers a file of the walk, classified as `action`. A file of no
    /// handled kind is skipped; another takes a permit when one is free, and
    /// waits otherwise.
    pub fn dispatch(&mut self, action: Actions) -> (r: Admission)
        requires
            old(self)@.wf(),
            old(self)@.phase == Phase::Walking,
        ensures
            final(self)@.wf(),
            final(self)@.in_flight <= final(self)@.capacity,
            action == Actions::Nothing ==> r == Admission::Skip && final(self)@ == (SchedulerView {
                summary: RunSummary { skipped: bump(old(self)@.summary.skipped), ..old(self)@.summary },
                ..old(self)@
            }),
            action != Actions::Nothing && old(self)@.in_flight == old(self)@.capacity ==> r
                == Admission::Wait && final(self)@ == old(self)@,
            action != Actions::Nothing && old(self)@.in_flight < old(self)@.capacity ==> {
                &&& r == Admission::Start(
                    if action == Actions::Convert {
                        JobKind::Convert
                    } else {
                        JobKind::Copy
                    },
                )
                &&& final(self)@ == (SchedulerView { in_flight: old(self)@.in_flight + 1, ..old(self)@ })
            },
    {
        match action {
            Actions::Nothing => {
                self.summary.skipped = bump_count(self.summary.skipped);
                Admission::Skip
            },
            _ => {
                if self.in_flight == self.capacity {
                    Admission::Wait
                } else {
                    self.in_flight = self.in_flight + 1;
                    if action == Actions::Convert {
                        Admission::Start(JobKind::Convert)
                    } else {
                        Admission::Start(JobKind::Copy)
                    }
                }
            },
        }
    }

    /// Reports the end of a try of a running job. A conversion that failed at
    /// its first try is retried once with the fallback settings, keeping its
    /// permit; any other end releases the permit and counts the outcome.
    pub fn job_finished(&mut self, kind: JobKind, attempt: Attempt, succeeded: bool) -> (r: Next)
        requires
            old(self)@.wf(),
            old(self)@.phase == Phase::Walking || old(self)@.phase == Phase::Draining,
            old(self)@.in_flight > 0,
        ensures
            final(self)@.wf(),
            final(self)@.in_flight <= final(self)@.capacity,
            (kind == JobKind::Convert && attempt == Attempt::Primary && !succeeded) ==> r
                == Next::Retry(fallback_params()) && final(self)@ == old(self)@,
            !(kind == JobKind::Convert && attempt == Attempt::Primary && !succeeded) ==> {
                &&& r == Next::Released
                &&& final(self)@.in_flight == old(self)@.in_flight - 1
                &&& final(self)@.capacity == old(self)@.capacity
                &&& final(self)@.phase == old(self)@.phase
                &&& final(self)@.summary == counted(old(self)@.summary, kind, succeeded)
            },
    {
        if kind == JobKind::Convert && attempt == Attempt::Primary && !succeeded {
            return Next::Retry(EncodeParams::fallback());
        }
        self.in_flight = self.in_flight - 1;
        if !succeeded {
            self.summary.failed = bump_count(self.summary.failed);
        } else if kind == JobKind::Convert {
            self.summary.converted = bump_count(self.summary.converted);
        } else {
            self.summary.copied = bump_count(self.summary.copied);
        }
        Next::Released
    }

    /// Closes the walk: from now on only the running jobs are awaited. Only
    /// a walking scheduler changes; the result says whether it did.
    pub fn finish_walk(&mut self) -> (r: bool)
        requires
            old(self)@.wf(),
        ensures
            final(self)@.wf(),
            r == (old(self)@.phase == Phase::Walking),
            r ==> final(self)@ == (SchedulerView { phase: Phase::Draining, ..old(self)@ }),
            !r ==> final(self)@ == old(self)@,
    {
        if self.phase == Phase::Walking {
            self.phase = Phase::Draining;
            true
        } else {
            false
        }
    }

    /// Starts the clean-up once the walk is closed and every job has ended;
    /// before that nothing changes and `false` is returned.
    pub fn begin_cleanup(&mut self) -> (r: bool)
        requires
            old(self)@.wf(),
        ensures
            final(self)@.wf(),
            r == (old(self)@.phase == Phase::Draining && old(self)@.in_flight == 0),
            r ==> final(self)@ == (SchedulerView { phase: Phase::CleaningUp, ..old(self)@ }),
            !r ==> final(self)@ == old(self)@,
    {
        if self.phase == Phase::Draining && self.in_flight == 0 {
            self.phase = Phase::CleaningUp;
            true
        } else {
            false
        }
    }

    /// Ends the run after its clean-up; in any other stage nothing changes
    /// and `false` is returned.
    pub fn finish(&mut self) -> (r: bool)
        requires
            old(self)@.wf(),
        ensures
            final(self)@.wf(),
            r == (old(self)@.phase == Phase::CleaningUp),
            r ==> final(self)@ == (SchedulerView { phase: Phase::Done, ..old(self)@ }),
            !r ==> final(self)@ == old(self)@,
    {
        if self.phase == Phase::CleaningUp {
            self.phase = Phase::Done;
            true
        } else {
            false
        }
    }
}

/// `summary` after one job of `kind` ended for good.
pub open spec fn counted(summary: RunSummary, kind: JobKind, succeeded: bool) -> RunSummary {
    if !succeeded {
        RunSummary { failed: bump(summary.failed), ..summary }
    } else if kind == JobKind::Convert {
        RunSummary { converted: bump(summary.converted), ..summary }
    } else {
        RunSummary { copied: bump(summary.copied), ..summary }
    }
}

} // verus!
