//! Workers: one timing policy bound to a job set.

use vstd::prelude::*;
use crate::config::{ConfigError, ConfigValue};
use crate::dispatcher::jobs_of_value;
use crate::job::{Job, JobView, spec_jobs};
use crate::timing::Timing;

verus! {

/// A scheduled unit: one timing policy and the ordered list of jobs that
/// fire together on each tick. A worker is immutable after construction; the
/// caller registers it with the runtime and, at each instant
/// `timing().fire_time(n)`, dispatches (a copy of) its job set.
#[derive(Debug, Clone, PartialEq)]
pub struct Worker {
    timing: Timing,
    jobs: Vec<Job>,
}

/// What a `Worker` holds: its timing policy and its jobs.
pub struct WorkerView {
    pub timing: Timing,
    pub jobs: Seq<JobView>,
}

impl View for Worker {
    type V = WorkerView;

    closed spec fn view(&self) -> WorkerView {
        WorkerView { timing: self.timing, jobs: self.jobs.deep_view() }
    }
}

impl DeepView for Worker {
    type V = WorkerView;

    open spec fn deep_view(&self) -> WorkerView {
        self.view()
    }
}

/// The worker a configuration value decodes to: its timing from the value's
/// own `delay` and `interval` keys, its jobs from the array under `jobs`.
pub open spec fn spec_worker(v: ConfigValue) -> Result<WorkerView, ConfigError> {
    match spec_jobs(v.spec_items("jobs"@)) {
        Ok(js) => Ok(WorkerView { timing: Timing::spec_of(v), jobs: js }),
        Err(e) => Err(e),
    }
}

impl Worker {
    pub fn new(timing: Timing, jobs: Vec<Job>) -> (r: Self)
        ensures
            r@.timing == timing,
            r@.jobs == jobs.deep_view(),
    {
        Worker { timing, jobs }
    }

    /// Decodes a worker from a configuration value.
    pub fn new_from_value(v: &ConfigValue) -> (r: Result<Worker, ConfigError>)
        ensures
            match spec_worker(*v) {
                Ok(wv) => r matches Ok(w) && w@ == wv,
                Err(e) => r matches Err(e2) && e2 == e,
            },
    {
        let timing = Timing::new_from_value(v);
        match jobs_of_value(v) {
            Ok(jobs) => Ok(Worker { timing, jobs }),
            Err(e) => Err(e),
        }
    }

    /// This worker's timing policy.
    pub fn timing(&self) -> (t: Timing)
        ensures
            t == self@.timing,
    {
        self.timing
    }

    /// This worker's jobs, in the order they are initiated on each tick.
    pub fn jobs(&self) -> (js: &Vec<Job>)
        ensures
            js.deep_view() == self@.jobs,
    {
        &self.jobs
    }
}

} // verus!
