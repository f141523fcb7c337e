//! The dispatcher: immediate fan-out of a job set.

use vstd::prelude::*;
use crate::config::{ConfigError, ConfigValue};
use crate::job::{Job, JobView, jobs_from_values, spec_jobs};

verus! {

/// A transient fan-out executor over an ordered list of jobs. Its single
/// dispatch operation consumes it and yields every job, in initiation order,
/// for the caller to fire — independently and without waiting on completion.
#[derive(Debug)]
pub struct Dispatcher {
    jobs: Vec<Job>,
}

impl View for Dispatcher {
    type V = Seq<JobView>;

    closed spec fn view(&self) -> Seq<JobView> {
        self.jobs.deep_view()
    }
}

/// The job list a configuration value decodes a dispatcher from: the array
/// under `jobs`, or an empty list where that key is absent or mistyped.
pub open spec fn spec_dispatcher(v: ConfigValue) -> Result<Seq<JobView>, ConfigError> {
    spec_jobs(v.spec_items("jobs"@))
}

impl Dispatcher {
    pub fn new(jobs: Vec<Job>) -> (r: Self)
        ensures
            r@ == jobs.deep_view(),
    {
        Dispatcher { jobs }
    }

    /// Exhausts this dispatcher: every job it held, in initiation order,
    /// unconditionally — no job's outcome can keep a sibling out of the list.
    /// The caller fires each job in turn, fire-and-forget.
    pub fn dispatch(self) -> (jobs: Vec<Job>)
        ensures
            jobs.deep_view() == self@,
    {
        self.jobs
    }

    /// Decodes a dispatcher from a configuration value.
    pub fn new_from_value(v: &ConfigValue) -> (r: Result<Dispatcher, ConfigError>)
        ensures
            match spec_dispatcher(*v) {
                Ok(js) => r matches Ok(d) && d@ == js,
                Err(e) => r matches Err(e2) && e2 == e,
            },
    {
        let jobs = match jobs_of_value(v) {
            Ok(jobs) => jobs,
            Err(e) => {
                return Err(e);
            },
        };
        Ok(Dispatcher { jobs })
    }
}

/// Decodes the job list under a value's `jobs` key, an absent or mistyped
/// key reading as the empty list.
pub(crate) fn jobs_of_value(v: &ConfigValue) -> (r: Result<Vec<Job>, ConfigError>)
    ensures
        match spec_jobs(v.spec_items("jobs"@)) {
            Ok(js) => r matches Ok(jobs) && jobs.deep_view() == js,
            Err(e) => r matches Err(e2) && e2 == e,
        },
{
    match v.get("jobs") {
        Some(c) => match c {
            ConfigValue::Arr(items) => jobs_from_values(items),
            _ => {
                let out: Vec<Job> = Vec::new();
                proof {
                    assert(out.deep_view() =~= Seq::<JobView>::empty());
                }
                Ok(out)
            },
        },
        None => {
            let out: Vec<Job> = Vec::new();
            proof {
                assert(out.deep_view() =~= Seq::<JobView>::empty());
            }
            Ok(out)
        },
    }
}

} // verus!
