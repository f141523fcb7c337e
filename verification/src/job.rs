//! Jobs: the closed set of executable work variants.

use vstd::prelude::*;
use crate::config::{ConfigError, ConfigValue};
use crate::shell_command::{ShellCommand, ShellCommandView, spec_shell_command};

verus! {

/// A unit of executable work: one of a closed set of variants, each owning
/// all the data its execution needs. A job is immutable after construction
/// and cheaply duplicable, so a recurring worker can dispatch the same job
/// set on every tick.
#[derive(Debug, Clone, PartialEq)]
pub enum Job {
    Shell(ShellCommand),
}

/// What a `Job` holds, variant by variant.
pub enum JobView {
    Shell(ShellCommandView),
}

impl View for Job {
    type V = JobView;

    closed spec fn view(&self) -> JobView {
        match self {
            Job::Shell(sc) => JobView::Shell(sc@),
        }
    }
}

impl DeepView for Job {
    type V = JobView;

    open spec fn deep_view(&self) -> JobView {
        self.view()
    }
}

/// The job a configuration value decodes to. The mapping from the `kind`
/// discriminator to a variant is closed: a missing `kind` selects the
/// shell-command variant (the default), the string `"shell-command"` selects
/// it by name, and any other `kind` fails construction explicitly.
pub open spec fn spec_job(v: ConfigValue) -> Result<JobView, ConfigError> {
    match v.spec_field("kind"@) {
        None => Ok(JobView::Shell(spec_shell_command(v))),
        Some(k) => match k {
            ConfigValue::Str(s) => if s@ == "shell-command"@ {
                Ok(JobView::Shell(spec_shell_command(v)))
            } else {
                Err(ConfigError::UnknownJobKind)
            },
            _ => Err(ConfigError::UnknownJobKind),
        },
    }
}

/// The job list an array of configuration values decodes to, in order; the
/// leftmost failing job decides the error.
pub open spec fn spec_jobs(items: Seq<ConfigValue>) -> Result<Seq<JobView>, ConfigError>
    decreases items.len(),
{
    if items.len() == 0 {
        Ok(Seq::empty())
    } else {
        match spec_job(items[0]) {
            Err(e) => Err(e),
            Ok(j) => match spec_jobs(items.drop_first()) {
                Err(e) => Err(e),
                Ok(rest) => Ok(seq![j] + rest),
            },
        }
    }
}

impl Job {
    /// Decodes one job from a configuration value, dispatching on `kind`.
    pub fn new_from_value(v: &ConfigValue) -> (r: Result<Job, ConfigError>)
        ensures
            match spec_job(*v) {
                Ok(jv) => r matches Ok(j) && j@ == jv,
                Err(e) => r matches Err(e2) && e2 == e,
            },
    {
        match v.get("kind") {
            None => Ok(Job::Shell(ShellCommand::new_from_value(v))),
            Some(k) => match k {
                ConfigValue::Str(s) => {
                    let known: String = "shell-command".to_owned();
                    if *s == known {
                        Ok(Job::Shell(ShellCommand::new_from_value(v)))
                    } else {
                        Err(ConfigError::UnknownJobKind)
                    }
                },
                _ => Err(ConfigError::UnknownJobKind),
            },
        }
    }
}

/// Decodes a job list from an array of configuration values, keeping order
/// and failing on the leftmost job that fails.
pub(crate) fn jobs_from_values(items: &Vec<ConfigValue>) -> (r: Result<Vec<Job>, ConfigError>)
    ensures
        match spec_jobs(items@) {
            Ok(js) => r matches Ok(v) && v.deep_view() == js,
            Err(e) => r matches Err(e2) && e2 == e,
        },
{
    proof {
        assert(items@.skip(0) =~= items@);
    }
    jobs_from_values_at(items, 0)
}

fn jobs_from_values_at(items: &Vec<ConfigValue>, i: usize) -> (r: Result<Vec<Job>, ConfigError>)
    requires
        i <= items.len(),
    ensures
        match spec_jobs(items@.skip(i as int)) {
            Ok(js) => r matches Ok(v) && v.deep_view() == js,
            Err(e) => r matches Err(e2) && e2 == e,
        },
    decreases items.len() - i,
{
    if i == items.len() {
        let out: Vec<Job> = Vec::new();
        proof {
            assert(items@.skip(i as int) =~= Seq::<ConfigValue>::empty());
            assert(out.deep_view() =~= Seq::<JobView>::empty());
        }
        Ok(out)
    } else {
        proof {
            assert(items@.skip(i as int)[0] == items@[i as int]);
            assert(items@.skip(i as int).drop_first() =~= items@.skip(i as int + 1));
        }
        match Job::new_from_value(&items[i]) {
            Err(e) => Err(e),
            Ok(j) => match jobs_from_values_at(items, i + 1) {
                Err(e) => Err(e),
                Ok(rest) => {
                    let mut out = rest;
                    out.insert(0, j);
                    proof {
                        let js = spec_jobs(items@.skip(i as int))->Ok_0;
                        assert(out.deep_view() =~= js);
                    }
                    Ok(out)
                },
            },
        }
    }
}

} // verus!
