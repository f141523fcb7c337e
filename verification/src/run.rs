//! Outcomes of running a job.
//!
//! A job's run operation initiates its effect and reports whether initiation
//! succeeded; it never waits for the effect to finish. The outcome carries a
//! human-readable message and is reported where the job ran — it is never
//! handed back to the dispatcher, the worker or the builder, so one job's
//! failure cannot halt its siblings or the schedule.

use vstd::prelude::*;

verus! {

/// A job's effect was initiated.
#[derive(Debug, Clone)]
pub struct RunSuccess {
    message: String,
}

/// A job's effect failed to initiate.
#[derive(Debug, Clone)]
pub struct RunError {
    message: String,
}

impl View for RunSuccess {
    type V = Seq<char>;

    closed spec fn view(&self) -> Seq<char> {
        self.message@
    }
}

impl View for RunError {
    type V = Seq<char>;

    closed spec fn view(&self) -> Seq<char> {
        self.message@
    }
}

impl RunSuccess {
    pub fn new(message: String) -> (r: Self)
        ensures
            r@ == message@,
    {
        RunSuccess { message }
    }

    /// The human-readable report of this outcome.
    pub fn message(&self) -> (m: &String)
        ensures
            m@ == self@,
    {
        &self.message
    }
}

impl RunError {
    pub fn new(message: String) -> (r: Self)
        ensures
            r@ == message@,
    {
        RunError { message }
    }

    /// The human-readable report of this outcome.
    pub fn message(&self) -> (m: &String)
        ensures
            m@ == self@,
    {
        &self.message
    }
}

/// The outcome a run reports, by whether the effect's initiation succeeded:
/// the messages of the two outcomes, as sequences of characters.
pub open spec fn spec_run_outcome(initiated: bool) -> Result<Seq<char>, Seq<char>> {
    if initiated {
        Ok("Notification thrown"@)
    } else {
        Err("Notification failed to throw"@)
    }
}

/// The outcomes of one dispatch, one per job: the `k`-th job's outcome is a
/// function of the `k`-th initiation result alone.
pub open spec fn spec_tick_outcomes(initiated: Seq<bool>) -> Seq<Result<Seq<char>, Seq<char>>> {
    Seq::new(initiated.len(), |k: int| spec_run_outcome(initiated[k]))
}

/// One job's failure to initiate is isolated: over two dispatches of the same
/// job list whose initiation results differ only at position `k`, every other
/// job's outcome is unchanged, every job still gets an outcome, and the
/// failed position reports an error. (A worker's later fire times cannot
/// depend on outcomes at all: `Timing::fire_time` is a function of the timing
/// policy alone.)
pub proof fn lemma_run_error_isolated(a: Seq<bool>, b: Seq<bool>, k: int)
    requires
        a.len() == b.len(),
        0 <= k < a.len(),
        forall|j: int| 0 <= j < a.len() && j != k ==> a[j] == b[j],
    ensures
        spec_tick_outcomes(a).len() == a.len(),
        forall|j: int|
            0 <= j < a.len() && j != k ==> spec_tick_outcomes(a)[j] == spec_tick_outcomes(b)[j],
        !a[k] ==> spec_tick_outcomes(a)[k] is Err,
{
}

} // verus!
