//! Jobs for a cron scheduler.

use vstd::prelude::*;

verus! {

/// A task together with the cron expression that says when it runs.
pub struct CronJob<F> {
    /// The schedule, in cron syntax with seconds.
    pub cron_expr: String,
    /// What to run.
    pub callback: F,
}

impl<F> CronJob<F> {
    /// A job of the given schedule and task. The expression is kept as it is;
    /// the scheduler reads it when the job is added.
    pub fn new(cron_expr: String, callback: F) -> (r: CronJob<F>)
        ensures
            r.cron_expr == cron_expr,
            r.callback == callback,
    {
        CronJob { cron_expr, callback }
    }
}

} // verus!
