//! The readiness prober: bounded polling of the backend's health endpoint.
//!
//! After a start, the backend is probed until a probe succeeds or the
//! cumulative waiting time exceeds the budget. Any failed probe — transport
//! failure or a non-success status — counts the same: not ready yet, wait
//! one interval, try again.
//!
//! `Prober` carries the decision state between probes; the surrounding
//! runtime issues the actual request and sleeps. `wait_until_ready` runs
//! the same protocol over a given sequence of probe results and pins the
//! probe count and the elapsed time exactly.

use vstd::prelude::*;

verus! {

/// The verdict after one recorded probe.
pub enum ProbeStep {
    /// The probe succeeded: the backend is serving.
    Ready,
    /// The probe failed and one interval of waiting follows; probe again.
    Retry,
    /// The cumulative wait now exceeds the budget: give up.
    TimedOut,
}

/// The outcome of a whole probing run.
pub enum ProbeResult {
    Ready { probes: u64, elapsed: u64 },
    TimedOut { probes: u64, elapsed: u64 },
}

/// Decision state of one probing run. `elapsed` is the waiting time spent
/// so far, a multiple of `interval`.
pub struct Prober {
    pub interval: u64,
    pub timeout_total: u64,
    pub elapsed: u64,
}

impl Prober {
    /// The interval must be positive — a zero interval would poll forever
    /// without consuming the budget — and the budget plus one interval must
    /// fit the counter.
    pub open spec fn wf(self) -> bool {
        &&& self.interval >= 1
        &&& self.timeout_total + self.interval <= u64::MAX
    }

    /// Still within the budget: a further probe may be recorded.
    pub open spec fn active(self) -> bool {
        self.elapsed <= self.timeout_total
    }

    pub fn new(timeout_total: u64, interval: u64) -> (p: Prober)
        requires
            interval >= 1,
            timeout_total + interval <= u64::MAX,
        ensures
            p.wf(),
            p.active(),
            p.interval == interval,
            p.timeout_total == timeout_total,
            p.elapsed == 0,
    {
        Prober { interval, timeout_total, elapsed: 0 }
    }

    /// Records one probe. A success ends the run at once; a failure is
    /// followed by one interval of waiting, after which the run either
    /// goes on or, once the cumulative wait exceeds the budget, times out.
    pub fn record(&mut self, success: bool) -> (step: ProbeStep)
        requires
            old(self).wf(),
            old(self).active(),
        ensures
            final(self).wf(),
            final(self).interval == old(self).interval,
            final(self).timeout_total == old(self).timeout_total,
            success ==> step is Ready && *final(self) == *old(self),
            !success ==> final(self).elapsed == old(self).elapsed + old(self).interval,
            !success && old(self).elapsed + old(self).interval <= old(self).timeout_total
                ==> step is Retry && final(self).active(),
            !success && old(self).elapsed + old(self).interval > old(self).timeout_total
                ==> step is TimedOut,
    {
        if success {
            ProbeStep::Ready
        } else {
            self.elapsed = self.elapsed + self.interval;
            if self.elapsed > self.timeout_total {
                ProbeStep::TimedOut
            } else {
                ProbeStep::Retry
            }
        }
    }
}

/// What a finished probing run reports, given the probe results that the
/// health endpoint would supply: `outcomes[i]` is the result of probe
/// `i + 1`, and probes beyond the sequence fail.
pub open spec fn probe_report_valid(
    r: ProbeResult,
    outcomes: Seq<bool>,
    timeout_total: u64,
    interval: u64,
) -> bool {
    match r {
        ProbeResult::Ready { probes, elapsed } => {
            &&& 1 <= probes
            &&& probes - 1 < outcomes.len()
            &&& outcomes[probes - 1]
            &&& forall|j: int| 0 <= j < probes - 1 ==> !outcomes[j]
            &&& elapsed == (probes - 1) * interval
            &&& elapsed <= timeout_total
        },
        ProbeResult::TimedOut { probes, elapsed } => {
            &&& elapsed == probes * interval
            &&& elapsed > timeout_total
            &&& elapsed <= timeout_total + interval
            &&& forall|j: int| 0 <= j < probes && j < outcomes.len() ==> !outcomes[j]
        },
    }
}

/// Runs the probing protocol over the given probe results: succeed on the
/// first successful probe, otherwise wait one interval per failure until
/// the cumulative wait exceeds the budget.
pub fn wait_until_ready(outcomes: &Vec<bool>, timeout_total: u64, interval: u64) -> (r:
    ProbeResult)
    requires
        interval >= 1,
        timeout_total + interval <= u64::MAX,
    ensures
        probe_report_valid(r, outcomes@, timeout_total, interval),
{
    let mut fails: u64 = 0;
    let mut elapsed: u64 = 0;
    let mut idx: usize = 0;
    loop
        invariant
            interval >= 1,
            timeout_total + interval <= u64::MAX,
            elapsed == fails * interval,
            elapsed <= timeout_total,
            idx as int == if fails as int <= outcomes@.len() {
                fails as int
            } else {
                outcomes@.len() as int
            },
            forall|j: int| 0 <= j < fails && j < outcomes@.len() ==> !outcomes@[j],
        decreases timeout_total - elapsed,
    {
        let ok: bool = if idx < outcomes.len() {
            outcomes[idx]
        } else {
            false
        };
        proof {
            assert(fails <= elapsed) by (nonlinear_arith)
                requires
                    elapsed == fails * interval,
                    interval >= 1,
            ;
        }
        if ok {
            return ProbeResult::Ready { probes: fails + 1, elapsed };
        }
        proof {
            assert((fails + 1) * interval == fails * interval + interval) by (nonlinear_arith);
        }
        let new_elapsed = elapsed + interval;
        fails = fails + 1;
        if idx < outcomes.len() {
            idx = idx + 1;
        }
        elapsed = new_elapsed;
        if elapsed > timeout_total {
            return ProbeResult::TimedOut { probes: fails, elapsed };
        }
    }
}

/// A health endpoint that fails exactly `n` probes and then succeeds is
/// seen ready after exactly `n + 1` probes, with a cumulative wait of
/// exactly `n` intervals — provided the budget admits the `n` waits.
pub proof fn lemma_probe_count_exact(
    r: ProbeResult,
    outcomes: Seq<bool>,
    timeout_total: u64,
    interval: u64,
    n: int,
)
    requires
        interval >= 1,
        probe_report_valid(r, outcomes, timeout_total, interval),
        0 <= n < outcomes.len(),
        outcomes[n],
        forall|j: int| 0 <= j < n ==> !outcomes[j],
        n * interval <= timeout_total,
    ensures
        r matches ProbeResult::Ready { probes, elapsed } && probes == n + 1 && elapsed == n
            * interval,
{
    match r {
        ProbeResult::TimedOut { probes, elapsed } => {
            assert(n < probes) by (nonlinear_arith)
                requires
                    elapsed == probes * interval,
                    elapsed > timeout_total,
                    n * interval <= timeout_total,
                    interval >= 1,
                    n >= 0,
            ;
            assert(!outcomes[n]);
        },
        ProbeResult::Ready { probes, elapsed } => {
            if probes - 1 < n {
                assert(!outcomes[probes - 1]);
            } else if probes - 1 > n {
                assert(!outcomes[n]);
            }
        },
    }
}

/// A health endpoint that never succeeds makes every probing run time out,
/// with a cumulative wait beyond the whole budget.
pub proof fn lemma_never_ready_times_out(
    r: ProbeResult,
    outcomes: Seq<bool>,
    timeout_total: u64,
    interval: u64,
)
    requires
        probe_report_valid(r, outcomes, timeout_total, interval),
        forall|j: int| 0 <= j < outcomes.len() ==> !outcomes[j],
    ensures
        r matches ProbeResult::TimedOut { probes, elapsed } && elapsed > timeout_total,
{
    match r {
        ProbeResult::Ready { probes, elapsed } => {
            assert(!outcomes[probes - 1]);
        },
        ProbeResult::TimedOut { .. } => {},
    }
}

} // verus!
