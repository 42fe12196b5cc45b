//! Waiting for a started service to answer: a liveness probe at fixed
//! intervals, given up after a timeout. The host probes and sleeps; the
//! checker says what to do next.

use crate::text::{decimal, decimal_string};
use vstd::prelude::*;
use vstd::string::*;

verus! {

/// For how long a started service is probed unless told otherwise, in
/// milliseconds.
pub const DEFAULT_READY_TIMEOUT_MS: u64 = 10000;

/// How long the host sleeps between two probes unless told otherwise, in
/// milliseconds.
pub const DEFAULT_POLL_INTERVAL_MS: u64 = 500;

/// What a health check came to.
#[derive(Clone, Copy, PartialEq, Eq, Structural, Debug)]
pub enum Readiness {
    /// A probe was answered.
    Ready,
    /// No probe was answered in time. The service keeps running: this is a
    /// warning, not a reason to stop it.
    TimedOut,
}

/// What the host does after a probe.
#[derive(Clone, Copy, PartialEq, Eq, Structural, Debug)]
pub enum HealthAction {
    /// Sleep for so many milliseconds, then probe again.
    ProbeAfter(u64),
    /// Stop probing.
    Done(Readiness),
}

/// How many probes may follow the first: one for each full interval that
/// fits into the timeout, none where the interval is zero.
pub open spec fn retries_within(timeout_ms: u64, poll_interval_ms: u64) -> nat {
    if poll_interval_ms == 0 {
        0
    } else {
        (timeout_ms as nat) / (poll_interval_ms as nat)
    }
}

/// Whether one of the first `count` of `answers` is a success.
pub open spec fn answered_within(answers: Seq<bool>, count: nat) -> bool {
    exists|i: int| 0 <= i < answers.len() && i < count && answers[i]
}

/// What a check with `retries` retries has come to after the probes
/// `answers`: ready once a probe among the first `retries + 1` succeeded,
/// timed out once that many have failed, undecided before.
pub open spec fn verdict_after(retries: nat, answers: Seq<bool>) -> Option<Readiness> {
    if answered_within(answers, retries + 1) {
        Some(Readiness::Ready)
    } else if answers.len() > retries {
        Some(Readiness::TimedOut)
    } else {
        None
    }
}

/// The address that a liveness probe of the service on `port` asks.
pub open spec fn health_url(port: u16) -> Seq<char> {
    "http://localhost:"@ + decimal(port as nat) + "/health"@
}

/// The address that a liveness probe of the service on `port` asks.
pub fn probe_url(port: u16) -> (r: String)
    ensures
        r@ == health_url(port),
{
    let mut r = "http://localhost:".to_owned();
    r.append(decimal_string(port).as_str());
    r.append("/health");
    r
}

/// The warning for a service on `port` that did not answer in time.
pub open spec fn timeout_text(port: u16) -> Seq<char> {
    "[Desktop] Server on port "@ + decimal(port as nat) + " did not become ready in time"@
}

/// The warning for a service on `port` that did not answer in time. It is
/// only a warning: the service is left running.
pub fn timeout_warning(port: u16) -> (r: String)
    ensures
        r@ == timeout_text(port),
{
    let mut r = "[Desktop] Server on port ".to_owned();
    r.append(decimal_string(port).as_str());
    r.append(" did not become ready in time");
    r
}

/// A health check in progress.
#[derive(Debug, PartialEq, Eq)]
pub struct HealthChecker {
    /// The port that is probed.
    pub port: u16,
    /// How long the host sleeps between probes, in milliseconds.
    pub poll_interval_ms: u64,
    /// How many more probes may fail before the check gives up.
    pub retries_left: u64,
    /// What the check came to, once it is over.
    pub verdict: Option<Readiness>,
}

impl HealthChecker {
    /// A check of the service on `port` that probes at once and then every
    /// `poll_interval_ms` milliseconds for as long as `timeout_ms` allows.
    pub fn new(port: u16, timeout_ms: u64, poll_interval_ms: u64) -> (r: HealthChecker)
        ensures
            r.port == port,
            r.poll_interval_ms == poll_interval_ms,
            r.retries_left == retries_within(timeout_ms, poll_interval_ms),
            r.verdict is None,
    {
        let retries_left: u64 = if poll_interval_ms == 0 {
            0
        } else {
            timeout_ms / poll_interval_ms
        };
        HealthChecker { port, poll_interval_ms, retries_left, verdict: None }
    }

    /// Takes up the outcome of one probe. A check that is over stays over
    /// and repeats its verdict. Otherwise a success ends it as ready; a
    /// failure ends it as timed out when no retry is left, and else uses up
    /// one retry and asks for another probe after the interval.
    pub fn on_probe(&mut self, alive: bool) -> (action: HealthAction)
        ensures
            final(self).port == old(self).port,
            final(self).poll_interval_ms == old(self).poll_interval_ms,
            match old(self).verdict {
                Some(verdict) => *final(self) == *old(self) && action == HealthAction::Done(
                    verdict,
                ),
                None => if alive {
                    &&& action == HealthAction::Done(Readiness::Ready)
                    &&& final(self).verdict == Some(Readiness::Ready)
                    &&& final(self).retries_left == old(self).retries_left
                } else if old(self).retries_left == 0 {
                    &&& action == HealthAction::Done(Readiness::TimedOut)
                    &&& final(self).verdict == Some(Readiness::TimedOut)
                    &&& final(self).retries_left == 0
                } else {
                    &&& action == HealthAction::ProbeAfter(old(self).poll_interval_ms)
                    &&& final(self).verdict is None
                    &&& final(self).retries_left == old(self).retries_left - 1
                },
            },
    {
        if let Some(verdict) = self.verdict {
            return HealthAction::Done(verdict);
        }
        if alive {
            self.verdict = Some(Readiness::Ready);
            HealthAction::Done(Readiness::Ready)
        } else if self.retries_left == 0 {
            self.verdict = Some(Readiness::TimedOut);
            HealthAction::Done(Readiness::TimedOut)
        } else {
            self.retries_left -= 1;
            HealthAction::ProbeAfter(self.poll_interval_ms)
        }
    }
}

/// Runs a whole check over the outcomes of the probes that the host made, in
/// order, and says what it has come to: `None` while more probes are due.
pub fn wait_ready(port: u16, timeout_ms: u64, poll_interval_ms: u64, answers: &Vec<bool>) -> (r:
    Option<Readiness>)
    ensures
        r == verdict_after(retries_within(timeout_ms, poll_interval_ms), answers@),
{
    let mut checker = HealthChecker::new(port, timeout_ms, poll_interval_ms);
    let ghost retries = retries_within(timeout_ms, poll_interval_ms);
    let mut i: usize = 0;
    while i < answers.len()
        invariant
            i <= answers.len(),
            checker.verdict is None,
            retries == retries_within(timeout_ms, poll_interval_ms),
            i <= retries,
            checker.retries_left == retries - i,
            forall|j: int| 0 <= j < i ==> !answers[j],
        decreases answers.len() - i,
    {
        match checker.on_probe(answers[i]) {
            HealthAction::Done(verdict) => {
                proof {
                    if answers[i as int] {
                        assert(answered_within(answers@, retries + 1));
                    } else {
                        assert(!answered_within(answers@, retries + 1));
                    }
                }
                return Some(verdict);
            },
            HealthAction::ProbeAfter(_) => {},
        }
        i += 1;
    }
    assert(!answered_within(answers@, retries + 1));
    None
}

} // verus!
