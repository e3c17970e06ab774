use crate::error::SshError;
use vstd::prelude::*;

verus! {

/// How many connection attempts the health check makes.
pub const HEALTH_CHECK_ATTEMPTS: u32 = 5;

/// Seconds between two connection attempts.
pub const HEALTH_CHECK_DELAY_SECS: u64 = 5;

/// The port the health check probes.
pub const SSH_PORT: u16 = 22;

/// What to do after a connection attempt.
pub enum Probe {
    /// The port accepted: go on at once.
    Ready,
    /// Wait this long, then attempt again.
    RetryAfter { seconds: u64 },
    /// The budget is spent.
    GiveUp(SshError),
}

/// A bounded-retry reachability probe of a host's SSH port.
pub struct HealthCheck {
    pub host: String,
    pub max_attempts: u32,
    pub delay_secs: u64,
    /// Attempts made so far.
    pub attempts: u32,
    pub finished: bool,
}

impl HealthCheck {
    /// A fresh check of `host` with the standard budget.
    pub fn new(host: String) -> (r: HealthCheck)
        ensures
            r.host == host,
            r.max_attempts == HEALTH_CHECK_ATTEMPTS,
            r.delay_secs == HEALTH_CHECK_DELAY_SECS,
            r.attempts == 0,
            !r.finished,
    {
        HealthCheck::with_budget(host, HEALTH_CHECK_ATTEMPTS, HEALTH_CHECK_DELAY_SECS)
    }

    /// A fresh check of `host` with a budget of its own.
    pub fn with_budget(host: String, max_attempts: u32, delay_secs: u64) -> (r: HealthCheck)
        requires
            max_attempts >= 1,
        ensures
            r.host == host,
            r.max_attempts == max_attempts,
            r.delay_secs == delay_secs,
            r.attempts == 0,
            !r.finished,
    {
        HealthCheck { host, max_attempts, delay_secs, attempts: 0, finished: false }
    }

    /// Whether another attempt may be made.
    pub open spec fn active(self) -> bool {
        !self.finished && self.attempts < self.max_attempts
    }

    /// The check after an attempt, and what to do next.
    pub open spec fn step(self, connected: bool) -> (HealthCheck, Probe) {
        let attempts = (self.attempts + 1) as u32;
        if connected {
            (HealthCheck { attempts, finished: true, ..self }, Probe::Ready)
        } else if attempts < self.max_attempts {
            (
                HealthCheck { attempts, ..self },
                Probe::RetryAfter { seconds: self.delay_secs },
            )
        } else {
            (
                HealthCheck { attempts, finished: true, ..self },
                Probe::GiveUp(SshError::HealthCheckFailed(self.host)),
            )
        }
    }

    /// Records the outcome of one connection attempt.
    pub fn after_attempt(&mut self, connected: bool) -> (p: Probe)
        requires
            old(self).active(),
        ensures
            (*final(self), p) == old(self).step(connected),
    {
        self.attempts = self.attempts + 1;
        if connected {
            self.finished = true;
            Probe::Ready
        } else if self.attempts < self.max_attempts {
            Probe::RetryAfter { seconds: self.delay_secs }
        } else {
            self.finished = true;
            Probe::GiveUp(SshError::HealthCheckFailed(self.host.clone()))
        }
    }
}

/// What a check answers to a run of attempt outcomes, until it finishes.
pub open spec fn probe_run(hc: HealthCheck, outcomes: Seq<bool>) -> Seq<Probe>
    decreases outcomes.len(),
{
    if outcomes.len() == 0 || !hc.active() {
        Seq::empty()
    } else {
        let (next, p) = hc.step(outcomes[0]);
        seq![p] + probe_run(next, outcomes.drop_first())
    }
}

pub open spec fn retries(n: nat, seconds: u64) -> Seq<Probe> {
    Seq::new(n, |_i: int| Probe::RetryAfter { seconds })
}

/// Against a host that never accepts, the check makes exactly
/// `max_attempts` attempts with a wait of `delay_secs` between two of them,
/// and then gives up with `HealthCheckFailed`.
pub proof fn lemma_never_accepting(hc: HealthCheck, outcomes: Seq<bool>)
    requires
        hc.active(),
        outcomes.len() >= hc.max_attempts - hc.attempts,
        forall|i: int| 0 <= i < outcomes.len() ==> !outcomes[i],
    ensures
        probe_run(hc, outcomes) == retries((hc.max_attempts - hc.attempts - 1) as nat, hc.delay_secs)
            + seq![Probe::GiveUp(SshError::HealthCheckFailed(hc.host))],
    decreases hc.max_attempts - hc.attempts,
{
    let (next, p) = hc.step(outcomes[0]);
    let rest = outcomes.drop_first();
    if next.active() {
        lemma_never_accepting(next, rest);
        assert(seq![p] + retries((next.max_attempts - next.attempts - 1) as nat, hc.delay_secs)
            =~= retries((hc.max_attempts - hc.attempts - 1) as nat, hc.delay_secs));
        assert(seq![p] + probe_run(next, rest) =~= retries(
            (hc.max_attempts - hc.attempts - 1) as nat,
            hc.delay_secs,
        ) + seq![Probe::GiveUp(SshError::HealthCheckFailed(hc.host))]);
    } else {
        assert(probe_run(next, rest) == Seq::<Probe>::empty());
        assert(retries(0, hc.delay_secs) =~= Seq::<Probe>::empty());
        assert(seq![p] + probe_run(next, rest) =~= retries(0, hc.delay_secs) + seq![p]);
    }
}

/// Against a host that first accepts on attempt `k` (counted from the
/// check's current attempt), the check waits between the `k - 1` refused
/// attempts and reports ready right after the accepted one, with no wait.
pub proof fn lemma_accepting_on_attempt(hc: HealthCheck, outcomes: Seq<bool>, k: nat)
    requires
        hc.active(),
        1 <= k,
        hc.attempts + k <= hc.max_attempts,
        outcomes.len() >= k,
        forall|i: int| 0 <= i < k - 1 ==> !outcomes[i],
        outcomes[k - 1],
    ensures
        probe_run(hc, outcomes) == retries((k - 1) as nat, hc.delay_secs) + seq![Probe::Ready],
    decreases k,
{
    let (next, p) = hc.step(outcomes[0]);
    let rest = outcomes.drop_first();
    if k == 1 {
        assert(probe_run(next, rest) == Seq::<Probe>::empty());
        assert(retries(0, hc.delay_secs) =~= Seq::<Probe>::empty());
        assert(seq![p] + probe_run(next, rest) =~= retries(0, hc.delay_secs) + seq![p]);
    } else {
        lemma_accepting_on_attempt(next, rest, (k - 1) as nat);
        assert(seq![p] + retries((k - 2) as nat, hc.delay_secs) =~= retries(
            (k - 1) as nat,
            hc.delay_secs,
        ));
        assert(seq![p] + probe_run(next, rest) =~= retries((k - 1) as nat, hc.delay_secs)
            + seq![Probe::Ready]);
    }
}

} // verus!
