use vstd::prelude::*;

verus! {

/// The mathematical model of the delivery counters of a proxy.
pub struct MetricsView {
    /// Every delivery attempt.
    pub total: nat,
    /// The attempts that succeeded.
    pub successes: nat,
    /// The attempts that failed.
    pub failures: nat,
}

/// Counts the delivery attempts of a proxy.
#[derive(Debug, Clone, Copy)]
pub struct Metrics {
    ttl: usize,
    succ: usize,
    fail: usize,
}

impl View for Metrics {
    type V = MetricsView;

    closed spec fn view(&self) -> MetricsView {
        MetricsView { total: self.ttl as nat, successes: self.succ as nat, failures: self.fail as nat }
    }
}

impl Metrics {
    /// Every attempt either succeeded or failed.
    #[verifier::type_invariant]
    closed spec fn attempts_add_up(self) -> bool {
        self.ttl == self.succ + self.fail
    }

    /// Counters with no attempt recorded.
    pub fn new() -> (m: Metrics)
        ensures
            m@ == (MetricsView { total: 0, successes: 0, failures: 0 }),
    {
        Metrics { ttl: 0, succ: 0, fail: 0 }
    }

    /// Records a successful attempt.
    pub fn record_success(&mut self)
        requires
            old(self)@.total < usize::MAX,
        ensures
            final(self)@ == (MetricsView {
                total: old(self)@.total + 1,
                successes: old(self)@.successes + 1,
                failures: old(self)@.failures,
            }),
    {
        proof {
            use_type_invariant(&*self);
        }
        *self = Metrics { ttl: self.ttl + 1, succ: self.succ + 1, fail: self.fail };
    }

    /// Records a failed attempt.
    pub fn record_failure(&mut self)
        requires
            old(self)@.total < usize::MAX,
        ensures
            final(self)@ == (MetricsView {
                total: old(self)@.total + 1,
                successes: old(self)@.successes,
                failures: old(self)@.failures + 1,
            }),
    {
        proof {
            use_type_invariant(&*self);
        }
        *self = Metrics { ttl: self.ttl + 1, succ: self.succ, fail: self.fail + 1 };
    }

    /// The number of attempts; every attempt is counted once, as a success
    /// or as a failure.
    pub fn total(&self) -> (n: usize)
        ensures
            n == self@.total,
            n == self@.successes + self@.failures,
    {
        proof {
            use_type_invariant(self);
        }
        self.ttl
    }

    /// The number of successful attempts.
    pub fn successes(&self) -> (n: usize)
        ensures
            n == self@.successes,
    {
        self.succ
    }

    /// The number of failed attempts.
    pub fn failures(&self) -> (n: usize)
        ensures
            n == self@.failures,
    {
        self.fail
    }
}

impl Default for Metrics {
    fn default() -> (m: Metrics)
        ensures
            m@ == (MetricsView { total: 0, successes: 0, failures: 0 }),
    {
        Metrics::new()
    }
}

} // verus!
