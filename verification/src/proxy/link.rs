use super::{MessageId, Metrics, MetricsView};
use crate::actor::ActorId;
use vstd::prelude::*;

verus! {

/// The mathematical model of a proxy.
pub struct ProxyView<R> {
    /// The neighbour the proxy reaches.
    pub aid: ActorId,
    /// The number the next message sent through the proxy gets.
    pub next_mid: nat,
    /// The delivery counters.
    pub metrics: MetricsView,
    /// The messages numbered whose outcome is not recorded yet.
    pub pending: nat,
    /// The handle through which messages are delivered.
    pub recipient: R,
}

impl MetricsView {
    /// The counters after one more attempt, successful or not.
    pub open spec fn after(self, delivered: bool) -> MetricsView {
        if delivered {
            MetricsView { total: self.total + 1, successes: self.successes + 1, ..self }
        } else {
            MetricsView { total: self.total + 1, failures: self.failures + 1, ..self }
        }
    }
}

impl<R> ProxyView<R> {
    /// A message number handed out to a send now pending.
    pub open spec fn numbered(self) -> ProxyView<R> {
        ProxyView { next_mid: self.next_mid + 1, pending: self.pending + 1, ..self }
    }

    /// The outcome of a pending send recorded.
    pub open spec fn recorded(self, delivered: bool) -> ProxyView<R> {
        ProxyView {
            metrics: self.metrics.after(delivered),
            pending: (self.pending - 1) as nat,
            ..self
        }
    }

    /// A message numbered, sent, and its outcome recorded.
    pub open spec fn attempted(self, delivered: bool) -> ProxyView<R> {
        self.numbered().recorded(delivered)
    }

    /// One more message can be numbered.
    pub open spec fn has_headroom(self) -> bool {
        self.next_mid < usize::MAX
    }

    /// Every message number handed out went to an attempt that was
    /// counted or to a send still pending; every attempt counted is a
    /// success or a failure.
    pub open spec fn accounted(self) -> bool {
        &&& self.next_mid == self.metrics.total + self.pending
        &&& self.metrics.total == self.metrics.successes + self.metrics.failures
    }
}

/// `after` is `before` after one attempt to deliver a copy of `msg` (the
/// message or a clone of it) through `transmit`, counted as a success
/// exactly when `transmit` reported one.
pub open spec fn sent_through<R, M: Clone, E, F: Fn(&R, M) -> Result<(), E>>(
    after: ProxyView<R>,
    before: ProxyView<R>,
    transmit: F,
    msg: M,
) -> bool {
    exists|m: M, r: Result<(), E>|
        #[trigger] call_ensures(transmit, (&before.recipient, m), r) && cloned::<M>(msg, m) && after
            == before.attempted(r is Ok)
}

/// `after` is `before` after a copy of `msg` (the message or a clone of
/// it) was handed to `transmit`, which queues it whatever the state of the
/// neighbour, and counted as delivered.
pub open spec fn queued_through<R, M: Clone, F: Fn(&R, M)>(
    after: ProxyView<R>,
    before: ProxyView<R>,
    transmit: F,
    msg: M,
) -> bool {
    exists|m: M|
        #[trigger] call_ensures(transmit, (&before.recipient, m), ()) && cloned::<M>(msg, m) && after
            == before.attempted(true)
}

/// Every delivery attempt through a proxy takes the next message number
/// and is counted once, as a success or as a failure, so that the message
/// numbers and the attempts keep adding up, while the send is pending and
/// after; the neighbour and the handle stay the same.
pub proof fn lemma_attempt_accounting<R>(p: ProxyView<R>, delivered: bool)
    requires
        p.accounted(),
    ensures
        p.numbered().accounted(),
        p.numbered().recorded(delivered).accounted(),
        p.attempted(delivered).pending == p.pending,
        p.attempted(delivered).next_mid == p.next_mid + 1,
        p.attempted(delivered).metrics.total == p.metrics.total + 1,
        delivered ==> p.attempted(delivered).metrics.successes == p.metrics.successes + 1,
        !delivered ==> p.attempted(delivered).metrics.failures == p.metrics.failures + 1,
        p.attempted(delivered).aid == p.aid,
        p.attempted(delivered).recipient == p.recipient,
{
}

/// The numbering of the messages sent through a proxy and their counters.
struct Ledger {
    mid: MessageId,
    metrics: Metrics,
    pending: usize,
}

impl Ledger {
    /// Every number handed out went to an attempt counted or to a pending
    /// send.
    #[verifier::type_invariant]
    closed spec fn numbers_match_attempts(self) -> bool {
        self.mid.id() == self.metrics@.total + self.pending
    }
}

/// A proxy for a neighbour: the handle that delivers messages to it,
/// the numbering of the messages sent through it and their delivery counters.
pub struct Proxy<R> {
    pub(crate) aid: ActorId,
    ledger: Ledger,
    recipient: R,
}

impl<R> View for Proxy<R> {
    type V = ProxyView<R>;

    closed spec fn view(&self) -> ProxyView<R> {
        ProxyView {
            aid: self.aid,
            next_mid: self.ledger.mid.id(),
            metrics: self.ledger.metrics@,
            pending: self.ledger.pending as nat,
            recipient: self.recipient,
        }
    }
}

impl<R> Proxy<R> {
    /// Builds the proxy for the neighbour `aid`, reached through `recipient`.
    pub fn new(aid: ActorId, recipient: R) -> (p: Proxy<R>)
        ensures
            p@ == (ProxyView {
                aid,
                next_mid: 0,
                metrics: MetricsView { total: 0, successes: 0, failures: 0 },
                pending: 0,
                recipient,
            }),
    {
        let ledger = Ledger { mid: MessageId::default(), metrics: Metrics::default(), pending: 0 };
        Proxy { aid, ledger, recipient }
    }

    /// Gets the delivery counters; they account for every message number
    /// handed out.
    pub fn metrics(&self) -> (m: &Metrics)
        ensures
            m@ == self@.metrics,
            self@.accounted(),
    {
        proof {
            use_type_invariant(&self.ledger);
        }
        let _ = self.ledger.metrics.total();
        &self.ledger.metrics
    }

    /// Gets the neighbour the proxy reaches.
    pub fn aid(&self) -> (aid: &ActorId)
        ensures
            *aid == self@.aid,
    {
        &self.aid
    }

    /// Gets the handle through which messages are delivered.
    pub fn recipient(&self) -> (r: &R)
        ensures
            *r == self@.recipient,
    {
        &self.recipient
    }

    /// The number the next message gets: the attempts counted and the
    /// sends pending.
    pub fn next_mid(&self) -> (mid: MessageId)
        ensures
            mid.id() == self@.next_mid,
            self@.accounted(),
    {
        proof {
            use_type_invariant(&self.ledger);
        }
        let _ = self.ledger.metrics.total();
        self.ledger.mid
    }

    /// The number of messages numbered whose outcome is not recorded yet.
    pub fn pending(&self) -> (n: usize)
        ensures
            n == self@.pending,
    {
        self.ledger.pending
    }

    /// Opens a send: hands out the number of the message about to be sent.
    pub fn begin_send(&mut self) -> (mid: MessageId)
        requires
            old(self)@.has_headroom(),
        ensures
            mid.id() == old(self)@.next_mid,
            final(self)@ == old(self)@.numbered(),
    {
        proof {
            use_type_invariant(&self.ledger);
        }
        let _ = self.ledger.metrics.total();
        let mut next = self.ledger.mid;
        let current = next.increment_mid();
        self.ledger = Ledger { mid: next, metrics: self.ledger.metrics, pending: self.ledger.pending + 1 };
        current
    }

    /// Closes a pending send: records its outcome and hands it back.
    pub fn end_send<T, E>(&mut self, outcome: Result<T, E>) -> (r: Result<T, E>)
        requires
            old(self)@.pending > 0,
        ensures
            r == outcome,
            final(self)@ == old(self)@.recorded(outcome is Ok),
    {
        proof {
            use_type_invariant(&self.ledger);
        }
        let _ = self.ledger.mid.inner();
        let mut metrics = self.ledger.metrics;
        let r = match outcome {
            Ok(x) => {
                metrics.record_success();
                Ok(x)
            },
            Err(e) => {
                metrics.record_failure();
                Err(e)
            },
        };
        self.ledger = Ledger { mid: self.ledger.mid, metrics, pending: self.ledger.pending - 1 };
        r
    }

    /// Tries to deliver `msg` through `transmit`, numbering the message and
    /// counting the outcome; `from` is the actor on whose behalf it is sent.
    pub fn try_send<M, E, F: Fn(&R, M) -> Result<(), E>>(
        &mut self,
        from: &ActorId,
        msg: M,
        transmit: &F,
    ) -> (r: Result<(), E>)
        requires
            old(self)@.has_headroom(),
            call_requires(*transmit, (&old(self)@.recipient, msg)),
        ensures
            call_ensures(*transmit, (&old(self)@.recipient, msg), r),
            final(self)@ == old(self)@.attempted(r is Ok),
    {
        let _mid = self.begin_send();
        let outcome = transmit(&self.recipient, msg);
        self.end_send(outcome)
    }

    /// Delivers `msg` through `transmit`, which queues it whatever the state
    /// of the neighbour, and counts it as delivered.
    pub fn do_send<M, F: Fn(&R, M)>(&mut self, from: &ActorId, msg: M, transmit: &F)
        requires
            old(self)@.has_headroom(),
            call_requires(*transmit, (&old(self)@.recipient, msg)),
        ensures
            call_ensures(*transmit, (&old(self)@.recipient, msg), ()),
            final(self)@ == old(self)@.attempted(true),
    {
        let _mid = self.begin_send();
        transmit(&self.recipient, msg);
        let delivered: Result<(), ()> = Ok(());
        let _ = self.end_send(delivered);
    }
}

} // verus!
