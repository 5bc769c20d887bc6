use super::link::{queued_through, sent_through};
use super::{Proxy, ProxyView};
use crate::actor::ActorId;
use crate::handler::ContinuationHandler;
use crate::protocol::Message;
use crate::text::Text;
use vstd::prelude::*;

verus! {

/// The positions, in increasing order, of the first `n` proxies that satisfy `keep`.
pub open spec fn positions_where<R>(
    ps: Seq<ProxyView<R>>,
    keep: spec_fn(ProxyView<R>) -> bool,
    n: nat,
) -> Seq<usize>
    decreases n,
{
    if n == 0 {
        Seq::empty()
    } else {
        let shorter = positions_where(ps, keep, (n - 1) as nat);
        if keep(ps[n - 1]) {
            shorter.push((n - 1) as usize)
        } else {
            shorter
        }
    }
}

/// The positions of the proxies whose neighbour is not in `except`.
pub open spec fn excluding<R>(ps: Seq<ProxyView<R>>, except: Seq<ActorId>) -> Seq<usize> {
    positions_where(ps, |p: ProxyView<R>| !except.contains(p.aid), ps.len())
}

/// The positions of the proxies whose neighbour is `aid`.
pub open spec fn reaching<R>(ps: Seq<ProxyView<R>>, aid: ActorId) -> Seq<usize> {
    positions_where(ps, |p: ProxyView<R>| p.aid == aid, ps.len())
}

/// The positions of the proxies a continuation sends its message through.
pub open spec fn routed<R, P>(ps: Seq<ProxyView<R>>, cont: ContinuationHandler<P>) -> Seq<usize> {
    match cont {
        ContinuationHandler::SendToNode(aid, _) => reaching(ps, aid),
        ContinuationHandler::SendToAllNodes(_) => excluding(ps, Seq::empty()),
        ContinuationHandler::SendToAllNodesExcept(_, except) => excluding(ps, except@),
        ContinuationHandler::Done => Seq::empty(),
    }
}

/// The positions chosen are exactly those below `n` that satisfy `keep`,
/// each once, in increasing order.
pub proof fn lemma_positions_where<R>(
    ps: Seq<ProxyView<R>>,
    keep: spec_fn(ProxyView<R>) -> bool,
    n: nat,
)
    requires
        n <= ps.len(),
        ps.len() <= usize::MAX,
    ensures
        forall|k: int|
            0 <= k < positions_where(ps, keep, n).len() ==> {
                &&& #[trigger] positions_where(ps, keep, n)[k] < n
                &&& keep(ps[positions_where(ps, keep, n)[k] as int])
            },
        forall|i: int| 0 <= i < n && keep(ps[i]) ==> positions_where(ps, keep, n).contains(i as usize),
        forall|a: int, b: int|
            0 <= a < b < positions_where(ps, keep, n).len() ==> positions_where(ps, keep, n)[a]
                < positions_where(ps, keep, n)[b],
    decreases n,
{
    if n > 0 {
        lemma_positions_where(ps, keep, (n - 1) as nat);
        let shorter = positions_where(ps, keep, (n - 1) as nat);
        if keep(ps[n - 1]) {
            assert(positions_where(ps, keep, n) == shorter.push((n - 1) as usize));
            assert(positions_where(ps, keep, n)[shorter.len() as int] == (n - 1) as usize);
        }
        assert forall|i: int| 0 <= i < n && keep(ps[i]) implies positions_where(
            ps,
            keep,
            n,
        ).contains(i as usize) by {
            if i < n - 1 {
                let k = choose|k: int| 0 <= k < shorter.len() && shorter[k] == i as usize;
                assert(positions_where(ps, keep, n)[k] == i as usize);
            } else {
                assert(positions_where(ps, keep, n)[shorter.len() as int] == i as usize);
            }
        }
    }
}

/// The positions are below `n` and strictly increasing, hence distinct.
pub open spec fn increasing_below(t: Seq<usize>, n: nat) -> bool {
    &&& forall|k: int| 0 <= k < t.len() ==> #[trigger] t[k] < n
    &&& forall|a: int, b: int| 0 <= a < b < t.len() ==> t[a] < t[b]
}

/// Visiting increasing positions in turn: the one at step `j` has not been
/// visited before, and after it the visited ones are the earlier ones and it.
proof fn lemma_next_target(targets: Seq<usize>, n: nat, j: int)
    requires
        increasing_below(targets, n),
        0 <= j < targets.len(),
    ensures
        targets[j] < n,
        !targets.subrange(0, j).contains(targets[j]),
        forall|x: usize|
            #[trigger] targets.subrange(0, j + 1).contains(x) <==> (targets.subrange(0, j).contains(x)
                || x == targets[j]),
{
    let pre = targets.subrange(0, j);
    let post = targets.subrange(0, j + 1);
    if pre.contains(targets[j]) {
        let k = choose|k: int| 0 <= k < pre.len() && pre[k] == targets[j];
        assert(targets[k] < targets[j]);
    }
    assert forall|x: usize| #[trigger] post.contains(x) <==> (pre.contains(x) || x == targets[j]) by {
        if post.contains(x) {
            let k = choose|k: int| 0 <= k < post.len() && post[k] == x;
            if k < j {
                assert(pre[k] == x);
            }
        }
        if pre.contains(x) {
            let k = choose|k: int| 0 <= k < pre.len() && pre[k] == x;
            assert(post[k] == x);
        }
        if x == targets[j] {
            assert(post[j] == x);
        }
    }
}

/// `after` is `before` after a copy of `msg` (its routing parts and a clone
/// of its payload) was handed to `transmit`, which queues it whatever the
/// state of the neighbour, and counted as delivered.
pub open spec fn copy_queued_through<R, P: Clone, F: Fn(&R, Message<P>)>(
    after: ProxyView<R>,
    before: ProxyView<R>,
    transmit: F,
    msg: Message<P>,
) -> bool {
    exists|m: Message<P>|
        #[trigger] call_ensures(transmit, (&before.recipient, m), ()) && msg.copied_to(m) && after
            == before.attempted(true)
}

/// A message sent to every neighbour but the excluded ones goes through
/// exactly the proxies of neighbours that are not excluded, each once, in
/// the order the proxies were added.
pub proof fn lemma_excluding<R>(ps: Seq<ProxyView<R>>, except: Seq<ActorId>)
    requires
        ps.len() <= usize::MAX,
    ensures
        increasing_below(excluding(ps, except), ps.len()),
        forall|i: int|
            0 <= i < ps.len() ==> (#[trigger] excluding(ps, except).contains(i as usize) <==> !except.contains(
                ps[i].aid,
            )),
{
    let keep = |p: ProxyView<R>| !except.contains(p.aid);
    lemma_positions_where(ps, keep, ps.len());
    assert forall|i: int| 0 <= i < ps.len() && excluding(ps, except).contains(i as usize) implies !except.contains(ps[i].aid) by {
        let k = choose|k: int| 0 <= k < excluding(ps, except).len() && #[trigger] excluding(ps, except)[k] == i as usize;
        assert(keep(ps[excluding(ps, except)[k] as int]));
    }
}

/// A message sent to one neighbour goes through exactly the proxies of
/// that neighbour, each once, in the order the proxies were added.
pub proof fn lemma_reaching<R>(ps: Seq<ProxyView<R>>, aid: ActorId)
    requires
        ps.len() <= usize::MAX,
    ensures
        increasing_below(reaching(ps, aid), ps.len()),
        forall|i: int|
            0 <= i < ps.len() ==> (#[trigger] reaching(ps, aid).contains(i as usize) <==> ps[i].aid == aid),
{
    let keep = |p: ProxyView<R>| p.aid == aid;
    lemma_positions_where(ps, keep, ps.len());
    assert forall|i: int| 0 <= i < ps.len() && reaching(ps, aid).contains(i as usize) implies ps[i].aid == aid by {
        let k = choose|k: int| 0 <= k < reaching(ps, aid).len() && #[trigger] reaching(ps, aid)[k] == i as usize;
        assert(keep(ps[reaching(ps, aid)[k] as int]));
    }
}

/// A continuation goes through exactly the proxies it names: those of its
/// neighbour, of every neighbour, of every neighbour not excluded, or none.
pub proof fn lemma_routed<R, P>(ps: Seq<ProxyView<R>>, cont: ContinuationHandler<P>)
    requires
        ps.len() <= usize::MAX,
    ensures
        increasing_below(routed(ps, cont), ps.len()),
        forall|i: int|
            0 <= i < ps.len() ==> (#[trigger] routed(ps, cont).contains(i as usize) <==> match cont {
                ContinuationHandler::SendToNode(aid, _) => ps[i].aid == aid,
                ContinuationHandler::SendToAllNodes(_) => true,
                ContinuationHandler::SendToAllNodesExcept(_, except) => !except@.contains(ps[i].aid),
                ContinuationHandler::Done => false,
            }),
{
    match cont {
        ContinuationHandler::SendToNode(aid, _) => lemma_reaching(ps, aid),
        ContinuationHandler::SendToAllNodes(_) => lemma_excluding(ps, Seq::empty()),
        ContinuationHandler::SendToAllNodesExcept(_, except) => lemma_excluding(ps, except@),
        ContinuationHandler::Done => {},
    }
}

/// Whether `aid` is one of `aids`.
pub fn contains_aid(aids: &[ActorId], aid: &ActorId) -> (found: bool)
    ensures
        found == aids@.contains(*aid),
{
    let mut i: usize = 0;
    while i < aids.len()
        invariant
            i <= aids@.len(),
            forall|j: int| 0 <= j < i ==> aids@[j] != *aid,
        decreases aids@.len() - i,
    {
        if aids[i] == *aid {
            proof {
                broadcast use crate::actor::lemma_id_determines;
            }
            assert(aids@[i as int] == *aid);
            return true;
        }
        i = i + 1;
    }
    false
}

/// A configuration message for a node.
pub enum CfgMessage<R> {
    /// Adds the proxy of a new neighbour.
    AddProxy(Proxy<R>),
}

impl<R> actix::Message for CfgMessage<R> {
    type Result = ();
}

/// The proxies of the neighbours of a node.
pub struct Proxies<R> {
    proxies: Vec<Proxy<R>>,
}

impl<R> View for Proxies<R> {
    type V = Seq<ProxyView<R>>;

    closed spec fn view(&self) -> Seq<ProxyView<R>> {
        self.proxies@.map_values(|p: Proxy<R>| p@)
    }
}

impl<R> Proxies<R> {
    /// No neighbour yet.
    pub fn new() -> (ps: Proxies<R>)
        ensures
            ps@ == Seq::<ProxyView<R>>::empty(),
    {
        let ps = Proxies { proxies: Vec::new() };
        proof {
            assert(ps@ =~= Seq::<ProxyView<R>>::empty());
        }
        ps
    }

    /// Adds the proxy of a new neighbour.
    pub fn add_proxy(&mut self, proxy: Proxy<R>)
        ensures
            final(self)@ == old(self)@.push(proxy@),
    {
        self.proxies.push(proxy);
        proof {
            assert(self@ =~= old(self)@.push(proxy@));
        }
    }

    /// Applies a configuration message.
    pub fn handle_msg(&mut self, msg: CfgMessage<R>)
        ensures
            final(self)@ == match msg {
                CfgMessage::AddProxy(proxy) => old(self)@.push(proxy@),
            },
    {
        match msg {
            CfgMessage::AddProxy(pxy) => self.add_proxy(pxy),
        }
    }

    /// The number of neighbours.
    pub fn len(&self) -> (n: usize)
        ensures
            n == self@.len(),
    {
        self.proxies.len()
    }

    /// Gets the proxy at position `i`.
    pub fn get(&self, i: usize) -> (p: &Proxy<R>)
        requires
            i < self@.len(),
        ensures
            p@ == self@[i as int],
    {
        &self.proxies[i]
    }

    /// The neighbours, in the order their proxies were added.
    pub fn aids(&self) -> (aids: Vec<ActorId>)
        ensures
            aids@ == self@.map_values(|p: ProxyView<R>| p.aid),
    {
        let mut aids: Vec<ActorId> = Vec::new();
        let mut i: usize = 0;
        while i < self.proxies.len()
            invariant
                i <= self@.len(),
                self@.len() == self.proxies@.len(),
                aids@ == self@.take(i as int).map_values(|p: ProxyView<R>| p.aid),
            decreases self@.len() - i,
        {
            aids.push(*self.proxies[i].aid());
            proof {
                assert(self@.take(i + 1) =~= self@.take(i as int).push(self@[i as int]));
            }
            i = i + 1;
        }
        proof {
            assert(self@.take(i as int) =~= self@);
        }
        aids
    }

    /// The positions of the proxies whose neighbour is not in `except`.
    pub fn targets_except(&self, except: &[ActorId]) -> (t: Vec<usize>)
        ensures
            t@ == excluding(self@, except@),
    {
        let ghost keep = |p: ProxyView<R>| !except@.contains(p.aid);
        let mut t: Vec<usize> = Vec::new();
        let mut i: usize = 0;
        while i < self.proxies.len()
            invariant
                i <= self@.len(),
                self@.len() == self.proxies@.len(),
                t@ == positions_where(self@, keep, i as nat),
                keep == (|p: ProxyView<R>| !except@.contains(p.aid)),
            decreases self@.len() - i,
        {
            proof {
                assert(self@[i as int] == self.proxies@[i as int]@);
                assert(keep(self@[i as int]) == (!except@.contains(self@[i as int].aid)));
            }
            if !contains_aid(except, self.proxies[i].aid()) {
                t.push(i);
            }
            proof {
                assert(positions_where(self@, keep, (i + 1) as nat) == (if keep(self@[i as int]) {
                    positions_where(self@, keep, i as nat).push(i)
                } else {
                    positions_where(self@, keep, i as nat)
                }));
            }
            i = i + 1;
        }
        t
    }

    /// The positions of the proxies whose neighbour is `aid`.
    pub fn targets_to(&self, aid: &ActorId) -> (t: Vec<usize>)
        ensures
            t@ == reaching(self@, *aid),
    {
        let ghost keep = |p: ProxyView<R>| p.aid == *aid;
        let mut t: Vec<usize> = Vec::new();
        let mut i: usize = 0;
        while i < self.proxies.len()
            invariant
                i <= self@.len(),
                self@.len() == self.proxies@.len(),
                t@ == positions_where(self@, keep, i as nat),
                keep == (|p: ProxyView<R>| p.aid == *aid),
            decreases self@.len() - i,
        {
            proof {
                assert(self@[i as int] == self.proxies@[i as int]@);
                assert(keep(self@[i as int]) == (self@[i as int].aid == *aid));
            }
            proof {
                broadcast use crate::actor::lemma_id_determines;
            }
            if *self.proxies[i].aid() == *aid {
                t.push(i);
            }
            proof {
                assert(positions_where(self@, keep, (i + 1) as nat) == (if keep(self@[i as int]) {
                    positions_where(self@, keep, i as nat).push(i)
                } else {
                    positions_where(self@, keep, i as nat)
                }));
            }
            i = i + 1;
        }
        t
    }

    /// Tries to deliver a copy of `msg` through each proxy at the positions
    /// `targets`, numbering and counting each delivery.
    fn try_send_at<M: Clone, E, F: Fn(&R, M) -> Result<(), E>>(
        &mut self,
        from: &ActorId,
        msg: M,
        targets: &Vec<usize>,
        transmit: &F,
    )
        requires
            increasing_below(targets@, old(self)@.len()),
            forall|i: int| 0 <= i < old(self)@.len() ==> #[trigger] old(self)@[i].has_headroom(),
            forall|i: int, m: M|
                #![trigger call_requires(*transmit, (&old(self)@[i].recipient, m))]
                0 <= i < old(self)@.len() && targets@.contains(i as usize) && cloned::<M>(msg, m) ==> call_requires(*transmit, (&old(self)@[i].recipient, m)),
        ensures
            final(self)@.len() == old(self)@.len(),
            forall|i: int|
                0 <= i < old(self)@.len() ==> if targets@.contains(i as usize) {
                    sent_through(final(self)@[i], old(self)@[i], *transmit, msg)
                } else {
                    final(self)@[i] == old(self)@[i]
                },
    {
        let count = self.proxies.len();
        proof {
            assert(self@.len() == count);
        }
        let ghost start = self@;
        let mut j: usize = 0;
        while j < targets.len()
            invariant
                j <= targets@.len(),
                increasing_below(targets@, start.len()),
                self@.len() == start.len(),
                self.proxies@.len() == start.len(),
                start.len() <= usize::MAX,
                forall|i: int| 0 <= i < start.len() ==> #[trigger] start[i].has_headroom(),
                forall|i: int, m: M|
                    #![trigger call_requires(*transmit, (&start[i].recipient, m))]
                    0 <= i < start.len() && targets@.contains(i as usize) && cloned::<M>(msg, m) ==> call_requires(*transmit, (&start[i].recipient, m)),
                forall|i: int|
                    0 <= i < start.len() ==> if targets@.subrange(0, j as int).contains(i as usize) {
                        sent_through(self@[i], start[i], *transmit, msg)
                    } else {
                        self@[i] == start[i]
                    },
            decreases targets@.len() - j,
        {
            let i = targets[j];
            proof {
                lemma_next_target(targets@, start.len(), j as int);
                assert(self@[i as int] == start[i as int]);
                assert(self.proxies@[i as int]@ == self@[i as int]);
            }
            let ghost before = self@;
            let copy = msg.clone();
            proof {
                assert(targets@[j as int] == i);
            }
            let r = self.proxies[i].try_send(from, copy, transmit);
            proof {
                assert(call_ensures(*transmit, (&start[i as int].recipient, copy), r));
                assert forall|x: int| 0 <= x < start.len() implies (if targets@.subrange(0, j + 1).contains(x as usize) {
                    sent_through(self@[x], start[x], *transmit, msg)
                } else {
                    self@[x] == start[x]
                }) by {
                    assert(self@[x] == self.proxies@[x]@);
                    if x != i as int {
                        assert(self@[x] == before[x]);
                    }
                }
            }
            j = j + 1;
        }
        proof {
            assert(targets@.subrange(0, j as int) =~= targets@);
        }
    }

    /// Delivers a copy of `msg` through each proxy at the positions
    /// `targets`, numbering each copy and counting it as delivered.
    fn do_send_at<M: Clone, F: Fn(&R, M)>(
        &mut self,
        from: &ActorId,
        msg: M,
        targets: &Vec<usize>,
        transmit: &F,
    )
        requires
            increasing_below(targets@, old(self)@.len()),
            forall|i: int| 0 <= i < old(self)@.len() ==> #[trigger] old(self)@[i].has_headroom(),
            forall|i: int, m: M|
                #![trigger call_requires(*transmit, (&old(self)@[i].recipient, m))]
                0 <= i < old(self)@.len() && targets@.contains(i as usize) && cloned::<M>(msg, m) ==> call_requires(*transmit, (&old(self)@[i].recipient, m)),
        ensures
            final(self)@.len() == old(self)@.len(),
            forall|i: int|
                0 <= i < old(self)@.len() ==> if targets@.contains(i as usize) {
                    queued_through(final(self)@[i], old(self)@[i], *transmit, msg)
                } else {
                    final(self)@[i] == old(self)@[i]
                },
    {
        let count = self.proxies.len();
        proof {
            assert(self@.len() == count);
        }
        let ghost start = self@;
        let mut j: usize = 0;
        while j < targets.len()
            invariant
                j <= targets@.len(),
                increasing_below(targets@, start.len()),
                self@.len() == start.len(),
                self.proxies@.len() == start.len(),
                start.len() <= usize::MAX,
                forall|i: int| 0 <= i < start.len() ==> #[trigger] start[i].has_headroom(),
                forall|i: int, m: M|
                    #![trigger call_requires(*transmit, (&start[i].recipient, m))]
                    0 <= i < start.len() && targets@.contains(i as usize) && cloned::<M>(msg, m) ==> call_requires(*transmit, (&start[i].recipient, m)),
                forall|i: int|
                    0 <= i < start.len() ==> if targets@.subrange(0, j as int).contains(i as usize) {
                        queued_through(self@[i], start[i], *transmit, msg)
                    } else {
                        self@[i] == start[i]
                    },
            decreases targets@.len() - j,
        {
            let i = targets[j];
            proof {
                lemma_next_target(targets@, start.len(), j as int);
                assert(self@[i as int] == start[i as int]);
                assert(self.proxies@[i as int]@ == self@[i as int]);
            }
            let ghost before = self@;
            let copy = msg.clone();
            proof {
                assert(targets@[j as int] == i);
            }
            self.proxies[i].do_send(from, copy, transmit);
            proof {
                assert(call_ensures(*transmit, (&start[i as int].recipient, copy), ()));
                assert forall|x: int| 0 <= x < start.len() implies (if targets@.subrange(0, j + 1).contains(x as usize) {
                    queued_through(self@[x], start[x], *transmit, msg)
                } else {
                    self@[x] == start[x]
                }) by {
                    assert(self@[x] == self.proxies@[x]@);
                    if x != i as int {
                        assert(self@[x] == before[x]);
                    }
                }
            }
            j = j + 1;
        }
        proof {
            assert(targets@.subrange(0, j as int) =~= targets@);
        }
    }

    /// Opens a send through each proxy at the positions `targets`: each
    /// hands out a message number.
    fn begin_sends_at(&mut self, targets: &Vec<usize>)
        requires
            increasing_below(targets@, old(self)@.len()),
            forall|i: int| 0 <= i < old(self)@.len() ==> #[trigger] old(self)@[i].has_headroom(),
        ensures
            final(self)@.len() == old(self)@.len(),
            forall|i: int|
                0 <= i < old(self)@.len() ==> if targets@.contains(i as usize) {
                    final(self)@[i] == old(self)@[i].numbered()
                } else {
                    final(self)@[i] == old(self)@[i]
                },
    {
        let count = self.proxies.len();
        proof {
            assert(self@.len() == count);
        }
        let ghost start = self@;
        let mut j: usize = 0;
        while j < targets.len()
            invariant
                j <= targets@.len(),
                increasing_below(targets@, start.len()),
                self@.len() == start.len(),
                self.proxies@.len() == start.len(),
                start.len() <= usize::MAX,
                forall|i: int| 0 <= i < start.len() ==> #[trigger] start[i].has_headroom(),
                forall|i: int|
                    0 <= i < start.len() ==> if targets@.subrange(0, j as int).contains(i as usize) {
                        self@[i] == start[i].numbered()
                    } else {
                        self@[i] == start[i]
                    },
            decreases targets@.len() - j,
        {
            let i = targets[j];
            proof {
                lemma_next_target(targets@, start.len(), j as int);
                assert(self@[i as int] == start[i as int]);
                assert(self.proxies@[i as int]@ == self@[i as int]);
            }
            let ghost before = self@;
            let _mid = self.proxies[i].begin_send();
            proof {
                assert forall|x: int| 0 <= x < start.len() implies (if targets@.subrange(0, j + 1).contains(x as usize) {
                    self@[x] == start[x].numbered()
                } else {
                    self@[x] == start[x]
                }) by {
                    assert(self@[x] == self.proxies@[x]@);
                    if x != i as int {
                        assert(self@[x] == before[x]);
                    }
                }
            }
            j = j + 1;
        }
        proof {
            assert(targets@.subrange(0, j as int) =~= targets@);
        }
    }

    /// Tries to deliver a copy of `msg` to every neighbour not in `except`,
    /// through `transmit`, numbering and counting each delivery; `from` is
    /// the actor on whose behalf the copies are sent.
    pub fn try_send_all_except<M: Clone, E, F: Fn(&R, M) -> Result<(), E>>(
        &mut self,
        from: &ActorId,
        msg: M,
        except: &[ActorId],
        transmit: &F,
    )
        requires
            forall|i: int| 0 <= i < old(self)@.len() ==> #[trigger] old(self)@[i].has_headroom(),
            forall|i: int, m: M|
                #![trigger call_requires(*transmit, (&old(self)@[i].recipient, m))]
                0 <= i < old(self)@.len() && !except@.contains(old(self)@[i].aid) && cloned::<M>(msg, m) ==> call_requires(*transmit, (&old(self)@[i].recipient, m)),
        ensures
            final(self)@.len() == old(self)@.len(),
            forall|i: int|
                0 <= i < old(self)@.len() ==> if excluding(old(self)@, except@).contains(i as usize) {
                    sent_through(final(self)@[i], old(self)@[i], *transmit, msg)
                } else {
                    final(self)@[i] == old(self)@[i]
                },
    {
        let targets = self.targets_except(except);
        let _count = self.len();
        proof {
            lemma_excluding(self@, except@);
        }
        self.try_send_at(from, msg, &targets, transmit);
    }

    /// Delivers a copy of `msg` to every neighbour not in `except`, through
    /// `transmit`, which queues it whatever the state of the neighbour;
    /// each copy is numbered and counted as delivered.
    pub fn do_send_all_except<M: Clone, F: Fn(&R, M)>(
        &mut self,
        from: &ActorId,
        msg: M,
        except: &[ActorId],
        transmit: &F,
    )
        requires
            forall|i: int| 0 <= i < old(self)@.len() ==> #[trigger] old(self)@[i].has_headroom(),
            forall|i: int, m: M|
                #![trigger call_requires(*transmit, (&old(self)@[i].recipient, m))]
                0 <= i < old(self)@.len() && !except@.contains(old(self)@[i].aid) && cloned::<M>(msg, m) ==> call_requires(*transmit, (&old(self)@[i].recipient, m)),
        ensures
            final(self)@.len() == old(self)@.len(),
            forall|i: int|
                0 <= i < old(self)@.len() ==> if excluding(old(self)@, except@).contains(i as usize) {
                    queued_through(final(self)@[i], old(self)@[i], *transmit, msg)
                } else {
                    final(self)@[i] == old(self)@[i]
                },
    {
        let targets = self.targets_except(except);
        let _count = self.len();
        proof {
            lemma_excluding(self@, except@);
        }
        self.do_send_at(from, msg, &targets, transmit);
    }

    /// Carries out a continuation: its message, if any, is delivered through
    /// `transmit` to the neighbours it is routed to, each a copy of it (its
    /// routing parts and a clone of its payload), numbered and counted as
    /// delivered.
    pub fn do_send_routed<P: Clone, F: Fn(&R, Message<P>)>(
        &mut self,
        from: &ActorId,
        cont: ContinuationHandler<P>,
        transmit: &F,
    )
        requires
            forall|i: int| 0 <= i < old(self)@.len() ==> #[trigger] old(self)@[i].has_headroom(),
            forall|i: int, m: Message<P>|
                #![trigger call_requires(*transmit, (&old(self)@[i].recipient, m))]
                0 <= i < old(self)@.len() && routed(old(self)@, cont).contains(i as usize) && (cont.carried()->0).copied_to(m) ==> call_requires(*transmit, (&old(self)@[i].recipient, m)),
        ensures
            final(self)@.len() == old(self)@.len(),
            forall|i: int|
                0 <= i < old(self)@.len() ==> if routed(old(self)@, cont).contains(i as usize) {
                    copy_queued_through(final(self)@[i], old(self)@[i], *transmit, cont.carried()->0)
                } else {
                    final(self)@[i] == old(self)@[i]
                },
    {
        let targets = self.route(&cont);
        let _count = self.len();
        let ghost start = self@;
        proof {
            lemma_routed(self@, cont);
            assert forall|i: int, m: Message<P>|
                0 <= i < self@.len() && targets@.contains(i as usize) && cloned::<Message<P>>(
                    cont.carried()->0,
                    m,
                ) implies call_requires(*transmit, (&self@[i].recipient, m)) by {
                (cont.carried()->0).lemma_cloned_copies(m);
            }
        }
        match cont {
            ContinuationHandler::SendToNode(_, msg) => self.do_send_at(from, msg, &targets, transmit),
            ContinuationHandler::SendToAllNodes(msg) => self.do_send_at(from, msg, &targets, transmit),
            ContinuationHandler::SendToAllNodesExcept(msg, _) => self.do_send_at(
                from,
                msg,
                &targets,
                transmit,
            ),
            ContinuationHandler::Done => {
                proof {
                    assert(targets@ =~= Seq::<usize>::empty());
                }
            },
        }
        proof {
            assert forall|i: int|
                0 <= i < start.len() && #[trigger] routed(start, cont).contains(i as usize) implies copy_queued_through(
                self@[i],
                start[i],
                *transmit,
                cont.carried()->0,
            ) by {
                let msg = cont.carried()->0;
                let m = choose|m: Message<P>|
                    #[trigger] call_ensures(*transmit, (&start[i].recipient, m), ()) && cloned::<
                        Message<P>,
                    >(msg, m) && self@[i] == start[i].attempted(true);
                msg.lemma_cloned_copies(m);
            }
        }
    }

    /// Opens the delivery of a message to every neighbour not in `except`:
    /// each of their proxies hands out a message number. The positions of
    /// those proxies are returned, for the outcomes to be recorded.
    pub fn open_sends_except(&mut self, except: &[ActorId]) -> (t: Vec<usize>)
        requires
            forall|i: int| 0 <= i < old(self)@.len() ==> #[trigger] old(self)@[i].has_headroom(),
        ensures
            t@ == excluding(old(self)@, except@),
            final(self)@.len() == old(self)@.len(),
            forall|i: int|
                0 <= i < old(self)@.len() ==> if t@.contains(i as usize) {
                    final(self)@[i] == old(self)@[i].numbered()
                } else {
                    final(self)@[i] == old(self)@[i]
                },
    {
        let targets = self.targets_except(except);
        let _count = self.len();
        proof {
            lemma_excluding(self@, except@);
        }
        self.begin_sends_at(&targets);
        targets
    }

    /// Closes the delivery of a message: the outcome at each place of
    /// `outcomes` is recorded by the proxy at the same place of `targets`,
    /// which must have a send pending.
    pub fn close_sends<T, E>(&mut self, targets: &[usize], outcomes: &[Result<T, E>])
        requires
            increasing_below(targets@, old(self)@.len()),
            outcomes@.len() == targets@.len(),
            forall|k: int| 0 <= k < targets@.len() ==> old(self)@[#[trigger] targets@[k] as int].pending > 0,
        ensures
            final(self)@.len() == old(self)@.len(),
            forall|k: int|
                0 <= k < targets@.len() ==> final(self)@[#[trigger] targets@[k] as int] == old(
                    self,
                )@[targets@[k] as int].recorded(outcomes@[k] is Ok),
            forall|i: int|
                0 <= i < old(self)@.len() && !targets@.contains(i as usize) ==> final(self)@[i]
                    == old(self)@[i],
    {
        let count = self.proxies.len();
        proof {
            assert(self@.len() == count);
        }
        let ghost start = self@;
        let mut j: usize = 0;
        while j < targets.len()
            invariant
                j <= targets@.len(),
                outcomes@.len() == targets@.len(),
                increasing_below(targets@, start.len()),
                self@.len() == start.len(),
                self.proxies@.len() == start.len(),
                start.len() <= usize::MAX,
                forall|k: int| 0 <= k < targets@.len() ==> start[#[trigger] targets@[k] as int].pending > 0,
                forall|k: int|
                    0 <= k < j ==> self@[#[trigger] targets@[k] as int] == start[targets@[k] as int].recorded(
                        outcomes@[k] is Ok,
                    ),
                forall|i: int|
                    0 <= i < start.len() && !targets@.subrange(0, j as int).contains(i as usize)
                        ==> self@[i] == start[i],
            decreases targets@.len() - j,
        {
            let i = targets[j];
            proof {
                lemma_next_target(targets@, start.len(), j as int);
                assert(self@[i as int] == start[i as int]);
                assert(self.proxies@[i as int]@ == self@[i as int]);
            }
            let ghost before = self@;
            let delivered = outcomes[j].is_ok();
            let outcome: Result<(), ()> = if delivered {
                Ok(())
            } else {
                Err(())
            };
            let _ = self.proxies[i].end_send(outcome);
            proof {
                assert forall|k: int| 0 <= k < j + 1 implies self@[#[trigger] targets@[k] as int]
                    == start[targets@[k] as int].recorded(outcomes@[k] is Ok) by {
                    assert(self@[targets@[k] as int] == self.proxies@[targets@[k] as int]@);
                    if k < j {
                        assert(targets@[k] < targets@[j as int]);
                        assert(self@[targets@[k] as int] == before[targets@[k] as int]);
                    }
                }
                assert forall|x: int|
                    0 <= x < start.len() && !targets@.subrange(0, j + 1).contains(x as usize) implies self@[x]
                    == start[x] by {
                    assert(self@[x] == self.proxies@[x]@);
                    assert(self@[x] == before[x]);
                }
            }
            j = j + 1;
        }
        proof {
            assert(targets@.subrange(0, j as int) =~= targets@);
        }
    }

    /// Whether every proxy can number one more message.
    pub fn has_headroom(&self) -> (ok: bool)
        ensures
            ok == forall|i: int| 0 <= i < self@.len() ==> #[trigger] self@[i].has_headroom(),
    {
        let mut i: usize = 0;
        while i < self.proxies.len()
            invariant
                i <= self@.len(),
                self@.len() == self.proxies@.len(),
                forall|k: int| 0 <= k < i ==> #[trigger] self@[k].has_headroom(),
            decreases self@.len() - i,
        {
            proof {
                assert(self.proxies@[i as int]@ == self@[i as int]);
            }
            let p = &self.proxies[i];
            if p.next_mid().inner() == usize::MAX {
                assert(!self@[i as int].has_headroom());
                return false;
            }
            i = i + 1;
        }
        true
    }

    /// The positions of the proxies through which a continuation sends its message.
    pub fn route<P>(&self, cont: &ContinuationHandler<P>) -> (t: Vec<usize>)
        ensures
            t@ == routed(self@, *cont),
    {
        match cont {
            ContinuationHandler::SendToNode(aid, _) => self.targets_to(aid),
            ContinuationHandler::SendToAllNodes(_) => {
                let none: Vec<ActorId> = Vec::new();
                self.targets_except(none.as_slice())
            },
            ContinuationHandler::SendToAllNodesExcept(_, except) => self.targets_except(except.as_slice()),
            ContinuationHandler::Done => Vec::new(),
        }
    }
}

impl<R> Default for Proxies<R> {
    fn default() -> (ps: Proxies<R>)
        ensures
            ps@ == Seq::<ProxyView<R>>::empty(),
    {
        Proxies::new()
    }
}

impl<R> Text for CfgMessage<R> {
    /// `add` followed by the neighbour of the proxy added.
    open spec fn text_of(&self) -> Seq<char> {
        match self {
            CfgMessage::AddProxy(pxy) => "add "@ + pxy@.aid.text_of(),
        }
    }

    fn text(&self) -> (s: String) {
        proof {
            reveal_strlit("add ");
        }
        match self {
            CfgMessage::AddProxy(pxy) => {
                let mut s = String::from_str("add ");
                let aid = pxy.aid().text();
                s.append(aid.as_str());
                s
            },
        }
    }
}

} // verus!
