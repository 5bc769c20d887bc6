use kaantor::protocol::{Builder, Message, SessionId};
use kaantor::proxy::{Builder as ProxyBuilder, CfgMessage, MessageId, Metrics, Proxies, Proxy};
use kaantor::{ActorId, ContinuationHandler};
use std::cell::RefCell;

fn aid(n: usize) -> ActorId {
    ActorId::new(n)
}

fn msg(payload: u32) -> Message<u32> {
    Builder::with_from_actor(aid(1))
        .with_to_all_actors()
        .with_session(SessionId::new(7))
        .with_payload(payload)
        .with_sender(aid(1))
        .build()
}

#[test]
fn metrics_count_every_attempt_once() {
    let mut m = Metrics::default();
    assert_eq!((0, 0, 0), (m.total(), m.successes(), m.failures()));
    m.record_success();
    m.record_failure();
    m.record_success();
    assert_eq!(3, m.total());
    assert_eq!(2, m.successes());
    assert_eq!(1, m.failures());
    assert_eq!(m.total(), m.successes() + m.failures());
}

#[test]
fn message_ids_are_handed_out_in_order() {
    let mut mid = MessageId::default();
    assert_eq!(0, mid.inner());
    assert_eq!(0, mid.increment_mid().inner());
    assert_eq!(1, mid.increment_mid().inner());
    assert_eq!(2, mid.inner());
    let mut late = MessageId::new(41);
    assert_eq!(41, late.increment_mid().inner());
    assert_eq!(42, late.inner());
}

#[test]
fn proxy_try_send_counts_outcomes() {
    let mut p = Proxy::new(aid(3), true);
    assert_eq!(aid(3), *p.aid());
    assert_eq!(0, p.next_mid().inner());
    let ok: Result<(), String> = p.try_send(&aid(1), 5u8, &|up: &bool, _m: u8| if *up { Ok(()) } else { Err("down".to_string()) });
    assert_eq!(Ok(()), ok);
    let mut down = Proxy::new(aid(4), false);
    let err: Result<(), String> = down.try_send(&aid(1), 5u8, &|up: &bool, _m: u8| if *up { Ok(()) } else { Err("down".to_string()) });
    assert_eq!(Err("down".to_string()), err);
    assert_eq!((1, 1, 0), (p.metrics().total(), p.metrics().successes(), p.metrics().failures()));
    assert_eq!((1, 0, 1), (down.metrics().total(), down.metrics().successes(), down.metrics().failures()));
    assert_eq!(1, p.next_mid().inner());
    assert_eq!(1, down.next_mid().inner());
}

#[test]
fn proxy_do_send_counts_delivery_and_passes_message() {
    let seen = RefCell::new(Vec::new());
    let mut p = Proxy::new(aid(2), 10u32);
    p.do_send(&aid(1), 7u32, &|r: &u32, m: u32| seen.borrow_mut().push(*r + m));
    p.do_send(&aid(1), 8u32, &|r: &u32, m: u32| seen.borrow_mut().push(*r + m));
    assert_eq!(vec![17, 18], *seen.borrow());
    assert_eq!(2, p.metrics().successes());
    assert_eq!(2, p.next_mid().inner());
}

#[test]
fn proxy_records_outcome_of_awaited_send() {
    let mut p = Proxy::new(aid(2), ());
    let mid = p.begin_send();
    assert_eq!(0, mid.inner());
    assert_eq!(1, p.pending());
    assert_eq!(1, p.next_mid().inner());
    assert_eq!(0, p.metrics().total());
    let r: Result<u8, &str> = p.end_send(Err("closed"));
    assert_eq!(Err("closed"), r);
    assert_eq!(0, p.pending());
    let second = p.begin_send();
    assert_eq!(1, second.inner());
    let r: Result<u8, &str> = p.end_send(Ok(9));
    assert_eq!(Ok(9), r);
    assert_eq!((2, 1, 1), (p.metrics().total(), p.metrics().successes(), p.metrics().failures()));
    assert_eq!(2, p.next_mid().inner());
}

#[test]
fn proxy_numbers_match_attempts_and_pending_sends() {
    let mut p = Proxy::new(aid(5), true);
    let _ = p.begin_send();
    let _ = p.begin_send();
    assert_eq!(2, p.pending());
    let _: Result<(), ()> = p.try_send(&aid(1), 1u8, &|_: &bool, _m: u8| Err(()));
    p.do_send(&aid(1), 2u8, &|_: &bool, _m: u8| {});
    let _: Result<(), ()> = p.end_send(Ok(()));
    assert_eq!(4, p.next_mid().inner());
    assert_eq!(1, p.pending());
    assert_eq!(3, p.metrics().total());
    assert_eq!(p.next_mid().inner(), p.metrics().total() + p.pending());
    assert_eq!(p.metrics().total(), p.metrics().successes() + p.metrics().failures());
}

fn three_neighbours() -> Proxies<usize> {
    let mut ps = Proxies::default();
    ps.add_proxy(Proxy::new(aid(2), 0));
    ps.handle_msg(CfgMessage::AddProxy(Proxy::new(aid(3), 1)));
    ps.add_proxy(Proxy::new(aid(4), 2));
    ps
}

#[test]
fn proxies_choose_neighbours_not_excluded() {
    let ps = three_neighbours();
    assert_eq!(3, ps.len());
    assert_eq!(vec![aid(2), aid(3), aid(4)], ps.aids());
    assert_eq!(vec![0, 1, 2], ps.targets_except(&[]));
    assert_eq!(vec![0, 2], ps.targets_except(&[aid(3)]));
    assert_eq!(vec![2], ps.targets_except(&[aid(2), aid(3), aid(9)]));
    assert_eq!(Vec::<usize>::new(), ps.targets_except(&[aid(4), aid(3), aid(2)]));
    assert_eq!(vec![1], ps.targets_to(&aid(3)));
    assert_eq!(Vec::<usize>::new(), ps.targets_to(&aid(9)));
    assert!(ps.has_headroom());
}

#[test]
fn proxies_route_continuations() {
    let ps = three_neighbours();
    assert_eq!(vec![1], ps.route(&ContinuationHandler::SendToNode(aid(3), msg(1))));
    assert_eq!(vec![0, 1, 2], ps.route(&ContinuationHandler::SendToAllNodes(msg(1))));
    assert_eq!(vec![0, 2], ps.route(&ContinuationHandler::SendToAllNodesExcept(msg(1), vec![aid(3)])));
    assert_eq!(Vec::<usize>::new(), ps.route(&ContinuationHandler::<u32>::Done));
}

#[test]
fn proxies_try_send_all_except_touches_only_targets() {
    let mut ps = three_neighbours();
    let sent = RefCell::new(Vec::new());
    ps.try_send_all_except(&aid(1), 'x', &[aid(3)], &|r: &usize, m: char| {
        sent.borrow_mut().push((*r, m));
        if *r == 0 { Ok(()) } else { Err(()) }
    });
    assert_eq!(vec![(0, 'x'), (2, 'x')], *sent.borrow());
    assert_eq!((1, 1, 0), (ps.get(0).metrics().total(), ps.get(0).metrics().successes(), ps.get(0).metrics().failures()));
    assert_eq!(0, ps.get(1).metrics().total());
    assert_eq!(0, ps.get(1).next_mid().inner());
    assert_eq!((1, 0, 1), (ps.get(2).metrics().total(), ps.get(2).metrics().successes(), ps.get(2).metrics().failures()));
}

#[test]
fn proxies_do_send_all_except_and_routed() {
    let mut ps = three_neighbours();
    let sent = RefCell::new(Vec::new());
    ps.do_send_all_except(&aid(1), 5u8, &[aid(2)], &|r: &usize, m: u8| sent.borrow_mut().push((*r, m)));
    assert_eq!(vec![(1, 5), (2, 5)], *sent.borrow());
    assert_eq!(0, ps.get(0).metrics().total());
    assert_eq!(1, ps.get(1).metrics().successes());

    let delivered = RefCell::new(Vec::new());
    ps.do_send_routed(&aid(1), ContinuationHandler::SendToNode(aid(2), msg(42)), &|r: &usize, m: Message<u32>| {
        delivered.borrow_mut().push((*r, *m.payload()))
    });
    ps.do_send_routed(&aid(1), ContinuationHandler::Done, &|r: &usize, m: Message<u32>| {
        delivered.borrow_mut().push((*r, *m.payload()))
    });
    ps.do_send_routed(&aid(1), ContinuationHandler::SendToAllNodes(msg(43)), &|r: &usize, m: Message<u32>| {
        delivered.borrow_mut().push((*r, *m.payload()))
    });
    assert_eq!(vec![(0, 42), (0, 43), (1, 43), (2, 43)], *delivered.borrow());
    assert_eq!(2, ps.get(0).metrics().successes());
    assert_eq!(2, ps.get(0).next_mid().inner());
}

#[test]
fn proxies_open_and_close_awaited_sends() {
    let mut ps = three_neighbours();
    let targets = ps.open_sends_except(&[aid(2)]);
    assert_eq!(vec![1, 2], targets);
    assert_eq!(0, ps.get(0).next_mid().inner());
    assert_eq!(1, ps.get(1).next_mid().inner());
    assert_eq!(1, ps.get(2).next_mid().inner());
    assert_eq!((0, 1, 1), (ps.get(0).pending(), ps.get(1).pending(), ps.get(2).pending()));
    let outcomes: Vec<Result<(), ()>> = vec![Err(()), Ok(())];
    ps.close_sends(&targets, &outcomes);
    assert_eq!((1, 0, 1), (ps.get(1).metrics().total(), ps.get(1).metrics().successes(), ps.get(1).metrics().failures()));
    assert_eq!((1, 1, 0), (ps.get(2).metrics().total(), ps.get(2).metrics().successes(), ps.get(2).metrics().failures()));
    assert_eq!(0, ps.get(0).metrics().total());
    assert_eq!((0, 0, 0), (ps.get(0).pending(), ps.get(1).pending(), ps.get(2).pending()));
}

#[test]
fn proxy_builder_sets_neighbour_and_handle() {
    let p = ProxyBuilder::from_aid(aid(6)).with_recipient("inbox").build();
    assert_eq!(aid(6), *p.aid());
    assert_eq!("inbox", *p.recipient());
    assert_eq!(0, p.next_mid().inner());
    assert_eq!(0, p.metrics().total());
    let q = ProxyBuilder::from(aid(8)).with_recipient(1u8).build();
    assert_eq!(aid(8), *q.aid());
}

#[test]
fn messages_clone_with_their_parts() {
    let m = msg(11);
    let c = m.clone();
    assert_eq!(*m.from(), *c.from());
    assert_eq!(*m.to(), *c.to());
    assert_eq!(*m.session(), *c.session());
    assert_eq!(*m.sender(), *c.sender());
    assert_eq!(11, *c.payload());
}

#[test]
fn proxies_do_send_routed_delivers_copies_of_the_message() {
    let mut ps = three_neighbours();
    let original = Builder::with_from_actor(aid(9))
        .with_to_actor(aid(3))
        .with_session(SessionId::new(4))
        .with_payload(77u32)
        .with_sender(aid(5))
        .build();
    let seen = RefCell::new(Vec::new());
    ps.do_send_routed(
        &aid(1),
        ContinuationHandler::SendToAllNodesExcept(original.clone(), vec![aid(2)]),
        &|r: &usize, m: Message<u32>| {
            seen.borrow_mut().push((*r, *m.from(), m.to().clone(), *m.session(), *m.sender(), *m.payload()))
        },
    );
    let expected = |r: usize| (r, *original.from(), original.to().clone(), *original.session(), *original.sender(), 77u32);
    assert_eq!(vec![expected(1), expected(2)], *seen.borrow());
}
