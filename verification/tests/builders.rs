use kaantor::kantor::message::Builder as MsgBuilder;
use kaantor::kantor::protocol::{ProtocolBuilder, SessionId as KSessionId};
use kaantor::kantor::{FromId as KFromId, HopId as KHopId, ToId};
use kaantor::protocol::{Builder, FromId, SenderId, SessionId, To};
use kaantor::ActorId;

#[test]
fn builder_build_() {
    let bld = ProtocolBuilder::from_aid(5.into());
    let bld = bld.to_actor(10.into());
    let bld = bld.with_payload(5000);
    let bld = bld.with_hid(200.into());
    let msg = bld.build();

    assert_eq!(KFromId::from(5), *msg.fid());
    assert_eq!(ToId::from(10), *msg.tid());
    assert_eq!(KHopId::from(200), *msg.hid());
    assert_eq!(5000, *msg.payload());

    let bld = ProtocolBuilder::from_message(msg);
    let bld = bld.with_hid(300.into());
    let msg = bld.build();

    assert_eq!(KFromId::from(5), *msg.fid());
    assert_eq!(ToId::from(10), *msg.tid());
    assert_eq!(KHopId::from(300), *msg.hid());
    assert_eq!(5000, *msg.payload());
}

#[test]
fn msg_build_() {
    let bld = MsgBuilder::<usize>::new();
    let bld = bld.from_actor(5.into());
    let bld = bld.to_actor(10.into());
    let bld = bld.with_payload(5000);
    let bld = bld.with_hid(200.into());
    let msg = bld.build();

    assert_eq!(KFromId::from(5), *msg.fid());
    assert_eq!(ToId::from(10), *msg.tid());
    assert_eq!(KHopId::from(200), *msg.hid());
    assert_eq!(5000, *msg.payload());

    let bld = MsgBuilder::from_message(msg);
    let bld = bld.with_hid(300.into());
    let msg = bld.build();

    assert_eq!(KFromId::from(5), *msg.fid());
    assert_eq!(ToId::from(10), *msg.tid());
    assert_eq!(KHopId::from(300), *msg.hid());
    assert_eq!(5000, *msg.payload());
}

#[test]
fn build_() {
    let msg = Builder::with_from_actor(5.into())
        .with_to_actor(10.into())
        .with_session(50.into())
        .with_payload(5000)
        .with_sender(200.into())
        .build();

    assert_eq!(FromId::from(5), *msg.from());
    assert_eq!(To::from(10), *msg.to());
    assert_eq!(SessionId::from(50), *msg.session());
    assert_eq!(SenderId::from(200), *msg.sender());
    assert_eq!(5000, *msg.payload());

    let msg = Builder::with_message(msg).with_sender(300.into()).build();

    assert_eq!(FromId::from(5), *msg.from());
    assert_eq!(To::from(10), *msg.to());
    assert_eq!(SessionId::from(50), *msg.session());
    assert_eq!(SenderId::from(300), *msg.sender());
    assert_eq!(5000, *msg.payload());
}

#[test]
fn protocol_builder_keeps_session_of_received_message() {
    let first = ProtocolBuilder::from_aid(ActorId::new(1))
        .to_all_actors()
        .with_payload("go")
        .with_hid(ActorId::new(1))
        .build();
    assert_eq!(KSessionId::from(0), *first.sid());
    assert_eq!(ToId::ToAllActors, *first.tid());

    let forwarded = ProtocolBuilder::from(first).with_hid(ActorId::new(2)).build();
    assert_eq!(KFromId::from(1), *forwarded.fid());
    assert_eq!(ToId::ToAllActors, *forwarded.tid());
    assert_eq!(KHopId::from(2), *forwarded.hid());
    assert_eq!(KSessionId::from(0), *forwarded.sid());
    assert_eq!("go", *forwarded.payload());

    let from_actor: ProtocolBuilder<u8, _> = ProtocolBuilder::from(ActorId::new(7));
    let msg = from_actor.to_actor(ActorId::new(8)).with_payload(3u8).with_hid(ActorId::new(7)).build();
    assert_eq!(KFromId::from(7), *msg.fid());
    assert_eq!(ToId::from(8), *msg.tid());
}

#[test]
fn reply_keeps_origin_and_destination() {
    let request = Builder::with_from_api()
        .with_to_actor(ActorId::new(1))
        .with_session(SessionId::new(9))
        .with_payload(1u32)
        .with_sender(ActorId::new(1))
        .build();
    let reply = Builder::with_from_to(&request)
        .with_session(SessionId::new(10))
        .with_payload(2u32)
        .with_sender(ActorId::new(4))
        .build();
    assert_eq!(FromId::Api, *reply.from());
    assert_eq!(To::from(1), *reply.to());
    assert_eq!(SessionId::from(10), *reply.session());
    assert_eq!(SenderId::from(4), *reply.sender());
    assert_eq!(2, *reply.payload());

    let broadcast = Builder::with_from_actor(ActorId::new(3))
        .with_to_all_actors()
        .with_session(SessionId::new(1))
        .with_payload(())
        .with_sender(ActorId::new(3))
        .build();
    assert_eq!(To::All, *broadcast.to());
    assert_eq!(SenderId::from(3).as_aid(), ActorId::new(3));
}
