use kaantor::protocol::{Builder, FromId, HopId, SenderId, SessionId, To};
use kaantor::text::{debug_iter, decimal_string, join_texts, prefixed_decimal, Text};
use kaantor::kantor::protocol::ProtocolBuilder;
use kaantor::kantor::{FromId as KFromId, HopId as KHopId, ToId};
use kaantor::proxy::{CfgMessage, MessageId, Proxy};
use kaantor::ActorId;

#[test]
fn decimal_writing() {
    assert_eq!("0", decimal_string(0));
    assert_eq!("7", decimal_string(7));
    assert_eq!("10", decimal_string(10));
    assert_eq!("1234567", decimal_string(1234567));
    assert_eq!(u64::MAX.to_string(), decimal_string(u64::MAX));
    assert_eq!("4294967295", 4294967295u32.text());
    assert_eq!("18", 18usize.text());
    assert_eq!("A42", prefixed_decimal("A", 42));
}

#[test]
fn identifier_texts() {
    assert_eq!("A5", ActorId::new(5).text());
    assert_eq!("S200", SenderId::from(200).text());
    assert_eq!("50", SessionId::from(50).text());
    assert_eq!("A3", HopId::from(3).text());
    assert_eq!("A5", FromId::from(5).text());
    assert_eq!("api", FromId::Api.text());
    assert_eq!("A10", To::from(10).text());
    assert_eq!("all", To::All.text());
    assert_eq!("all--", To::AllExcept(vec![ActorId::new(1)]).text());
}

#[test]
fn message_text() {
    let msg = Builder::with_from_actor(5.into())
        .with_to_actor(10.into())
        .with_session(50.into())
        .with_payload(5000)
        .with_sender(200.into())
        .build();
    assert_eq!("[50] [A5-->A10] [S200]", msg.text());
    let api = Builder::with_from_api()
        .with_to_all_actors()
        .with_session(1.into())
        .with_payload(())
        .with_sender(1.into())
        .build();
    assert_eq!("[1] [api-->all] [S1]", api.text());
}

#[test]
fn lists_are_joined_with_commas() {
    assert_eq!("", debug_iter::<ActorId>(&[]));
    assert_eq!("A1", debug_iter(&[ActorId::new(1)]));
    assert_eq!("A1, A2, A3", debug_iter(&[ActorId::new(1), ActorId::new(2), ActorId::new(3)]));
    assert_eq!("x, y", join_texts(&["".to_string(), "x".to_string(), "y".to_string()]));
    assert_eq!("a, , b", join_texts(&["a".to_string(), "".to_string(), "b".to_string()]));
}

#[test]
fn destinations_clone_and_convert() {
    let to = To::AllExcept(vec![ActorId::new(1), ActorId::new(2)]);
    assert_eq!(to, to.clone());
    assert_eq!(To::Actor(ActorId::new(4)), To::from(ActorId::new(4)));
    assert_eq!(ActorId::from(4), ActorId::new(4));
    assert_eq!(4, ActorId::from(4).inner());
    assert_eq!(9, SessionId::new(9).inner());
    assert_eq!(ActorId::new(3), HopId::from(3).aid());
}

#[test]
fn routing_and_proxy_texts() {
    assert_eq!("A5", KFromId::from(5).text());
    assert_eq!("A6", ToId::from(6).text());
    assert_eq!("all", ToId::ToAllActors.text());
    assert_eq!("all--", ToId::ToAllActorsExcept(vec![]).text());
    assert_eq!("A7", KHopId::from(7).text());
    assert_eq!("12", MessageId::new(12).text());
    assert_eq!("add A3", CfgMessage::AddProxy(Proxy::new(ActorId::new(3), ())).text());
    let msg = ProtocolBuilder::from_aid(ActorId::new(5))
        .to_actor(ActorId::new(10))
        .with_payload(0u8)
        .with_hid(ActorId::new(200))
        .build();
    assert_eq!("[0] [A5-->A10] [A200]", msg.text());
}
