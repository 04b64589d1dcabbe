use atris::comms::{carry, AtrisChannel, AtrisChannelParts, FrameOutcome, TryReceiveError, TryRecvError};
use atris::create_room::{create_room, CreateRoomRequest};
use atris::join_room::{join_room, JoinRoomRequest};
use atris::key::CipherKey;
use atris::session_table::AtrisSessionDBClient;
use atris::room_table::AtrisRoomDBClient;
use atris::set_room_responder::{set_room_responder, SetRoomResponderRequest};
use atris::signal::{decode, encode, try_encode, SignalError};

#[test]
fn two_users_meet_and_talk() {
    // Both users are logged in; B's offer is on record.
    let sa = CipherKey::generate();
    let sb = CipherKey::generate();
    let mut sessions = AtrisSessionDBClient::new();
    sessions.create_session(sa.clone(), "A".into(), "A-OFFER".into()).unwrap();
    sessions.create_session(sb.clone(), "B".into(), "B-OFFER".into()).unwrap();
    let mut rooms = AtrisRoomDBClient::new();

    // A opens a room with B and learns B's offer.
    let room = create_room(&sessions, &mut rooms, CreateRoomRequest { session_id: sa.clone(), other_user_name: "B".into() }).unwrap();
    assert_eq!(room.initiator_string, "B-OFFER");

    // B completes the room with the answer and gets the key.
    let request = SetRoomResponderRequest {
        session_id: sb.clone(),
        room_id: room.room_id,
        other_user_name: "A".into(),
        responder_string: "A-ANSWER".into(),
    };
    let k = set_room_responder(&sessions, &mut rooms, request).unwrap().room_symmetric_key;

    // A joins and recovers answer and key under A's own session.
    let joined = join_room(&sessions, &rooms, JoinRoomRequest { session_id: sa.clone(), room_id: room.room_id }).unwrap();
    let data = joined.room_data.decrypt(&sa.as_cipher()).unwrap();
    assert_eq!(data.responder_string, "A-ANSWER");
    assert_eq!(data.symmetric_key.as_bytes(), k.as_bytes());

    // Both hold K: what A sends, B receives as sent.
    let mut a: AtrisChannel<String> = AtrisChannel::new(AtrisChannelParts::new(), data.symmetric_key.as_cipher());
    let mut b: AtrisChannel<String> = AtrisChannel::new(AtrisChannelParts::new(), k.as_cipher());
    a.send("hello".to_string()).unwrap();
    assert_eq!(carry(&mut a, &mut b), Some(FrameOutcome::Queued));
    assert_eq!(carry(&mut a, &mut b), None);
    assert_eq!(b.try_receive().unwrap(), "hello");
    assert_eq!(b.try_receive().err(), Some(TryReceiveError::Emp(TryRecvError::Empty)));
}

#[test]
fn carry_into_a_closed_channel_loses_the_frame() {
    let k = CipherKey::generate();
    let mut a: AtrisChannel<String> = AtrisChannel::new(AtrisChannelParts::new(), k.as_cipher());
    let mut b: AtrisChannel<String> = AtrisChannel::new(AtrisChannelParts::new(), k.as_cipher());
    a.send("hello".to_string()).unwrap();
    b.close();
    assert_eq!(carry(&mut a, &mut b), Some(FrameOutcome::Closed));
    assert_eq!(b.try_receive().err(), Some(TryReceiveError::Emp(TryRecvError::Disconnected)));
}

#[test]
fn descriptions_travel_as_base64() {
    assert_eq!(encode("hello"), "aGVsbG8=");
    assert_eq!(encode(""), "");
    assert_eq!(encode("{\"type\":\"offer\",\"sdp\":\"v=0\\r\\n\"}"), "eyJ0eXBlIjoib2ZmZXIiLCJzZHAiOiJ2PTBcclxuIn0=");
    assert_eq!(try_encode("hé"), Some("aMOp".to_string()));
    assert_eq!(decode("aGVsbG8="), Ok("hello".to_string()));
    assert_eq!(decode("aMOp"), Ok("hé".to_string()));
    assert_eq!(decode("aGVsbG8"), Err(SignalError::Base64));
    assert_eq!(decode("not base64!"), Err(SignalError::Base64));
    assert_eq!(decode("/w=="), Err(SignalError::Utf8));
    let long = "x".repeat(10_000);
    assert_eq!(decode(&encode(&long)), Ok(long));
}
