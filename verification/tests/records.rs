use atris::auth_table::User;
use atris::authenticate_user::AuthenticateUserError;
use atris::create_room::CreateRoomError;
use atris::create_user::CreateUserError;
use atris::encrypted::{Encrypted, EncryptedBytes};
use atris::get_room::GetRoomError;
use atris::join_room::JoinRoomError;
use atris::key::CipherKey;
use atris::message::AtrisMessageData;
use atris::room_data::RoomData;
use atris::room_table::Room;
use atris::session_table::{AuthenticateSessionError, CreateSessionError, Session};
use atris::set_room_responder::SetRoomResponderError;
use atris::store::{AttributeValue, Item};
use atris::text::{byte_list, decimal, parse_u16};
use atris::wire::Wire;

#[test]
fn decimal_writes_without_sign_or_leading_zero() {
    assert_eq!(decimal(0), "0");
    assert_eq!(decimal(7), "7");
    assert_eq!(decimal(10), "10");
    assert_eq!(decimal(4711), "4711");
    assert_eq!(decimal(65535), "65535");
}

#[test]
fn parse_reads_what_std_reads() {
    let inputs = [
        "0", "7", "007", "+7", "65535", "65536", "99999", "100000", "", "+", "-1", "-0", "1 ", " 1", "1a", "١", "+-1", "++1",
        "0000000000000000000000065535", "6553６",
    ];
    for text in inputs {
        assert_eq!(parse_u16(text), text.parse::<u16>().ok(), "{text:?}");
    }
    for n in 0..=u16::MAX {
        assert_eq!(parse_u16(&decimal(n)), Some(n));
        assert_eq!(decimal(n), n.to_string());
    }
}

#[test]
fn byte_list_is_comma_separated() {
    assert_eq!(byte_list(&[]), "");
    assert_eq!(byte_list(&[5]), "5");
    assert_eq!(byte_list(&[0, 255, 16]), "0, 255, 16");
}

#[test]
fn item_lookup_takes_the_first_of_a_name() {
    let item = Item::new()
        .item("a", AttributeValue::S("one".into()))
        .item("b", AttributeValue::N("2".into()))
        .item("a", AttributeValue::S("three".into()));
    assert_eq!(item.get_s("a"), Some(&"one".to_string()));
    assert_eq!(item.get_n("b"), Some(&"2".to_string()));
    assert_eq!(item.get_s("b"), None);
    assert_eq!(item.get_b("a"), None);
    assert!(item.get("c").is_none());
}

#[test]
fn session_record_round_trip() {
    let session = Session::new(CipherKey::from_bytes([3; 32]), "marcel".into(), "OFFER".into());
    let item = session.to_item();
    assert_eq!(item.get_b("session_id"), Some(&vec![3u8; 32]));
    assert_eq!(item.get_s("username"), Some(&"marcel".to_string()));
    assert_eq!(item.get_s("initiator"), Some(&"OFFER".to_string()));
    let back = Session::from_map(&item).unwrap();
    assert_eq!(back.session_id.as_bytes(), &[3u8; 32]);
    assert_eq!(back.username, "marcel");
    assert_eq!(back.initiator, "OFFER");
}

#[test]
fn session_record_with_a_short_id_or_a_missing_field_is_no_session() {
    let short = Item::new()
        .item("session_id", AttributeValue::B(vec![1; 31]))
        .item("username", AttributeValue::S("u".into()))
        .item("initiator", AttributeValue::S("i".into()));
    assert!(Session::from_map(&short).is_none());
    let missing = Item::new()
        .item("session_id", AttributeValue::B(vec![1; 32]))
        .item("username", AttributeValue::S("u".into()));
    assert!(Session::from_map(&missing).is_none());
    let wrong_kind = Item::new()
        .item("session_id", AttributeValue::S("x".into()))
        .item("username", AttributeValue::S("u".into()))
        .item("initiator", AttributeValue::S("i".into()));
    assert!(Session::from_map(&wrong_kind).is_none());
}

#[test]
fn user_record_round_trip() {
    let user = User::new("marcel".into(), "$argon2id$...".into());
    let item = user.to_item();
    assert_eq!(item.get_s("hashed_salted_password"), Some(&"$argon2id$...".to_string()));
    let back = User::from_map(&item).unwrap();
    assert_eq!(back.username, "marcel");
    assert_eq!(back.password_hash, "$argon2id$...");
    assert!(User::from_map(&Item::new().item("username", AttributeValue::S("x".into()))).is_none());
}

#[test]
fn room_record_round_trip() {
    let key = CipherKey::from_bytes([1; 32]);
    let data = RoomData { responder_string: "ANSWER".into(), symmetric_key: CipherKey::from_bytes([2; 32]) };
    let sealed = Encrypted::<RoomData>::encrypt(&data, &key.as_cipher()).unwrap();
    let room = Room { room_id: 4711, creator_user_name: "A".into(), room_data: sealed.clone() };
    let item = room.to_item();
    assert_eq!(item.get_n("room_id"), Some(&"4711".to_string()));
    assert_eq!(item.get_s("room_creator"), Some(&"A".to_string()));
    assert_eq!(item.get_b("room_data"), Some(&sealed.encode()));
    let back = Room::from_map(&item).unwrap();
    assert_eq!(back.room_id, 4711);
    assert_eq!(back.creator_user_name, "A");
    let opened = back.room_data.decrypt(&key.as_cipher()).unwrap();
    assert_eq!(opened.responder_string, "ANSWER");
}

#[test]
fn room_record_without_data_is_no_completed_room() {
    let incomplete = Item::new()
        .item("room_id", AttributeValue::N("12".into()))
        .item("room_creator", AttributeValue::S("A".into()));
    assert!(Room::from_map(&incomplete).is_none());
    let bad_number = Item::new()
        .item("room_id", AttributeValue::N("70000".into()))
        .item("room_creator", AttributeValue::S("A".into()))
        .item("room_data", AttributeValue::B(EncryptedBytes::from_parts(vec![], vec![]).encode()));
    assert!(Room::from_map(&bad_number).is_none());
    let bad_data = Item::new()
        .item("room_id", AttributeValue::N("12".into()))
        .item("room_creator", AttributeValue::S("A".into()))
        .item("room_data", AttributeValue::B(vec![1, 2, 3]));
    assert!(Room::from_map(&bad_data).is_none());
}

#[test]
fn room_data_layout_is_text_then_key() {
    let data = RoomData { responder_string: "ab".into(), symmetric_key: CipherKey::from_bytes([9; 32]) };
    let bytes = data.encode();
    let mut expected = vec![2, 0, 0, 0, 0, 0, 0, 0, b'a', b'b', 32, 0, 0, 0, 0, 0, 0, 0];
    expected.extend_from_slice(&[9; 32]);
    assert_eq!(bytes, expected);
    assert_eq!(bytes, bincode::serialize(&("ab", serde_bytes::Bytes::new(&[9u8; 32]))).unwrap());
    let back = RoomData::decode(&bytes).unwrap();
    assert_eq!(back.responder_string, "ab");
    assert_eq!(back.symmetric_key.as_bytes(), &[9u8; 32]);
    let mut short_key = vec![0, 0, 0, 0, 0, 0, 0, 0, 31, 0, 0, 0, 0, 0, 0, 0];
    short_key.extend_from_slice(&[9; 31]);
    assert!(RoomData::decode(&short_key).is_none());
    assert!(RoomData::decode(&bytes[..bytes.len() - 1]).is_none());
}

#[test]
fn message_layout_is_tag_then_fields() {
    let text = AtrisMessageData::Text("hi".into());
    assert_eq!(text.encode(), vec![0, 0, 0, 0, 2, 0, 0, 0, 0, 0, 0, 0, b'h', b'i']);
    let file = AtrisMessageData::File { data: vec![1, 2, 3], name: "f".into() };
    assert_eq!(
        file.encode(),
        vec![1, 0, 0, 0, 3, 0, 0, 0, 0, 0, 0, 0, 1, 2, 3, 1, 0, 0, 0, 0, 0, 0, 0, b'f']
    );
    match AtrisMessageData::decode(&text.encode()) {
        Some(AtrisMessageData::Text(s)) => assert_eq!(s, "hi"),
        other => panic!("{other:?}"),
    }
    match AtrisMessageData::decode(&file.encode()) {
        Some(AtrisMessageData::File { data, name }) => {
            assert_eq!(data, vec![1, 2, 3]);
            assert_eq!(name, "f");
        }
        other => panic!("{other:?}"),
    }
    assert!(AtrisMessageData::decode(&[2, 0, 0, 0, 0, 0, 0, 0, 0, 0, 0, 0]).is_none());
    assert!(AtrisMessageData::decode(&[0, 0, 0]).is_none());
    assert!(AtrisMessageData::decode(&[1, 0, 0, 0, 3, 0, 0, 0, 0, 0, 0, 0, 1, 2]).is_none());
}

#[test]
fn error_messages() {
    assert_eq!(AuthenticateUserError::UnknownUsername("bob".into()).message(), "Username bob is not registered");
    assert_eq!(AuthenticateUserError::MissingPassword.message(), "The database did not have a password for this user");
    assert_eq!(AuthenticateUserError::WrongPassword.message(), "The password provided does not match");
    assert_eq!(AuthenticateUserError::DatabaseRead.message(), "Failed to read user authentication details from the database");
    assert_eq!(AuthenticateUserError::DatabaseWrite.message(), "Failed to write network information to the database");
    assert_eq!(CreateRoomError::DuplicateRoomId(17).message(), "RoomID '17' is already taken");
    assert_eq!(CreateRoomError::BincodeError.message(), "Error serializing room data");
    assert_eq!(CreateRoomError::EncryptionError.message(), "Error encrypting room data");
    assert_eq!(CreateRoomError::DatabaseWriteError.message(), "Failed to write to the database");
    assert_eq!(CreateRoomError::NoSessionForUser("bob".into()).message(), "No session found for user bob.");
    let key = CipherKey::from_bytes([1; 32]);
    let shown = format!("CipherKey([{}])", vec!["1"; 32].join(", "));
    assert_eq!(key.to_debug_string(), shown);
    assert_eq!(CreateRoomError::InvalidSessionId(key.clone()).message(), format!("Session {shown} does not exist."));
    assert_eq!(CreateUserError::DuplicateUsername("bob".into()).message(), "Username 'bob' is already taken");
    assert_eq!(CreateUserError::HashError.message(), "Error creating password hash");
    assert_eq!(CreateUserError::DatabaseWriteError.message(), "Failed to write to the database");
    assert_eq!(GetRoomError::NonexistentRoomId(3).message(), "RoomID '3' does not exist");
    assert_eq!(GetRoomError::DatabaseReadError.message(), "Failed to read from the database");
    assert_eq!(JoinRoomError::IncompleteRoom.message(), "Not all keys present for room.");
    assert_eq!(JoinRoomError::NonexistentRoomId(65535).message(), "RoomID '65535' does not exist");
    assert_eq!(JoinRoomError::DatabaseReadError.message(), "Failed to read from the database");
    assert_eq!(JoinRoomError::InvalidSessionId(key.clone()).message(), format!("Session {shown} does not exist."));
    assert_eq!(SetRoomResponderError::InvalidRoomId(9).message(), "RoomID '9' is not found");
    assert_eq!(
        SetRoomResponderError::NotRoomCreator("bob".into()).message(),
        "User \"bob\" did not create this room and, as such, cannot set the responder."
    );
    assert_eq!(SetRoomResponderError::NoSessionForUser("bob".into()).message(), "No session found for user bob.");
    assert_eq!(SetRoomResponderError::EncryptionError.message(), "Error encrypting room data");
    assert_eq!(SetRoomResponderError::BincodeError.message(), "Error serializing room data");
    assert_eq!(SetRoomResponderError::DatabaseWriteError.message(), "Failed to write to the database");
    assert_eq!(SetRoomResponderError::InvalidSessionId(key.clone()).message(), format!("Session {shown} does not exist."));
    assert_eq!(CreateSessionError::DuplicateSession(key).message(), format!("Session '{shown}' already exists"));
    assert_eq!(CreateSessionError::DatabaseWriteError.message(), "Failed to write to the database");
    assert_eq!(AuthenticateSessionError::UnknownSession("abc".into()).message(), "Session abc doesn't exist");
    assert_eq!(AuthenticateSessionError::DatabaseRead.message(), "Failed to read user authentication details from the database");
    assert_eq!(AuthenticateSessionError::DatabaseWrite.message(), "Failed to write network information to the database");
}
