use atris::auth_table::{create_user_outcome, User};
use atris::authenticate_user::{authenticate_user_check, password_outcome, session_outcome, AuthenticateUserError};
use atris::create_room::{allocation, create_room_check, create_room_in_lowest_free, CreateRoomError, CreateRoomRequest, RoomAllocation};
use atris::create_user::CreateUserError;
use atris::encrypted::{can_open, can_seal, fresh_nonce, DecryptionError, Encrypted, EncryptedBytes, MAX_PLAINTEXT_LEN, TAG_LEN};
use atris::join_room::{join_room_check, join_room_outcome, JoinRoomError};
use atris::key::{CipherKey, KEY_LEN};
use atris::password::{check_attempt, new_password_hash, PasswordCheck, MAX_PASSWORD_LEN};
use atris::room_data::RoomData;
use atris::room_table::{AtrisRoomDBClient, create_room_outcome, get_room_outcome, room_from_item, room_item, update_room_data_outcome, Room};
use atris::session_table::{create_session_outcome, CreateSessionError, CreateSessionResponse, Session};
use atris::set_room_responder::{seal_room_data, set_room_responder_check, SetRoomResponderError};
use atris::store::{AttributeValue, PutOutcome};

fn session(b: u8, name: &str, offer: &str) -> Session {
    Session::new(CipherKey::from_bytes([b; 32]), name.into(), offer.into())
}

fn sealed(key: u8) -> Encrypted<RoomData> {
    let data = RoomData { responder_string: "ANSWER".into(), symmetric_key: CipherKey::from_bytes([7; 32]) };
    Encrypted::<RoomData>::encrypt(&data, &CipherKey::from_bytes([key; 32]).as_cipher()).unwrap()
}

#[test]
fn keys_compare_by_their_bytes() {
    assert_eq!(CipherKey::from_bytes([1; 32]), CipherKey::from_slice(&[1; 32]).unwrap());
    assert_ne!(CipherKey::from_bytes([1; 32]), CipherKey::from_bytes([2; 32]));
    assert!(CipherKey::from_slice(&[1; 31]).is_none());
    assert!(CipherKey::from_slice(&[1; 33]).is_none());
    assert_eq!(CipherKey::from_bytes([4; 32]).to_vec(), vec![4u8; KEY_LEN]);
    assert_ne!(CipherKey::generate(), CipherKey::generate());
    assert_ne!(fresh_nonce(), fresh_nonce());
}

#[test]
fn sealable_lengths() {
    assert_eq!(MAX_PLAINTEXT_LEN, 64 * (u32::MAX as u64 - 1));
    assert!(can_seal(0));
    assert!(can_seal(1 << 20));
    assert!(!can_seal(isize::MAX as usize - TAG_LEN + 1));
    assert!(!can_seal(usize::MAX));
    if usize::BITS == 64 {
        let longest = MAX_PLAINTEXT_LEN as usize;
        assert!(can_seal(longest));
        assert!(!can_seal(longest + 1));
        assert!(!can_seal(longest + 63));
        assert!(!can_seal(64 * u32::MAX as usize - 1));
    }
}

#[test]
fn openable_lengths() {
    assert!(can_open(0));
    assert!(can_open(TAG_LEN - 1));
    assert!(can_open(TAG_LEN));
    assert!(can_open(1 << 20));
    if usize::BITS == 64 {
        let longest = MAX_PLAINTEXT_LEN as usize + TAG_LEN;
        assert!(can_open(longest));
        assert!(!can_open(longest + 1));
        assert!(!can_open(usize::MAX));
    }
}

#[test]
fn a_ciphertext_too_short_for_a_tag_fails_authentication() {
    let cipher = CipherKey::from_bytes([1; 32]).as_cipher();
    for len in 0..TAG_LEN {
        let short = EncryptedBytes::from_parts(vec![0; 12], vec![0; len]);
        assert_eq!(short.decrypt(&cipher).err(), Some(DecryptionError::Auth));
    }
}

#[test]
fn the_lowest_free_number_is_taken_when_asked_for() {
    let mut rooms = AtrisRoomDBClient::new();
    for id in [0u16, 1, 3] {
        rooms.create_room(id, "A".into()).unwrap();
    }
    let response = create_room_in_lowest_free(&mut rooms, "B".into(), "OFFER".into()).unwrap();
    assert_eq!(response.room_id, 2);
    assert_eq!(response.initiator_string, "OFFER");
    let response = create_room_in_lowest_free(&mut rooms, "B".into(), "OFFER".into()).unwrap();
    assert_eq!(response.room_id, 4);
    assert_eq!(rooms.len(), 5);
    assert!(matches!(rooms.create_room(2, "C".into()), Err(CreateRoomError::DuplicateRoomId(2))));
}

#[test]
fn put_outcomes_become_the_errors_of_each_table() {
    let key = CipherKey::from_bytes([1; 32]);
    assert_eq!(create_session_outcome(PutOutcome::Written, key.clone()).ok(), Some(CreateSessionResponse));
    assert!(matches!(
        create_session_outcome(PutOutcome::ConditionFailed, key.clone()),
        Err(CreateSessionError::DuplicateSession(k)) if k == key
    ));
    assert!(matches!(create_session_outcome(PutOutcome::Failed, key), Err(CreateSessionError::DatabaseWriteError)));

    assert!(create_room_outcome(PutOutcome::Written, 5).is_ok());
    assert!(matches!(create_room_outcome(PutOutcome::ConditionFailed, 5), Err(CreateRoomError::DuplicateRoomId(5))));
    assert!(matches!(create_room_outcome(PutOutcome::Failed, 5), Err(CreateRoomError::DatabaseWriteError)));

    assert!(update_room_data_outcome(PutOutcome::Written, "A".into()).is_ok());
    assert!(matches!(
        update_room_data_outcome(PutOutcome::ConditionFailed, "A".into()),
        Err(SetRoomResponderError::NotRoomCreator(u)) if u == "A"
    ));
    assert!(matches!(
        update_room_data_outcome(PutOutcome::Failed, "A".into()),
        Err(SetRoomResponderError::DatabaseWriteError)
    ));

    assert!(create_user_outcome(PutOutcome::Written, "A".into()).is_ok());
    assert!(matches!(
        create_user_outcome(PutOutcome::ConditionFailed, "A".into()),
        Err(CreateUserError::DuplicateUsername(u)) if u == "A"
    ));
    assert!(matches!(create_user_outcome(PutOutcome::Failed, "A".into()), Err(CreateUserError::DatabaseWriteError)));
}

#[test]
fn create_room_decisions() {
    let request = || CreateRoomRequest { session_id: CipherKey::from_bytes([1; 32]), other_user_name: "B".into() };
    let a = || Some(session(1, "A", "A-OFFER"));
    let b = || Some(session(2, "B", "B-OFFER"));
    assert_eq!(create_room_check(a(), b(), request()).ok(), Some(("A".to_string(), "B-OFFER".to_string())));
    assert!(matches!(
        create_room_check(None, b(), request()),
        Err(CreateRoomError::InvalidSessionId(k)) if k == CipherKey::from_bytes([1; 32])
    ));
    assert!(matches!(create_room_check(None, None, request()), Err(CreateRoomError::InvalidSessionId(_))));
    assert!(matches!(create_room_check(a(), None, request()), Err(CreateRoomError::NoSessionForUser(u)) if u == "B"));

    match allocation(Ok(()), 9, "B-OFFER".into()) {
        RoomAllocation::Created(response) => {
            assert_eq!(response.room_id, 9);
            assert_eq!(response.initiator_string, "B-OFFER");
        }
        other => panic!("{other:?}"),
    }
    assert!(matches!(allocation(Err(CreateRoomError::DuplicateRoomId(9)), 9, "x".into()), RoomAllocation::Retry));
    assert!(matches!(
        allocation(Err(CreateRoomError::DatabaseWriteError), 9, "x".into()),
        RoomAllocation::Failed(CreateRoomError::DatabaseWriteError)
    ));
}

#[test]
fn set_room_responder_decisions() {
    let key = CipherKey::from_bytes([2; 32]);
    let creator = set_room_responder_check(Some(session(2, "B", "B-OFFER")), Some(session(1, "A", "A-OFFER")), key.clone(), "A".into()).unwrap();
    assert_eq!(creator.username, "A");
    assert_eq!(creator.session_id, CipherKey::from_bytes([1; 32]));
    assert!(matches!(
        set_room_responder_check(None, Some(session(1, "A", "A-OFFER")), key.clone(), "A".into()),
        Err(SetRoomResponderError::InvalidSessionId(k)) if k == key
    ));
    assert!(matches!(
        set_room_responder_check(Some(session(2, "B", "B-OFFER")), None, key, "A".into()),
        Err(SetRoomResponderError::NoSessionForUser(u)) if u == "A"
    ));

    let data = RoomData { responder_string: "ANSWER".into(), symmetric_key: CipherKey::from_bytes([7; 32]) };
    let sealed = seal_room_data(&creator.session_id, &data, [3; 12]).unwrap();
    assert_eq!(sealed.nonce(), &vec![3u8; 12]);
    let opened = sealed.decrypt(&creator.session_id.as_cipher()).unwrap();
    assert_eq!(opened.responder_string, "ANSWER");
    assert_eq!(opened.symmetric_key, CipherKey::from_bytes([7; 32]));
}

#[test]
fn join_room_decisions() {
    let key = CipherKey::from_bytes([1; 32]);
    assert!(join_room_check(Some(session(1, "A", "A-OFFER")), key.clone()).is_ok());
    assert!(matches!(join_room_check(None, key.clone()), Err(JoinRoomError::InvalidSessionId(k)) if k == key));

    let room = Room { room_id: 3, creator_user_name: "A".into(), room_data: sealed(1) };
    let nonce = room.room_data.nonce().clone();
    assert_eq!(join_room_outcome(Ok(room)).unwrap().room_data.nonce(), &nonce);
    assert!(matches!(join_room_outcome(Err(JoinRoomError::IncompleteRoom)), Err(JoinRoomError::IncompleteRoom)));
    assert!(matches!(join_room_outcome(Err(JoinRoomError::DatabaseReadError)), Err(JoinRoomError::DatabaseReadError)));

    assert!(matches!(get_room_outcome(None, 3), Err(JoinRoomError::NonexistentRoomId(3))));
    assert!(matches!(get_room_outcome(Some(("A".into(), None)), 3), Err(JoinRoomError::IncompleteRoom)));
    let found = get_room_outcome(Some(("A".into(), Some(sealed(1)))), 3).unwrap();
    assert_eq!(found.room_id, 3);
    assert_eq!(found.creator_user_name, "A");
}

#[test]
fn room_records_as_the_store_holds_them() {
    let fresh = room_item(12, "A".into());
    assert_eq!(fresh.get_n("room_id"), Some(&"12".to_string()));
    assert_eq!(fresh.get_s("room_creator"), Some(&"A".to_string()));
    assert!(fresh.get("room_data").is_none());
    assert!(matches!(room_from_item(Some(fresh), 12), Err(JoinRoomError::IncompleteRoom)));
    assert!(matches!(room_from_item(None, 12), Err(JoinRoomError::NonexistentRoomId(12))));
    let complete = Room { room_id: 12, creator_user_name: "A".into(), room_data: sealed(1) }.to_item();
    let read = room_from_item(Some(complete), 12).unwrap();
    assert_eq!(read.room_id, 12);
    assert_eq!(read.creator_user_name, "A");
    let entries = User::new("u".into(), "h".into()).to_item().into_entries();
    assert_eq!(entries.len(), 2);
    assert_eq!(entries[0].0, "username");
    assert!(matches!(&entries[1], (name, AttributeValue::S(hash)) if name == "hashed_salted_password" && hash == "h"));
}

#[test]
fn login_decisions() {
    assert!(matches!(
        authenticate_user_check(None, "bob".into()),
        Err(AuthenticateUserError::UnknownUsername(u)) if u == "bob"
    ));
    assert_eq!(authenticate_user_check(Some(User::new("bob".into(), "h".into())), "bob".into()).unwrap().password_hash, "h");
    assert!(password_outcome(PasswordCheck::Match).is_ok());
    assert!(matches!(password_outcome(PasswordCheck::Mismatch), Err(AuthenticateUserError::WrongPassword)));
    assert!(matches!(password_outcome(PasswordCheck::Unreadable), Err(AuthenticateUserError::MissingPassword)));
    let key = CipherKey::from_bytes([1; 32]);
    assert_eq!(session_outcome(Ok(CreateSessionResponse), key.clone()).unwrap().session_id, key);
    assert!(matches!(
        session_outcome(Err(CreateSessionError::DuplicateSession(key.clone())), key.clone()),
        Err(AuthenticateUserError::DatabaseWrite)
    ));
    assert!(matches!(
        session_outcome(Err(CreateSessionError::DatabaseWriteError), key),
        Err(AuthenticateUserError::DatabaseWrite)
    ));
}

#[test]
fn password_hashes() {
    assert_eq!(MAX_PASSWORD_LEN, u32::MAX as u64);
    assert!(new_password_hash("").is_some());
    let hash = new_password_hash("hunter2").unwrap();
    assert!(hash.starts_with("$argon2id$"));
    assert_ne!(hash, new_password_hash("hunter2").unwrap());
    assert_eq!(check_attempt(&hash, "hunter2"), PasswordCheck::Match);
    assert_eq!(check_attempt(&hash, "hunter3"), PasswordCheck::Mismatch);
    assert_eq!(check_attempt(&hash, ""), PasswordCheck::Mismatch);
    assert_eq!(check_attempt("hunter2", "hunter2"), PasswordCheck::Unreadable);
    assert_eq!(check_attempt("", "hunter2"), PasswordCheck::Unreadable);
    let known = "$argon2id$v=19$m=16,t=2,p=1$c29tZXNhbHQ$5OMbzbLoTxDHfBOcpg8vfA";
    assert_eq!(check_attempt(known, "wrong"), PasswordCheck::Mismatch);
}
