use atris::auth_table::AtrisAuthDBClient;
use atris::authenticate_user::{authenticate_user, authenticate_user_checked, AuthenticateUserError, AuthenticateUserRequest};
use atris::create_room::{create_room, create_room_with_id, CreateRoomError, CreateRoomRequest};
use atris::create_user::{create_user, create_user_with_hash, CreateUserError, CreateUserRequest};
use atris::encrypted::DecryptionError;
use atris::join_room::{join_room, JoinRoomError, JoinRoomRequest};
use atris::key::CipherKey;
use atris::password::PasswordCheck;
use atris::room_table::AtrisRoomDBClient;
use atris::session_table::{AtrisSessionDBClient, CreateSessionError};
use atris::set_room_responder::{set_room_responder, set_room_responder_with, SetRoomResponderError, SetRoomResponderRequest};

fn key(b: u8) -> CipherKey {
    CipherKey::from_bytes([b; 32])
}

fn two_sessions() -> AtrisSessionDBClient {
    let mut sessions = AtrisSessionDBClient::new();
    sessions.create_session(key(1), "A".into(), "A-OFFER".into()).unwrap();
    sessions.create_session(key(2), "B".into(), "B-OFFER".into()).unwrap();
    sessions
}

#[test]
fn session_is_found_by_id_and_by_username() {
    let sessions = two_sessions();
    let by_id = sessions.get_session(key(2)).unwrap().unwrap();
    assert_eq!(by_id.username, "B");
    assert_eq!(by_id.initiator, "B-OFFER");
    let by_name = sessions.get_session_for_username("A".into()).unwrap().unwrap();
    assert_eq!(by_name.session_id.as_bytes(), &[1u8; 32]);
    assert!(sessions.get_session(key(3)).unwrap().is_none());
    assert!(sessions.get_session_for_username("a".into()).unwrap().is_none());
}

#[test]
fn duplicate_session_id_is_refused() {
    let mut sessions = two_sessions();
    let again = sessions.create_session(key(1), "C".into(), "C-OFFER".into());
    match again {
        Err(CreateSessionError::DuplicateSession(id)) => assert_eq!(id.as_bytes(), &[1u8; 32]),
        other => panic!("{other:?}"),
    }
    assert_eq!(sessions.len(), 2);
    assert_eq!(sessions.get_session(key(1)).unwrap().unwrap().username, "A");
}

#[test]
fn first_session_of_a_user_is_the_one_found() {
    let mut sessions = two_sessions();
    sessions.create_session(key(9), "A".into(), "A-SECOND".into()).unwrap();
    let found = sessions.get_session_for_username("A".into()).unwrap().unwrap();
    assert_eq!(found.initiator, "A-OFFER");
}

#[test]
fn create_room_returns_the_peers_offer() {
    let sessions = two_sessions();
    let mut rooms = AtrisRoomDBClient::new();
    let request = CreateRoomRequest { session_id: key(1), other_user_name: "B".into() };
    let response = create_room_with_id(&sessions, &mut rooms, request, 4711).unwrap();
    assert_eq!(response.room_id, 4711);
    assert_eq!(response.initiator_string, "B-OFFER");
    assert_eq!(rooms.len(), 1);
}

#[test]
fn create_room_rejects_unknown_session_and_unknown_peer() {
    let sessions = two_sessions();
    let mut rooms = AtrisRoomDBClient::new();
    let request = CreateRoomRequest { session_id: key(7), other_user_name: "B".into() };
    match create_room_with_id(&sessions, &mut rooms, request, 1) {
        Err(CreateRoomError::InvalidSessionId(id)) => assert_eq!(id.as_bytes(), &[7u8; 32]),
        other => panic!("{other:?}"),
    }
    let request = CreateRoomRequest { session_id: key(1), other_user_name: "Z".into() };
    match create_room(&sessions, &mut rooms, request) {
        Err(CreateRoomError::NoSessionForUser(name)) => assert_eq!(name, "Z"),
        other => panic!("{other:?}"),
    }
    assert_eq!(rooms.len(), 0);
}

#[test]
fn taken_room_id_is_refused_and_nothing_changes() {
    let sessions = two_sessions();
    let mut rooms = AtrisRoomDBClient::new();
    let request = CreateRoomRequest { session_id: key(1), other_user_name: "B".into() };
    create_room_with_id(&sessions, &mut rooms, request, 5).unwrap();
    let request = CreateRoomRequest { session_id: key(2), other_user_name: "A".into() };
    match create_room_with_id(&sessions, &mut rooms, request, 5) {
        Err(CreateRoomError::DuplicateRoomId(5)) => {}
        other => panic!("{other:?}"),
    }
    assert_eq!(rooms.len(), 1);
}

#[test]
fn random_room_ids_never_repeat() {
    let sessions = two_sessions();
    let mut rooms = AtrisRoomDBClient::new();
    let mut seen = std::collections::HashSet::new();
    for _ in 0..500 {
        let request = CreateRoomRequest { session_id: key(1), other_user_name: "B".into() };
        let response = create_room(&sessions, &mut rooms, request).unwrap();
        assert!(seen.insert(response.room_id));
    }
    assert_eq!(rooms.len(), 500);
}

#[test]
fn end_to_end_rendezvous() {
    let sa = key(1);
    let sb = key(2);
    let sessions = two_sessions();
    let mut rooms = AtrisRoomDBClient::new();

    let request = CreateRoomRequest { session_id: sa.clone(), other_user_name: "B".into() };
    let created = create_room(&sessions, &mut rooms, request).unwrap();
    assert_eq!(created.initiator_string, "B-OFFER");
    let r = created.room_id;

    let request = SetRoomResponderRequest {
        session_id: sb.clone(),
        room_id: r,
        other_user_name: "A".into(),
        responder_string: "A-ANSWER".into(),
    };
    let k = set_room_responder(&sessions, &mut rooms, request).unwrap().room_symmetric_key;

    let joined = join_room(&sessions, &rooms, JoinRoomRequest { session_id: sa.clone(), room_id: r }).unwrap();
    let data = joined.room_data.decrypt(&sa.as_cipher()).unwrap();
    assert_eq!(data.responder_string, "A-ANSWER");
    assert_eq!(data.symmetric_key.as_bytes(), k.as_bytes());
}

#[test]
fn join_before_completion_is_incomplete() {
    let sessions = two_sessions();
    let mut rooms = AtrisRoomDBClient::new();
    let request = CreateRoomRequest { session_id: key(1), other_user_name: "B".into() };
    create_room_with_id(&sessions, &mut rooms, request, 12).unwrap();
    match join_room(&sessions, &rooms, JoinRoomRequest { session_id: key(1), room_id: 12 }) {
        Err(JoinRoomError::IncompleteRoom) => {}
        other => panic!("{other:?}"),
    }
    match join_room(&sessions, &rooms, JoinRoomRequest { session_id: key(1), room_id: 13 }) {
        Err(JoinRoomError::NonexistentRoomId(13)) => {}
        other => panic!("{other:?}"),
    }
    match join_room(&sessions, &rooms, JoinRoomRequest { session_id: key(8), room_id: 12 }) {
        Err(JoinRoomError::InvalidSessionId(id)) => assert_eq!(id.as_bytes(), &[8u8; 32]),
        other => panic!("{other:?}"),
    }
}

#[test]
fn naming_someone_who_did_not_create_the_room_is_refused() {
    let mut sessions = two_sessions();
    sessions.create_session(key(3), "C".into(), "C-OFFER".into()).unwrap();
    let mut rooms = AtrisRoomDBClient::new();
    let request = CreateRoomRequest { session_id: key(1), other_user_name: "B".into() };
    create_room_with_id(&sessions, &mut rooms, request, 77).unwrap();

    let request = SetRoomResponderRequest {
        session_id: key(2),
        room_id: 77,
        other_user_name: "C".into(),
        responder_string: "ANSWER".into(),
    };
    match set_room_responder(&sessions, &mut rooms, request) {
        Err(SetRoomResponderError::NotRoomCreator(name)) => assert_eq!(name, "C"),
        other => panic!("{other:?}"),
    }
    match join_room(&sessions, &rooms, JoinRoomRequest { session_id: key(1), room_id: 77 }) {
        Err(JoinRoomError::IncompleteRoom) => {}
        other => panic!("{other:?}"),
    }

    let request = SetRoomResponderRequest {
        session_id: key(2),
        room_id: 78,
        other_user_name: "A".into(),
        responder_string: "ANSWER".into(),
    };
    match set_room_responder(&sessions, &mut rooms, request) {
        Err(SetRoomResponderError::NotRoomCreator(name)) => assert_eq!(name, "A"),
        other => panic!("{other:?}"),
    }
}

#[test]
fn set_room_responder_rejects_unknown_sessions() {
    let sessions = two_sessions();
    let mut rooms = AtrisRoomDBClient::new();
    let request = SetRoomResponderRequest {
        session_id: key(5),
        room_id: 1,
        other_user_name: "A".into(),
        responder_string: "ANSWER".into(),
    };
    match set_room_responder(&sessions, &mut rooms, request) {
        Err(SetRoomResponderError::InvalidSessionId(id)) => assert_eq!(id.as_bytes(), &[5u8; 32]),
        other => panic!("{other:?}"),
    }
    let request = SetRoomResponderRequest {
        session_id: key(2),
        room_id: 1,
        other_user_name: "nobody".into(),
        responder_string: "ANSWER".into(),
    };
    match set_room_responder(&sessions, &mut rooms, request) {
        Err(SetRoomResponderError::NoSessionForUser(name)) => assert_eq!(name, "nobody"),
        other => panic!("{other:?}"),
    }
}

#[test]
fn room_data_is_sealed_with_the_given_key_and_nonce() {
    let sessions = two_sessions();
    let mut rooms = AtrisRoomDBClient::new();
    let request = CreateRoomRequest { session_id: key(1), other_user_name: "B".into() };
    create_room_with_id(&sessions, &mut rooms, request, 3).unwrap();
    let request = SetRoomResponderRequest {
        session_id: key(2),
        room_id: 3,
        other_user_name: "A".into(),
        responder_string: "ANSWER".into(),
    };
    let response = set_room_responder_with(&sessions, &mut rooms, request, key(42), [9u8; 12]).unwrap();
    assert_eq!(response.room_symmetric_key.as_bytes(), &[42u8; 32]);
    let joined = join_room(&sessions, &rooms, JoinRoomRequest { session_id: key(2), room_id: 3 }).unwrap();
    assert_eq!(joined.room_data.nonce(), &vec![9u8; 12]);
    let data = joined.room_data.decrypt(&key(1).as_cipher()).unwrap();
    assert_eq!(data.symmetric_key.as_bytes(), &[42u8; 32]);
}

#[test]
fn wrong_session_join_succeeds_but_does_not_decrypt() {
    let mut sessions = two_sessions();
    sessions.create_session(key(3), "C".into(), "C-OFFER".into()).unwrap();
    let mut rooms = AtrisRoomDBClient::new();
    let request = CreateRoomRequest { session_id: key(1), other_user_name: "B".into() };
    let r = create_room(&sessions, &mut rooms, request).unwrap().room_id;
    let request = SetRoomResponderRequest {
        session_id: key(2),
        room_id: r,
        other_user_name: "A".into(),
        responder_string: "A-ANSWER".into(),
    };
    set_room_responder(&sessions, &mut rooms, request).unwrap();
    for outsider in [key(2), key(3)] {
        let joined = join_room(&sessions, &rooms, JoinRoomRequest { session_id: outsider.clone(), room_id: r }).unwrap();
        assert_eq!(joined.room_data.decrypt(&outsider.as_cipher()).err(), Some(DecryptionError::Auth));
    }
}

#[test]
fn completing_a_room_again_draws_a_new_key() {
    let sessions = two_sessions();
    let mut rooms = AtrisRoomDBClient::new();
    let request = CreateRoomRequest { session_id: key(1), other_user_name: "B".into() };
    create_room_with_id(&sessions, &mut rooms, request, 3).unwrap();
    let mut keys = Vec::new();
    for answer in ["FIRST", "SECOND"] {
        let request = SetRoomResponderRequest {
            session_id: key(2),
            room_id: 3,
            other_user_name: "A".into(),
            responder_string: answer.into(),
        };
        keys.push(set_room_responder(&sessions, &mut rooms, request).unwrap().room_symmetric_key);
    }
    assert_ne!(keys[0].as_bytes(), keys[1].as_bytes());
    let joined = join_room(&sessions, &rooms, JoinRoomRequest { session_id: key(1), room_id: 3 }).unwrap();
    let data = joined.room_data.decrypt(&key(1).as_cipher()).unwrap();
    assert_eq!(data.responder_string, "SECOND");
    assert_eq!(data.symmetric_key.as_bytes(), keys[1].as_bytes());
}

#[test]
fn a_registered_user_logs_in_with_the_password() {
    let mut users = AtrisAuthDBClient::new();
    let mut sessions = AtrisSessionDBClient::new();
    create_user(&mut users, CreateUserRequest { username: "marcel".into(), password: "test".into() }).unwrap();
    let request = AuthenticateUserRequest {
        username: "marcel".into(),
        password_attempt: "test".into(),
        initiator: "OFFER".into(),
    };
    let session_id = authenticate_user(&users, &mut sessions, request).unwrap().session_id;
    let session = sessions.get_session(session_id).unwrap().unwrap();
    assert_eq!(session.username, "marcel");
    assert_eq!(session.initiator, "OFFER");
}

#[test]
fn login_failures() {
    let mut users = AtrisAuthDBClient::new();
    let mut sessions = AtrisSessionDBClient::new();
    create_user(&mut users, CreateUserRequest { username: "marcel".into(), password: "test".into() }).unwrap();
    create_user_with_hash(&mut users, "broken".into(), Some("not a hash".into())).unwrap();
    let attempt = |name: &str, password: &str| AuthenticateUserRequest {
        username: name.into(),
        password_attempt: password.into(),
        initiator: "OFFER".into(),
    };
    match authenticate_user(&users, &mut sessions, attempt("marcel", "Test")) {
        Err(AuthenticateUserError::WrongPassword) => {}
        other => panic!("{other:?}"),
    }
    match authenticate_user(&users, &mut sessions, attempt("nobody", "test")) {
        Err(AuthenticateUserError::UnknownUsername(name)) => assert_eq!(name, "nobody"),
        other => panic!("{other:?}"),
    }
    match authenticate_user(&users, &mut sessions, attempt("broken", "test")) {
        Err(AuthenticateUserError::MissingPassword) => {}
        other => panic!("{other:?}"),
    }
    assert_eq!(sessions.len(), 0);
}

#[test]
fn taken_session_id_fails_the_login() {
    let mut users = AtrisAuthDBClient::new();
    let mut sessions = two_sessions();
    create_user_with_hash(&mut users, "marcel".into(), Some("hash".into())).unwrap();
    let r = authenticate_user_checked(&users, &mut sessions, "marcel".into(), "OFFER".into(), PasswordCheck::Match, key(1));
    match r {
        Err(AuthenticateUserError::DatabaseWrite) => {}
        other => panic!("{other:?}"),
    }
    assert_eq!(sessions.len(), 2);
    let r = authenticate_user_checked(&users, &mut sessions, "marcel".into(), "OFFER".into(), PasswordCheck::Match, key(4));
    assert_eq!(r.unwrap().session_id.as_bytes(), &[4u8; 32]);
    assert_eq!(sessions.len(), 3);
}

#[test]
fn user_registration_failures() {
    let mut users = AtrisAuthDBClient::new();
    create_user(&mut users, CreateUserRequest { username: "marcel".into(), password: "test".into() }).unwrap();
    match create_user(&mut users, CreateUserRequest { username: "marcel".into(), password: "other".into() }) {
        Err(CreateUserError::DuplicateUsername(name)) => assert_eq!(name, "marcel"),
        other => panic!("{other:?}"),
    }
    match create_user_with_hash(&mut users, "new".into(), None) {
        Err(CreateUserError::HashError) => {}
        other => panic!("{other:?}"),
    }
    assert!(users.get_user("new".into()).unwrap().is_none());
    assert_eq!(users.get_user("marcel".into()).unwrap().unwrap().username, "marcel");
}
