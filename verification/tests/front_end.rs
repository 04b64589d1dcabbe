use atris::authenticate_user::AuthenticateUserResponse;
use atris::comms::{io_step, IoAction, IoEvent};
use atris::create_room::CreateRoomResponse;
use atris::encrypted::{DecryptionError, Encrypted};
use atris::gui::{Atris, Command, LoginMode, Message, Session};
use atris::join_room::JoinRoomResponse;
use atris::key::CipherKey;
use atris::link::{is_terminal_failure, LinkEvent, LinkWait, PeerConnectionState};
use atris::message::{AtrisMessage, AtrisMessageData};
use atris::room_data::RoomData;

fn home() -> Atris {
    Atris::Home { session: Session(CipherKey::from_bytes([1; 32])), other_user: String::new(), room_id: String::new() }
}

#[test]
fn start_and_login() {
    let (state, command) = Atris::new();
    assert!(matches!(state, Atris::CreatingClient));
    assert!(matches!(command, Command::CreateClient));
    assert_eq!(state.title(), "Example");
    let (state, command) = state.update(Message::ClientCreated(true));
    assert!(matches!(command, Command::Nothing));
    let (state, _) = state.update(Message::UpdateUsername("marcel".into()));
    let (state, _) = state.update(Message::UpdatePassword("test".into()));
    let (state, _) = state.update(Message::LoginSelector(LoginMode::CreateUser));
    let (state, command) = state.update(Message::SubmitUserInfo);
    assert!(matches!(state, Atris::LoggingIn));
    match command {
        Command::SubmitUserInfo { username, password, login_select } => {
            assert_eq!(username, "marcel");
            assert_eq!(password, "test");
            assert_eq!(login_select, LoginMode::CreateUser);
        }
        other => panic!("{other:?}"),
    }
    let response = AuthenticateUserResponse { session_id: CipherKey::from_bytes([5; 32]) };
    let (state, _) = state.update(Message::LoginComplete(Ok(response), LoginMode::CreateUser));
    match state {
        Atris::Home { session, other_user, room_id } => {
            assert_eq!(session.0.as_bytes(), &[5u8; 32]);
            assert_eq!(other_user, "");
            assert_eq!(room_id, "");
        }
        other => panic!("{other:?}"),
    }
}

#[test]
fn failed_setup_and_failed_login() {
    let (state, _) = Atris::new();
    let (state, _) = state.update(Message::ClientCreated(false));
    assert!(matches!(state, Atris::ErrorCreatingClient));
    let (state, command) = state.update(Message::CreateClient);
    assert!(matches!(state, Atris::ErrorCreatingClient));
    assert!(matches!(command, Command::CreateClient));
    let (state, _) = Atris::LoggingIn.update(Message::LoginComplete(Err("WrongPassword".into()), LoginMode::LoginUser));
    match state {
        Atris::Login { username, password, login_select, error_message } => {
            assert_eq!(username, "");
            assert_eq!(password, "");
            assert_eq!(login_select, LoginMode::LoginUser);
            assert_eq!(error_message, Some("WrongPassword".to_string()));
        }
        other => panic!("{other:?}"),
    }
}

#[test]
fn creating_a_room_leads_to_answering_it() {
    let (state, _) = home().update(Message::UpdateOtherUser("B".into()));
    let (state, command) = state.update(Message::CreateRoom);
    match command {
        Command::CreateRoom { session_id, other_user } => {
            assert_eq!(session_id.as_bytes(), &[1u8; 32]);
            assert_eq!(other_user, "B");
        }
        other => panic!("{other:?}"),
    }
    let room = CreateRoomResponse { room_id: 42, initiator_string: "B-OFFER".into() };
    let (state, command) = state.update(Message::CreateRoomFinished(Some(room), "B".into()));
    match state {
        Atris::MessageWaitingPage { room_id: 42, other_user } => assert_eq!(other_user, Some("B".to_string())),
        other => panic!("{other:?}"),
    }
    match command {
        Command::AnswerRoom { room_id: 42, session_id, other_user, initiator_string } => {
            assert_eq!(session_id.as_bytes(), &[1u8; 32]);
            assert_eq!(other_user, "B");
            assert_eq!(initiator_string, "B-OFFER");
        }
        other => panic!("{other:?}"),
    }
    let (state, _) = home().update(Message::CreateRoomFinished(None, "B".into()));
    assert!(matches!(state, Atris::CreateRoomError { .. }));
}

#[test]
fn joining_a_room_decrypts_its_data() {
    let (state, _) = home().update(Message::UpdateRoomId("12x".into()));
    let (state, command) = state.update(Message::JoinRoom);
    assert!(matches!(command, Command::Nothing));
    let (state, _) = state.update(Message::UpdateRoomId("12".into()));
    let (state, command) = state.update(Message::JoinRoom);
    match command {
        Command::JoinRoom { session_id, room_id: 12 } => assert_eq!(session_id.as_bytes(), &[1u8; 32]),
        other => panic!("{other:?}"),
    }
    let data = RoomData { responder_string: "A-ANSWER".into(), symmetric_key: CipherKey::from_bytes([7; 32]) };
    let sealed = Encrypted::<RoomData>::encrypt(&data, &CipherKey::from_bytes([1; 32]).as_cipher()).unwrap();
    let (next, command) = state.update(Message::JoinRoomFinished(12, Some(JoinRoomResponse { room_data: sealed })));
    assert!(matches!(next, Atris::MessageWaitingPage { room_id: 12, other_user: None }));
    match command {
        Command::CompleteLink { responder_string, symmetric_key } => {
            assert_eq!(responder_string, "A-ANSWER");
            assert_eq!(symmetric_key.as_bytes(), &[7u8; 32]);
        }
        other => panic!("{other:?}"),
    }
    let foreign = Encrypted::<RoomData>::encrypt(&data, &CipherKey::from_bytes([2; 32]).as_cipher()).unwrap();
    let (next, command) = home().update(Message::JoinRoomFinished(12, Some(JoinRoomResponse { room_data: foreign })));
    match next {
        Atris::MesageWaitingFailed(text) => assert_eq!(text, "The room's data could not be decrypted"),
        other => panic!("{other:?}"),
    }
    assert!(matches!(command, Command::Nothing));
    let (next, command) = home().update(Message::JoinRoomFinished(12, None));
    assert!(matches!(next, Atris::Home { .. }));
    assert!(matches!(command, Command::Nothing));
}

#[test]
fn conversation_keeps_its_lines_in_order() {
    let waiting = Atris::MessageWaitingPage { room_id: 3, other_user: None };
    let (state, _) = waiting.update(Message::MessageChannelReceived);
    assert!(state.subscription());
    let (state, _) = state.update(Message::UpdateCurrentMessage("hello".into()));
    let (state, command) = state.update(Message::SendMessage);
    match command {
        Command::SendText(text) => assert_eq!(text, "hello"),
        other => panic!("{other:?}"),
    }
    let (state, _) = state.update(Message::MessageSent("hello".into()));
    let (state, _) = state.update(Message::ReceiveMessage(AtrisMessageData::Text("hi".into())));
    let (state, _) = state.update(Message::ReceiveMessageFailed);
    let (state, command) = state.update(Message::ReceiveMessage(AtrisMessageData::File { data: vec![1], name: "f.txt".into() }));
    match command {
        Command::SaveFile { name, data } => {
            assert_eq!(name, "f.txt");
            assert_eq!(data, vec![1]);
        }
        other => panic!("{other:?}"),
    }
    let (state, command) = state.update(Message::SendFile);
    assert!(matches!(command, Command::PickFile));
    let (state, command) = state.update(Message::ActualSendFile("/tmp/f".into()));
    match command {
        Command::SendFileAt(path) => assert_eq!(path, "/tmp/f"),
        other => panic!("{other:?}"),
    }
    let (state, _) = state.update(Message::SubmitUserInfo);
    match state {
        Atris::MessagePage { room_id: 3, messages, current_message } => {
            assert_eq!(current_message, "hello");
            assert_eq!(messages.len(), 2);
            assert!(matches!(&messages[0], AtrisMessage::Sent(s) if s == "hello"));
            assert!(matches!(&messages[1], AtrisMessage::Received(s) if s == "hi"));
        }
        other => panic!("{other:?}"),
    }
}

#[test]
fn waiting_can_fail() {
    let waiting = Atris::MessageWaitingPage { room_id: 3, other_user: Some("B".into()) };
    let (state, _) = waiting.update(Message::RoomWaitingFailed("A".into()));
    match state {
        Atris::MesageWaitingFailed(text) => assert_eq!(text, "A"),
        other => panic!("{other:?}"),
    }
}

#[test]
fn first_link_event_decides() {
    assert_eq!(LinkWait::Waiting.resolve(LinkEvent::DataChannel), LinkWait::Linked);
    assert_eq!(LinkWait::Waiting.resolve(LinkEvent::Done), LinkWait::Lost);
    assert_eq!(LinkWait::Linked.resolve(LinkEvent::Done), LinkWait::Linked);
    assert_eq!(LinkWait::Lost.resolve(LinkEvent::DataChannel), LinkWait::Lost);
    assert_eq!(LinkWait::Waiting.outcome(), None);
    assert_eq!(LinkWait::Linked.outcome(), Some(true));
    assert_eq!(LinkWait::Lost.outcome(), Some(false));
    assert!(is_terminal_failure(PeerConnectionState::Failed));
    assert!(!is_terminal_failure(PeerConnectionState::Disconnected));
    assert!(!is_terminal_failure(PeerConnectionState::Closed));
}

#[test]
fn conversation_in_text() {
    match io_step(IoEvent::Incoming(Some(Ok("hello".into())))) {
        IoAction::Print(line) => assert_eq!(line, "From other user: 'hello'"),
        other => panic!("{other:?}"),
    }
    assert!(matches!(io_step(IoEvent::Incoming(Some(Err(DecryptionError::Auth)))), IoAction::Continue));
    assert!(matches!(io_step(IoEvent::Incoming(None)), IoAction::Stop));
    assert!(matches!(io_step(IoEvent::InputFailed), IoAction::Stop));
    assert!(matches!(io_step(IoEvent::Input(vec![])), IoAction::Stop));
    assert!(matches!(io_step(IoEvent::Input(vec![b'\n'])), IoAction::Continue));
    assert!(matches!(io_step(IoEvent::Input(vec![0xff, 0xfe])), IoAction::Continue));
    match io_step(IoEvent::Input(b"  hi there \r\n".to_vec())) {
        IoAction::Send(line) => assert_eq!(line, "hi there"),
        other => panic!("{other:?}"),
    }
}
