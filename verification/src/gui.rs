//! The pages of the messenger, and how one leads to the next.
//!
//! The front end is a state machine. A state is the page on display with
//! what the user has typed so far. A message is something that happened: a
//! key stroke, a button, the answer to a request. [`Atris::update`] takes
//! both to the next state and says in a [`Command`] what is to be done
//! outside: whoever draws the pages carries the command out and brings the
//! answer back as a message. A message that has no meaning on the current
//! page changes nothing.
use crate::authenticate_user::AuthenticateUserResponse;
use crate::create_room::CreateRoomResponse;
use crate::encrypted::{decrypts_to, DecryptionError};
use crate::join_room::JoinRoomResponse;
use crate::key::CipherKey;
use crate::message::{AtrisMessage, AtrisMessageData, AtrisMessageDataView};
use crate::room_data::{RoomData, RoomDataView};
use crate::text::{parse_u16, parse_u16_text};
use vstd::prelude::*;
use vstd::string::StringExecFns;

verus! {

/// What the login page is to do with name and password.
#[derive(Debug, Clone, Copy, PartialEq, Eq, Structural)]
pub enum LoginMode {
    /// Register the user, then log in.
    CreateUser,
    /// Log in.
    LoginUser,
}

/// The session of the user at this front end.
#[derive(Debug)]
pub struct Session(pub CipherKey);

/// The page on display.
#[allow(inconsistent_fields)]
#[derive(Debug)]
pub enum Atris {
    /// The connection to the server is being set up.
    CreatingClient,
    /// Setting up failed; the user may try again.
    ErrorCreatingClient,
    /// The login page.
    Login { username: String, password: String, login_select: LoginMode, error_message: Option<String> },
    /// The login is under way.
    LoggingIn,
    /// The home page: open a room with a user, or join one by number.
    Home { session: Session, other_user: String, room_id: String },
    /// No room could be opened with this user.
    CreateRoomError { other_user: String },
    /// The link to the peer did not come up.
    MesageWaitingFailed(String),
    /// The link to the peer is coming up.
    MessageWaitingPage { room_id: u16, other_user: Option<String> },
    /// The conversation.
    MessagePage { room_id: u16, messages: Vec<AtrisMessage>, current_message: String },
}

/// Something that happened.
#[derive(Debug)]
pub enum Message {
    UpdateUsername(String),
    UpdatePassword(String),
    /// Setting up ended; `true` where there is a connection.
    ClientCreated(bool),
    /// The login ended, with a session or with what went wrong.
    LoginComplete(Result<AuthenticateUserResponse, String>, LoginMode),
    LoginSelector(LoginMode),
    UpdateOtherUser(String),
    UpdateRoomId(String),
    RoomWaitingFailed(String),
    CreateRoom,
    /// Creating a room with the named user ended; `None` where it failed.
    CreateRoomFinished(Option<CreateRoomResponse>, String),
    JoinRoom,
    /// Joining the numbered room ended; `None` where it failed.
    JoinRoomFinished(u16, Option<JoinRoomResponse>),
    /// The link to the peer is up.
    MessageChannelReceived,
    ReceiveMessage(AtrisMessageData),
    ReceiveMessageFailed,
    SendMessage,
    MessageSent(String),
    UpdateCurrentMessage(String),
    SendFile,
    /// The user picked the file at this path.
    ActualSendFile(String),
    SubmitUserInfo,
    CreateClient,
    Nop,
}

/// What is to be done outside.
#[derive(Debug)]
pub enum Command {
    /// Nothing.
    Nothing,
    /// Set up the connection to the server; answer with `ClientCreated`.
    CreateClient,
    /// Register where the mode says so, then log in; answer with
    /// `LoginComplete`.
    SubmitUserInfo { username: String, password: String, login_select: LoginMode },
    /// Ask the server for a room; answer with `CreateRoomFinished`.
    CreateRoom { session_id: CipherKey, other_user: String },
    /// Answer the peer's offer, complete the room, and wait for the link;
    /// answer with `MessageChannelReceived` or `RoomWaitingFailed`.
    AnswerRoom { room_id: u16, session_id: CipherKey, other_user: String, initiator_string: String },
    /// Ask the server for the room's data; answer with `JoinRoomFinished`.
    JoinRoom { session_id: CipherKey, room_id: u16 },
    /// Complete the link with the peer's answer, under the room's key;
    /// answer with `MessageChannelReceived`.
    CompleteLink { responder_string: String, symmetric_key: CipherKey },
    /// Send the text to the peer; answer with `MessageSent`.
    SendText(String),
    /// Store the file among the user's downloads.
    SaveFile { name: String, data: Vec<u8> },
    /// Read the file at this path and send it; answer with `MessageSent`.
    SendFileAt(String),
    /// Let the user pick a file; answer with `ActualSendFile`.
    PickFile,
}

/// A line of the conversation as plain values.
pub enum AtrisMessageView {
    Sent(Seq<char>),
    Received(Seq<char>),
}

/// A page as plain values.
#[allow(inconsistent_fields)]
pub enum AtrisView {
    CreatingClient,
    ErrorCreatingClient,
    Login {
        username: Seq<char>,
        password: Seq<char>,
        login_select: LoginMode,
        error_message: Option<Seq<char>>,
    },
    LoggingIn,
    Home { session: Seq<u8>, other_user: Seq<char>, room_id: Seq<char> },
    CreateRoomError { other_user: Seq<char> },
    MesageWaitingFailed(Seq<char>),
    MessageWaitingPage { room_id: u16, other_user: Option<Seq<char>> },
    MessagePage { room_id: u16, messages: Seq<AtrisMessageView>, current_message: Seq<char> },
}

/// A message as plain values. Sealed room data is nonce and ciphertext.
pub enum MessageView {
    UpdateUsername(Seq<char>),
    UpdatePassword(Seq<char>),
    ClientCreated(bool),
    LoginComplete(Result<Seq<u8>, Seq<char>>, LoginMode),
    LoginSelector(LoginMode),
    UpdateOtherUser(Seq<char>),
    UpdateRoomId(Seq<char>),
    RoomWaitingFailed(Seq<char>),
    CreateRoom,
    CreateRoomFinished(Option<(u16, Seq<char>)>, Seq<char>),
    JoinRoom,
    JoinRoomFinished(u16, Option<(Seq<u8>, Seq<u8>)>),
    MessageChannelReceived,
    ReceiveMessage(AtrisMessageDataView),
    ReceiveMessageFailed,
    SendMessage,
    MessageSent(Seq<char>),
    UpdateCurrentMessage(Seq<char>),
    SendFile,
    ActualSendFile(Seq<char>),
    SubmitUserInfo,
    CreateClient,
    Nop,
}

/// A command as plain values.
pub enum CommandView {
    Nothing,
    CreateClient,
    SubmitUserInfo { username: Seq<char>, password: Seq<char>, login_select: LoginMode },
    CreateRoom { session_id: Seq<u8>, other_user: Seq<char> },
    AnswerRoom { room_id: u16, session_id: Seq<u8>, other_user: Seq<char>, initiator_string: Seq<char> },
    JoinRoom { session_id: Seq<u8>, room_id: u16 },
    CompleteLink { responder_string: Seq<char>, symmetric_key: Seq<u8> },
    SendText(Seq<char>),
    SaveFile { name: Seq<char>, data: Seq<u8> },
    SendFileAt(Seq<char>),
    PickFile,
}

/// The view of a line of the conversation.
pub open spec fn line_view(line: AtrisMessage) -> AtrisMessageView {
    match line {
        AtrisMessage::Sent(s) => AtrisMessageView::Sent(s@),
        AtrisMessage::Received(s) => AtrisMessageView::Received(s@),
    }
}

/// The view of a text that may be absent.
pub open spec fn text_view(text: Option<String>) -> Option<Seq<char>> {
    match text {
        Some(s) => Some(s@),
        None => None,
    }
}

impl View for Atris {
    type V = AtrisView;

    open spec fn view(&self) -> AtrisView {
        match self {
            Atris::CreatingClient => AtrisView::CreatingClient,
            Atris::ErrorCreatingClient => AtrisView::ErrorCreatingClient,
            Atris::Login { username, password, login_select, error_message } => AtrisView::Login {
                username: username@,
                password: password@,
                login_select: *login_select,
                error_message: text_view(*error_message),
            },
            Atris::LoggingIn => AtrisView::LoggingIn,
            Atris::Home { session, other_user, room_id } => AtrisView::Home {
                session: session.0@,
                other_user: other_user@,
                room_id: room_id@,
            },
            Atris::CreateRoomError { other_user } => AtrisView::CreateRoomError {
                other_user: other_user@,
            },
            Atris::MesageWaitingFailed(s) => AtrisView::MesageWaitingFailed(s@),
            Atris::MessageWaitingPage { room_id, other_user } => AtrisView::MessageWaitingPage {
                room_id: *room_id,
                other_user: text_view(*other_user),
            },
            Atris::MessagePage { room_id, messages, current_message } => AtrisView::MessagePage {
                room_id: *room_id,
                messages: messages@.map_values(|m: AtrisMessage| line_view(m)),
                current_message: current_message@,
            },
        }
    }
}

impl View for Message {
    type V = MessageView;

    open spec fn view(&self) -> MessageView {
        match self {
            Message::UpdateUsername(s) => MessageView::UpdateUsername(s@),
            Message::UpdatePassword(s) => MessageView::UpdatePassword(s@),
            Message::ClientCreated(ok) => MessageView::ClientCreated(*ok),
            Message::LoginComplete(r, mode) => MessageView::LoginComplete(
                match r {
                    Ok(response) => Ok(response.session_id@),
                    Err(e) => Err(e@),
                },
                *mode,
            ),
            Message::LoginSelector(mode) => MessageView::LoginSelector(*mode),
            Message::UpdateOtherUser(s) => MessageView::UpdateOtherUser(s@),
            Message::UpdateRoomId(s) => MessageView::UpdateRoomId(s@),
            Message::RoomWaitingFailed(s) => MessageView::RoomWaitingFailed(s@),
            Message::CreateRoom => MessageView::CreateRoom,
            Message::CreateRoomFinished(r, other_user) => MessageView::CreateRoomFinished(
                match r {
                    Some(room) => Some((room.room_id, room.initiator_string@)),
                    None => None,
                },
                other_user@,
            ),
            Message::JoinRoom => MessageView::JoinRoom,
            Message::JoinRoomFinished(room_id, r) => MessageView::JoinRoomFinished(
                *room_id,
                match r {
                    Some(response) => Some(response.room_data@),
                    None => None,
                },
            ),
            Message::MessageChannelReceived => MessageView::MessageChannelReceived,
            Message::ReceiveMessage(m) => MessageView::ReceiveMessage(m@),
            Message::ReceiveMessageFailed => MessageView::ReceiveMessageFailed,
            Message::SendMessage => MessageView::SendMessage,
            Message::MessageSent(s) => MessageView::MessageSent(s@),
            Message::UpdateCurrentMessage(s) => MessageView::UpdateCurrentMessage(s@),
            Message::SendFile => MessageView::SendFile,
            Message::ActualSendFile(path) => MessageView::ActualSendFile(path@),
            Message::SubmitUserInfo => MessageView::SubmitUserInfo,
            Message::CreateClient => MessageView::CreateClient,
            Message::Nop => MessageView::Nop,
        }
    }
}

impl View for Command {
    type V = CommandView;

    open spec fn view(&self) -> CommandView {
        match self {
            Command::Nothing => CommandView::Nothing,
            Command::CreateClient => CommandView::CreateClient,
            Command::SubmitUserInfo { username, password, login_select } => CommandView::SubmitUserInfo {
                username: username@,
                password: password@,
                login_select: *login_select,
            },
            Command::CreateRoom { session_id, other_user } => CommandView::CreateRoom {
                session_id: session_id@,
                other_user: other_user@,
            },
            Command::AnswerRoom { room_id, session_id, other_user, initiator_string } => CommandView::AnswerRoom {
                room_id: *room_id,
                session_id: session_id@,
                other_user: other_user@,
                initiator_string: initiator_string@,
            },
            Command::JoinRoom { session_id, room_id } => CommandView::JoinRoom {
                session_id: session_id@,
                room_id: *room_id,
            },
            Command::CompleteLink { responder_string, symmetric_key } => CommandView::CompleteLink {
                responder_string: responder_string@,
                symmetric_key: symmetric_key@,
            },
            Command::SendText(s) => CommandView::SendText(s@),
            Command::SaveFile { name, data } => CommandView::SaveFile { name: name@, data: data@ },
            Command::SendFileAt(path) => CommandView::SendFileAt(path@),
            Command::PickFile => CommandView::PickFile,
        }
    }
}

/// What the failure page says where the room's data did not decrypt.
pub open spec fn undecryptable_text() -> Seq<char> {
    "The room's data could not be decrypted"@
}

/// The empty text.
pub open spec fn no_text() -> Seq<char> {
    Seq::empty()
}

/// The next page and the command, for the messages that mean the same on
/// every page; `None` for every other message.
pub open spec fn next_anywhere(state: AtrisView, message: MessageView) -> Option<
    (AtrisView, CommandView),
> {
    match message {
        MessageView::CreateClient => Some((state, CommandView::CreateClient)),
        MessageView::Nop => Some((state, CommandView::Nothing)),
        _ => None,
    }
}

/// The next page and the command on the login page.
pub open spec fn next_login(
    username: Seq<char>,
    password: Seq<char>,
    login_select: LoginMode,
    error_message: Option<Seq<char>>,
    message: MessageView,
) -> (AtrisView, CommandView) {
    match message {
        MessageView::UpdateUsername(s) => (
            AtrisView::Login { username: s, password, login_select, error_message },
            CommandView::Nothing,
        ),
        MessageView::UpdatePassword(s) => (
            AtrisView::Login { username, password: s, login_select, error_message },
            CommandView::Nothing,
        ),
        MessageView::LoginSelector(mode) => (
            AtrisView::Login { username, password, login_select: mode, error_message },
            CommandView::Nothing,
        ),
        MessageView::SubmitUserInfo => (
            AtrisView::LoggingIn,
            CommandView::SubmitUserInfo { username, password, login_select },
        ),
        _ => (
            AtrisView::Login { username, password, login_select, error_message },
            CommandView::Nothing,
        ),
    }
}

/// The next page and the command on the home page.
pub open spec fn next_home(
    session: Seq<u8>,
    other_user: Seq<char>,
    room_id: Seq<char>,
    message: MessageView,
) -> (AtrisView, CommandView) {
    let stay = AtrisView::Home { session, other_user, room_id };
    match message {
        MessageView::UpdateOtherUser(u) => (
            AtrisView::Home { session, other_user: u, room_id },
            CommandView::Nothing,
        ),
        MessageView::UpdateRoomId(r) => (
            AtrisView::Home { session, other_user, room_id: r },
            CommandView::Nothing,
        ),
        MessageView::CreateRoom => (stay, CommandView::CreateRoom { session_id: session, other_user }),
        MessageView::CreateRoomFinished(Some((number, initiator_string)), with) => (
            AtrisView::MessageWaitingPage { room_id: number, other_user: Some(with) },
            CommandView::AnswerRoom {
                room_id: number,
                session_id: session,
                other_user: with,
                initiator_string,
            },
        ),
        MessageView::CreateRoomFinished(None, with) => (
            AtrisView::CreateRoomError { other_user: with },
            CommandView::Nothing,
        ),
        MessageView::JoinRoom => match parse_u16_text(room_id) {
            Some(number) => (stay, CommandView::JoinRoom { session_id: session, room_id: number }),
            None => (stay, CommandView::Nothing),
        },
        MessageView::JoinRoomFinished(number, Some(room_data)) => match decrypts_to::<RoomData>(
            room_data,
            session,
        ) {
            Ok(data) => (
                AtrisView::MessageWaitingPage { room_id: number, other_user: None },
                CommandView::CompleteLink {
                    responder_string: data.responder_string,
                    symmetric_key: data.symmetric_key,
                },
            ),
            Err(_) => (AtrisView::MesageWaitingFailed(undecryptable_text()), CommandView::Nothing),
        },
        _ => (stay, CommandView::Nothing),
    }
}

/// The next page and the command in a conversation.
pub open spec fn next_conversation(
    room_id: u16,
    messages: Seq<AtrisMessageView>,
    current_message: Seq<char>,
    message: MessageView,
) -> (AtrisView, CommandView) {
    let stay = AtrisView::MessagePage { room_id, messages, current_message };
    match message {
        MessageView::SendMessage => (stay, CommandView::SendText(current_message)),
        MessageView::UpdateCurrentMessage(m) => (
            AtrisView::MessagePage { room_id, messages, current_message: m },
            CommandView::Nothing,
        ),
        MessageView::ReceiveMessage(AtrisMessageDataView::Text(m)) => (
            AtrisView::MessagePage {
                room_id,
                messages: messages.push(AtrisMessageView::Received(m)),
                current_message,
            },
            CommandView::Nothing,
        ),
        MessageView::ReceiveMessage(AtrisMessageDataView::File { data, name }) => (
            stay,
            CommandView::SaveFile { name, data },
        ),
        MessageView::MessageSent(s) => (
            AtrisView::MessagePage {
                room_id,
                messages: messages.push(AtrisMessageView::Sent(s)),
                current_message,
            },
            CommandView::Nothing,
        ),
        MessageView::ActualSendFile(path) => (stay, CommandView::SendFileAt(path)),
        MessageView::SendFile => (stay, CommandView::PickFile),
        _ => (stay, CommandView::Nothing),
    }
}

/// The next page and the command.
pub open spec fn next(state: AtrisView, message: MessageView) -> (AtrisView, CommandView) {
    match next_anywhere(state, message) {
        Some(done) => done,
        None => match state {
            AtrisView::CreatingClient => match message {
                MessageView::ClientCreated(true) => (
                    AtrisView::Login {
                        username: no_text(),
                        password: no_text(),
                        login_select: LoginMode::LoginUser,
                        error_message: None,
                    },
                    CommandView::Nothing,
                ),
                MessageView::ClientCreated(false) => (
                    AtrisView::ErrorCreatingClient,
                    CommandView::Nothing,
                ),
                _ => (state, CommandView::Nothing),
            },
            AtrisView::Login { username, password, login_select, error_message } => next_login(
                username,
                password,
                login_select,
                error_message,
                message,
            ),
            AtrisView::LoggingIn => match message {
                MessageView::LoginComplete(Ok(session), _) => (
                    AtrisView::Home { session, other_user: no_text(), room_id: no_text() },
                    CommandView::Nothing,
                ),
                MessageView::LoginComplete(Err(error_message), login_select) => (
                    AtrisView::Login {
                        username: no_text(),
                        password: no_text(),
                        login_select,
                        error_message: Some(error_message),
                    },
                    CommandView::Nothing,
                ),
                _ => (state, CommandView::Nothing),
            },
            AtrisView::Home { session, other_user, room_id } => next_home(
                session,
                other_user,
                room_id,
                message,
            ),
            AtrisView::MessageWaitingPage { room_id, other_user } => match message {
                MessageView::MessageChannelReceived => (
                    AtrisView::MessagePage {
                        room_id,
                        messages: Seq::empty(),
                        current_message: no_text(),
                    },
                    CommandView::Nothing,
                ),
                MessageView::RoomWaitingFailed(text) => (
                    AtrisView::MesageWaitingFailed(text),
                    CommandView::Nothing,
                ),
                _ => (state, CommandView::Nothing),
            },
            AtrisView::MessagePage { room_id, messages, current_message } => next_conversation(
                room_id,
                messages,
                current_message,
                message,
            ),
            _ => (state, CommandView::Nothing),
        },
    }
}

impl Atris {
    /// The page on which the front end starts, with the command to set up
    /// the connection.
    pub fn new() -> (r: (Atris, Command))
        ensures
            r.0@ == AtrisView::CreatingClient,
            r.1@ == CommandView::CreateClient,
    {
        (Atris::CreatingClient, Command::CreateClient)
    }

    /// The title of the window.
    pub fn title(&self) -> (r: String)
        ensures
            r@ == "Example"@,
    {
        String::from_str("Example")
    }

    /// Whether the page polls the channel for messages.
    pub fn subscription(&self) -> (r: bool)
        ensures
            r == (self@ is MessagePage),
    {
        match self {
            Atris::MessagePage { .. } => true,
            _ => false,
        }
    }

    /// Takes a message on the login page.
    fn update_login(
        username: String,
        password: String,
        login_select: LoginMode,
        error_message: Option<String>,
        message: Message,
    ) -> (r: (Atris, Command))
        requires
            next_anywhere(AtrisView::CreatingClient, message@) is None,
        ensures
            (r.0@, r.1@) == next_login(
                username@,
                password@,
                login_select,
                text_view(error_message),
                message@,
            ),
    {
        match message {
            Message::UpdateUsername(s) => (
                Atris::Login { username: s, password, login_select, error_message },
                Command::Nothing,
            ),
            Message::UpdatePassword(s) => (
                Atris::Login { username, password: s, login_select, error_message },
                Command::Nothing,
            ),
            Message::LoginSelector(mode) => (
                Atris::Login { username, password, login_select: mode, error_message },
                Command::Nothing,
            ),
            Message::SubmitUserInfo => (
                Atris::LoggingIn,
                Command::SubmitUserInfo { username, password, login_select },
            ),
            _ => (Atris::Login { username, password, login_select, error_message }, Command::Nothing),
        }
    }

    /// Takes a message on the home page.
    fn update_home(session: Session, other_user: String, room_id: String, message: Message) -> (r: (
        Atris,
        Command,
    ))
        requires
            next_anywhere(AtrisView::CreatingClient, message@) is None,
        ensures
            (r.0@, r.1@) == next_home(session.0@, other_user@, room_id@, message@),
    {
        match message {
            Message::UpdateOtherUser(u) => (
                Atris::Home { session, other_user: u, room_id },
                Command::Nothing,
            ),
            Message::UpdateRoomId(r) => (
                Atris::Home { session, other_user, room_id: r },
                Command::Nothing,
            ),
            Message::CreateRoom => {
                let command = Command::CreateRoom {
                    session_id: session.0.clone(),
                    other_user: other_user.clone(),
                };
                (Atris::Home { session, other_user, room_id }, command)
            },
            Message::CreateRoomFinished(Some(room), with) => (
                Atris::MessageWaitingPage { room_id: room.room_id, other_user: Some(with.clone()) },
                Command::AnswerRoom {
                    room_id: room.room_id,
                    session_id: session.0,
                    other_user: with,
                    initiator_string: room.initiator_string,
                },
            ),
            Message::CreateRoomFinished(None, with) => (
                Atris::CreateRoomError { other_user: with },
                Command::Nothing,
            ),
            Message::JoinRoom => {
                let command = match parse_u16(room_id.as_str()) {
                    Some(number) => Command::JoinRoom {
                        session_id: session.0.clone(),
                        room_id: number,
                    },
                    None => Command::Nothing,
                };
                (Atris::Home { session, other_user, room_id }, command)
            },
            Message::JoinRoomFinished(number, Some(response)) => {
                match response.room_data.decrypt(&session.0.as_cipher()) {
                    Ok(data) => (
                        Atris::MessageWaitingPage { room_id: number, other_user: None },
                        Command::CompleteLink {
                            responder_string: data.responder_string,
                            symmetric_key: data.symmetric_key,
                        },
                    ),
                    Err(_) => (
                        Atris::MesageWaitingFailed(
                            String::from_str("The room's data could not be decrypted"),
                        ),
                        Command::Nothing,
                    ),
                }
            },
            _ => (Atris::Home { session, other_user, room_id }, Command::Nothing),
        }
    }

    /// Takes a message in a conversation.
    fn update_conversation(
        room_id: u16,
        messages: Vec<AtrisMessage>,
        current_message: String,
        message: Message,
    ) -> (r: (Atris, Command))
        requires
            next_anywhere(AtrisView::CreatingClient, message@) is None,
        ensures
            (r.0@, r.1@) == next_conversation(
                room_id,
                messages@.map_values(|m: AtrisMessage| line_view(m)),
                current_message@,
                message@,
            ),
    {
        let ghost before = messages@.map_values(|m: AtrisMessage| line_view(m));
        match message {
            Message::SendMessage => {
                let command = Command::SendText(current_message.clone());
                (Atris::MessagePage { room_id, messages, current_message }, command)
            },
            Message::UpdateCurrentMessage(m) => (
                Atris::MessagePage { room_id, messages, current_message: m },
                Command::Nothing,
            ),
            Message::ReceiveMessage(AtrisMessageData::Text(m)) => {
                let mut messages = messages;
                let line = AtrisMessage::Received(m);
                assert(messages@.push(line).map_values(|m: AtrisMessage| line_view(m))
                    =~= before.push(line_view(line)));
                messages.push(line);
                (Atris::MessagePage { room_id, messages, current_message }, Command::Nothing)
            },
            Message::ReceiveMessage(AtrisMessageData::File { data, name }) => (
                Atris::MessagePage { room_id, messages, current_message },
                Command::SaveFile { name, data },
            ),
            Message::MessageSent(s) => {
                let mut messages = messages;
                let line = AtrisMessage::Sent(s);
                assert(messages@.push(line).map_values(|m: AtrisMessage| line_view(m))
                    =~= before.push(line_view(line)));
                messages.push(line);
                (Atris::MessagePage { room_id, messages, current_message }, Command::Nothing)
            },
            Message::ActualSendFile(path) => (
                Atris::MessagePage { room_id, messages, current_message },
                Command::SendFileAt(path),
            ),
            Message::SendFile => (
                Atris::MessagePage { room_id, messages, current_message },
                Command::PickFile,
            ),
            _ => (Atris::MessagePage { room_id, messages, current_message }, Command::Nothing),
        }
    }

    /// Takes a message: the next page, and what is to be done outside.
    pub fn update(self, message: Message) -> (r: (Atris, Command))
        ensures
            (r.0@, r.1@) == next(self@, message@),
    {
        match message {
            Message::CreateClient => { return (self, Command::CreateClient); },
            Message::Nop => { return (self, Command::Nothing); },
            _ => {},
        }
        match self {
            Atris::CreatingClient => match message {
                Message::ClientCreated(true) => {
                    let username = String::from_str("");
                    let password = String::from_str("");
                    proof {
                        reveal_strlit("");
                        assert(username@ =~= no_text());
                        assert(password@ =~= no_text());
                    }
                    (
                        Atris::Login {
                            username,
                            password,
                            login_select: LoginMode::LoginUser,
                            error_message: None,
                        },
                        Command::Nothing,
                    )
                },
                Message::ClientCreated(false) => (Atris::ErrorCreatingClient, Command::Nothing),
                _ => (Atris::CreatingClient, Command::Nothing),
            },
            Atris::Login { username, password, login_select, error_message } => Atris::update_login(
                username,
                password,
                login_select,
                error_message,
                message,
            ),
            Atris::LoggingIn => match message {
                Message::LoginComplete(Ok(response), _) => {
                    let other_user = String::from_str("");
                    let room_id = String::from_str("");
                    proof {
                        reveal_strlit("");
                        assert(other_user@ =~= no_text());
                        assert(room_id@ =~= no_text());
                    }
                    (
                        Atris::Home { session: Session(response.session_id), other_user, room_id },
                        Command::Nothing,
                    )
                },
                Message::LoginComplete(Err(error_message), login_select) => {
                    let username = String::from_str("");
                    let password = String::from_str("");
                    proof {
                        reveal_strlit("");
                        assert(username@ =~= no_text());
                        assert(password@ =~= no_text());
                    }
                    (
                        Atris::Login {
                            username,
                            password,
                            login_select,
                            error_message: Some(error_message),
                        },
                        Command::Nothing,
                    )
                },
                _ => (Atris::LoggingIn, Command::Nothing),
            },
            Atris::Home { session, other_user, room_id } => Atris::update_home(
                session,
                other_user,
                room_id,
                message,
            ),
            Atris::MessageWaitingPage { room_id, other_user } => match message {
                Message::MessageChannelReceived => {
                    let messages: Vec<AtrisMessage> = Vec::new();
                    let current_message = String::from_str("");
                    proof {
                        reveal_strlit("");
                        assert(current_message@ =~= no_text());
                        assert(messages@.map_values(|m: AtrisMessage| line_view(m))
                            =~= Seq::<AtrisMessageView>::empty());
                    }
                    (Atris::MessagePage { room_id, messages, current_message }, Command::Nothing)
                },
                Message::RoomWaitingFailed(text) => (
                    Atris::MesageWaitingFailed(text),
                    Command::Nothing,
                ),
                _ => (Atris::MessageWaitingPage { room_id, other_user }, Command::Nothing),
            },
            Atris::MessagePage { room_id, messages, current_message } => Atris::update_conversation(
                room_id,
                messages,
                current_message,
                message,
            ),
            other => (other, Command::Nothing),
        }
    }
}

/// The lines of the conversation on a page; none on the other pages.
pub open spec fn conversation(state: AtrisView) -> Seq<AtrisMessageView> {
    match state {
        AtrisView::MessagePage { messages, .. } => messages,
        _ => Seq::empty(),
    }
}

/// A conversation stays a conversation, in the same room, and its lines are
/// never changed or dropped: a message adds at most one line at the end.
pub proof fn lemma_conversation_only_grows(state: AtrisView, message: MessageView)
    requires
        state is MessagePage,
    ensures
        ({
            let after = next(state, message).0;
            &&& after matches AtrisView::MessagePage { room_id, messages, .. }
            &&& room_id == state->MessagePage_room_id
            &&& (messages == conversation(state) || (messages.len() == conversation(state).len()
                + 1 && messages.drop_last() == conversation(state)))
        }),
{
    let before = conversation(state);
    let after = conversation(next(state, message).0);
    if after != before {
        assert(after.drop_last() =~= before);
    }
}

/// The session's key leaves the front end only in the three requests that
/// carry it to the server: to create a room, to answer it, to join one.
pub proof fn lemma_session_goes_only_to_the_server(state: AtrisView, message: MessageView)
    ensures
        match next(state, message).1 {
            CommandView::CreateRoom { session_id, .. } => state matches AtrisView::Home {
                session,
                ..
            } && session == session_id,
            CommandView::AnswerRoom { session_id, .. } => state matches AtrisView::Home {
                session,
                ..
            } && session == session_id,
            CommandView::JoinRoom { session_id, .. } => state matches AtrisView::Home { session, .. }
                && session == session_id,
            _ => true,
        },
{
}

/// The link is completed only with what the room's data decrypts to under
/// the session's key.
pub proof fn lemma_link_comes_from_room_data(state: AtrisView, message: MessageView)
    requires
        next(state, message).1 is CompleteLink,
    ensures
        state matches AtrisView::Home { session, .. } && message matches MessageView::JoinRoomFinished(
            _,
            Some(room_data),
        ) && decrypts_to::<RoomData>(room_data, session) == Ok::<RoomDataView, DecryptionError>(
            RoomDataView {
                responder_string: next(state, message).1->CompleteLink_responder_string,
                symmetric_key: next(state, message).1->CompleteLink_symmetric_key,
            },
        ),
{
}

} // verus!
