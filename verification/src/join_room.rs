//! Joining a room: the third step of the rendezvous.
use crate::encrypted::Encrypted;
use crate::key::CipherKey;
use crate::room_data::RoomData;
use crate::room_table::{room_by_id, AtrisRoomDBClient, Room, RoomView};
use crate::session_table::{session_by_id, AtrisSessionDBClient, Session, SessionView};
use vstd::prelude::*;
use vstd::string::StringExecFns;

verus! {

/// A request for the sealed data of a completed room.
#[derive(Debug)]
pub struct JoinRoomRequest {
    /// The caller's session.
    pub session_id: CipherKey,
    /// The room to join.
    pub room_id: u16,
}

/// The sealed data of the room, as stored.
#[derive(Debug)]
pub struct JoinRoomResponse {
    pub room_data: Encrypted<RoomData>,
}

/// Why a room could not be joined.
#[derive(Debug)]
pub enum JoinRoomError {
    /// The caller's session does not exist.
    InvalidSessionId(CipherKey),
    /// No room has this number.
    NonexistentRoomId(u16),
    /// The room has not been completed yet.
    IncompleteRoom,
    /// The store failed while reading.
    DatabaseReadError,
}

/// An error as plain values.
pub enum JoinRoomErrorView {
    InvalidSessionId(Seq<u8>),
    NonexistentRoomId(u16),
    IncompleteRoom,
    DatabaseReadError,
}

impl View for JoinRoomError {
    type V = JoinRoomErrorView;

    open spec fn view(&self) -> JoinRoomErrorView {
        match self {
            JoinRoomError::InvalidSessionId(k) => JoinRoomErrorView::InvalidSessionId(k@),
            JoinRoomError::NonexistentRoomId(i) => JoinRoomErrorView::NonexistentRoomId(*i),
            JoinRoomError::IncompleteRoom => JoinRoomErrorView::IncompleteRoom,
            JoinRoomError::DatabaseReadError => JoinRoomErrorView::DatabaseReadError,
        }
    }
}

/// The view of what a handler returned: nonce and ciphertext of the room
/// data, or the error.
pub open spec fn join_room_result(r: Result<JoinRoomResponse, JoinRoomError>) -> Result<
    (Seq<u8>, Seq<u8>),
    JoinRoomErrorView,
> {
    match r {
        Ok(response) => Ok(response.room_data@),
        Err(e) => Err(e@),
    }
}

/// What joining a room returns: the sealed room data as stored. Who created
/// the room plays no part; any live session may ask.
pub open spec fn join_room_spec(
    sessions: Seq<SessionView>,
    rooms: Seq<RoomView>,
    session_id: Seq<u8>,
    room_id: u16,
) -> Result<(Seq<u8>, Seq<u8>), JoinRoomErrorView> {
    match session_by_id(sessions, session_id) {
        None => Err(JoinRoomErrorView::InvalidSessionId(session_id)),
        Some(_) => match room_by_id(rooms, room_id) {
            None => Err(JoinRoomErrorView::NonexistentRoomId(room_id)),
            Some(room) => match room.room_data {
                None => Err(JoinRoomErrorView::IncompleteRoom),
                Some(data) => Ok(data),
            },
        },
    }
}

/// Decides from the session lookup whether the caller may join.
pub fn join_room_check(requester: Option<Session>, session_id: CipherKey) -> (r: Result<
    (),
    JoinRoomError,
>)
    ensures
        match requester {
            None => r matches Err(JoinRoomError::InvalidSessionId(k)) && k == session_id,
            Some(_) => r is Ok,
        },
{
    match requester {
        None => Err(JoinRoomError::InvalidSessionId(session_id)),
        Some(_) => Ok(()),
    }
}

/// What joining returns, given what reading the room gave.
pub fn join_room_outcome(room: Result<Room, JoinRoomError>) -> (r: Result<
    JoinRoomResponse,
    JoinRoomError,
>)
    ensures
        match room {
            Ok(found) => r matches Ok(response) && response.room_data == found.room_data,
            Err(e) => r matches Err(f) && f == e,
        },
{
    match room {
        Ok(found) => Ok(JoinRoomResponse { room_data: found.room_data }),
        Err(e) => Err(e),
    }
}

/// Hands out the sealed data of a completed room.
///
/// Fails with `InvalidSessionId` where the caller's session does not exist,
/// else with `NonexistentRoomId` where no room has the number, else with
/// `IncompleteRoom` where the room has no room data yet. Otherwise returns
/// the room data exactly as stored. Nothing is changed.
pub fn join_room(sessions: &AtrisSessionDBClient, rooms: &AtrisRoomDBClient, request: JoinRoomRequest) -> (r:
    Result<JoinRoomResponse, JoinRoomError>)
    ensures
        join_room_result(r) == join_room_spec(
            sessions.records(),
            rooms.records(),
            request.session_id@,
            request.room_id,
        ),
{
    let requester = match sessions.get_session(request.session_id.clone()) {
        Ok(found) => found,
        Err(_) => None,
    };
    match join_room_check(requester, request.session_id) {
        Err(e) => Err(e),
        Ok(()) => join_room_outcome(rooms.get_room(request.room_id)),
    }
}

/// Joining does not ask who created the room: any two live sessions get the
/// same answer for the same room.
pub proof fn lemma_join_ignores_the_asker(
    sessions: Seq<SessionView>,
    rooms: Seq<RoomView>,
    one: Seq<u8>,
    other: Seq<u8>,
    room_id: u16,
)
    requires
        session_by_id(sessions, one) is Some,
        session_by_id(sessions, other) is Some,
    ensures
        join_room_spec(sessions, rooms, one, room_id) == join_room_spec(
            sessions,
            rooms,
            other,
            room_id,
        ),
{
}

impl JoinRoomError {
    /// What a user is told, word for word.
    pub open spec fn message_text(&self) -> Seq<char> {
        match self {
            JoinRoomError::IncompleteRoom => "Not all keys present for room."@,
            JoinRoomError::InvalidSessionId(s) => "Session "@ + CipherKey::debug_text(s@)
                + " does not exist."@,
            JoinRoomError::NonexistentRoomId(room_id) => "RoomID '"@ + crate::text::decimal_text(*room_id as nat)
                + "' does not exist"@,
            JoinRoomError::DatabaseReadError => "Failed to read from the database"@,
        }
    }

    /// What a user is told.
    pub fn message(&self) -> (r: String)
        ensures
            r@ == self.message_text(),
    {
        match self {
            JoinRoomError::IncompleteRoom => String::from_str("Not all keys present for room."),
            JoinRoomError::InvalidSessionId(s) => {
                let shown = s.to_debug_string();
                crate::text::between("Session ", shown.as_str(), " does not exist.")
            },
            JoinRoomError::NonexistentRoomId(room_id) => {
                let number = crate::text::decimal(*room_id);
                crate::text::between("RoomID '", number.as_str(), "' does not exist")
            },
            JoinRoomError::DatabaseReadError => String::from_str(
                "Failed to read from the database",
            ),
        }
    }
}

} // verus!
