//! Completing a room: the second step of the rendezvous.
use crate::encrypted::{decrypts_to, fresh_nonce, sealable, sealed, DecryptionError, Encrypted};
use crate::key::CipherKey;
use crate::room_data::{RoomData, RoomDataView};
use crate::room_table::{may_update, room_by_id, room_position, rooms_after_update, distinct_room_ids, lemma_update_keeps_rooms, AtrisRoomDBClient, RoomView};
use crate::session_table::{session_by_id, session_by_username, AtrisSessionDBClient, Session, SessionView};
use crate::store::{lemma_first_index, lemma_first_index_is};
use crate::wire::Wire;
use vstd::prelude::*;
use vstd::string::StringExecFns;

verus! {

/// A request to complete a room with the caller's transport answer.
#[derive(Debug)]
pub struct SetRoomResponderRequest {
    /// The caller's session.
    pub session_id: CipherKey,
    /// The room to complete.
    pub room_id: u16,
    /// The user who created the room.
    pub other_user_name: String,
    /// The caller's transport answer.
    pub responder_string: String,
}

/// A room was completed.
#[derive(Debug)]
pub struct SetRoomResponderResponse {
    /// The key of the conversation, fresh for this room.
    pub room_symmetric_key: CipherKey,
}

/// Why a room was not completed.
#[derive(Debug)]
pub enum SetRoomResponderError {
    /// Room data could not be encoded.
    BincodeError,
    /// Room data could not be sealed.
    EncryptionError,
    /// No room has this number.
    InvalidRoomId(u16),
    /// The store failed while writing.
    DatabaseWriteError,
    /// The named user did not create the room.
    NotRoomCreator(String),
    /// The caller's session does not exist.
    InvalidSessionId(CipherKey),
    /// The other user has no session.
    NoSessionForUser(String),
}

/// An error as plain values.
pub enum SetRoomResponderErrorView {
    BincodeError,
    EncryptionError,
    InvalidRoomId(u16),
    DatabaseWriteError,
    NotRoomCreator(Seq<char>),
    InvalidSessionId(Seq<u8>),
    NoSessionForUser(Seq<char>),
}

impl View for SetRoomResponderError {
    type V = SetRoomResponderErrorView;

    open spec fn view(&self) -> SetRoomResponderErrorView {
        match self {
            SetRoomResponderError::BincodeError => SetRoomResponderErrorView::BincodeError,
            SetRoomResponderError::EncryptionError => SetRoomResponderErrorView::EncryptionError,
            SetRoomResponderError::InvalidRoomId(i) => SetRoomResponderErrorView::InvalidRoomId(*i),
            SetRoomResponderError::DatabaseWriteError => SetRoomResponderErrorView::DatabaseWriteError,
            SetRoomResponderError::NotRoomCreator(u) => SetRoomResponderErrorView::NotRoomCreator(
                u@,
            ),
            SetRoomResponderError::InvalidSessionId(k) => SetRoomResponderErrorView::InvalidSessionId(
                k@,
            ),
            SetRoomResponderError::NoSessionForUser(u) => SetRoomResponderErrorView::NoSessionForUser(
                u@,
            ),
        }
    }
}

/// The view of what a handler returned: the room's key, or the error.
pub open spec fn set_room_responder_result(
    r: Result<SetRoomResponderResponse, SetRoomResponderError>,
) -> Result<Seq<u8>, SetRoomResponderErrorView> {
    match r {
        Ok(response) => Ok(response.room_symmetric_key@),
        Err(e) => Err(e@),
    }
}

/// The plaintext that is sealed into a room: the caller's transport answer
/// and the room's key, encoded.
pub open spec fn room_payload(responder_string: Seq<char>, room_key: Seq<u8>) -> Seq<u8> {
    RoomData::wire_of(RoomDataView { responder_string, symmetric_key: room_key })
}

/// What completing a room returns when `room_key` is the key drawn for it.
///
/// The caller names the room's creator as `other_user_name`. The room data
/// is written on condition that the room's stored creator is that user.
pub open spec fn set_room_responder_spec(
    sessions: Seq<SessionView>,
    rooms: Seq<RoomView>,
    session_id: Seq<u8>,
    room_id: u16,
    other_user_name: Seq<char>,
    responder_string: Seq<char>,
    room_key: Seq<u8>,
) -> Result<Seq<u8>, SetRoomResponderErrorView> {
    match session_by_id(sessions, session_id) {
        None => Err(SetRoomResponderErrorView::InvalidSessionId(session_id)),
        Some(_) => match session_by_username(sessions, other_user_name) {
            None => Err(SetRoomResponderErrorView::NoSessionForUser(other_user_name)),
            Some(creator) => if !sealable(room_payload(responder_string, room_key).len()) {
                Err(SetRoomResponderErrorView::EncryptionError)
            } else if !may_update(rooms, room_id, creator.username) {
                Err(SetRoomResponderErrorView::NotRoomCreator(creator.username))
            } else {
                Ok(room_key)
            },
        },
    }
}

/// The rooms after an attempt to complete a room with key `room_key`, sealed
/// with `nonce`: on success the room holds the payload sealed under the
/// creator's session identifier; on every failure the rooms are the same.
pub open spec fn rooms_after_set_room_responder(
    sessions: Seq<SessionView>,
    rooms: Seq<RoomView>,
    session_id: Seq<u8>,
    room_id: u16,
    other_user_name: Seq<char>,
    responder_string: Seq<char>,
    room_key: Seq<u8>,
    nonce: Seq<u8>,
) -> Seq<RoomView> {
    if set_room_responder_spec(
        sessions,
        rooms,
        session_id,
        room_id,
        other_user_name,
        responder_string,
        room_key,
    ) is Ok {
        let creator = session_by_username(sessions, other_user_name)->0;
        rooms_after_update(
            rooms,
            room_id,
            creator.username,
            (nonce, sealed(creator.session_id, nonce, room_payload(responder_string, room_key))),
        )
    } else {
        rooms
    }
}

/// Decides from the two session lookups whether the caller may go on, and
/// under whose session the room data is to be sealed.
///
/// `requester` is what the lookup of the request's session found, `other`
/// what the lookup of the named user found. Returns the named user's
/// session.
pub fn set_room_responder_check(
    requester: Option<Session>,
    other: Option<Session>,
    session_id: CipherKey,
    other_user_name: String,
) -> (r: Result<Session, SetRoomResponderError>)
    ensures
        match requester {
            None => r matches Err(SetRoomResponderError::InvalidSessionId(k)) && k == session_id,
            Some(_) => match other {
                None => r matches Err(SetRoomResponderError::NoSessionForUser(u)) && u
                    == other_user_name,
                Some(b) => r matches Ok(creator) && creator == b,
            },
        },
{
    match requester {
        None => Err(SetRoomResponderError::InvalidSessionId(session_id)),
        Some(_) => match other {
            None => Err(SetRoomResponderError::NoSessionForUser(other_user_name)),
            Some(b) => Ok(b),
        },
    }
}

/// Seals a room's data for its creator: under the creator's session
/// identifier, with the given nonce.
///
/// Fails with `EncryptionError` exactly where the payload is too long to be
/// sealed. The result decrypts under the creator's session identifier to the
/// answer and the key.
pub fn seal_room_data(creator_session_id: &CipherKey, room_data: &RoomData, nonce: [u8; 12]) -> (r:
    Result<Encrypted<RoomData>, SetRoomResponderError>)
    ensures
        r is Ok <==> sealable(RoomData::wire_of(room_data@).len()),
        r matches Err(e) ==> e matches SetRoomResponderError::EncryptionError,
        r matches Ok(e) ==> {
            &&& e@ == (nonce@, sealed(creator_session_id@, nonce@, RoomData::wire_of(room_data@)))
            &&& decrypts_to::<RoomData>(e@, creator_session_id@) == Ok::<
                RoomDataView,
                DecryptionError,
            >(room_data@)
        },
{
    let cipher = creator_session_id.as_cipher();
    match Encrypted::<RoomData>::encrypt_with_nonce(room_data, &cipher, nonce) {
        Ok(e) => Ok(e),
        Err(_) => Err(SetRoomResponderError::EncryptionError),
    }
}

/// Completes a room with the given key, sealing with the given nonce.
///
/// Fails with `InvalidSessionId` where the caller's session does not exist,
/// else with `NoSessionForUser` where the named user has no session, else
/// with `EncryptionError` where the payload cannot be sealed, else with
/// `NotRoomCreator` where the room does not exist or the named user did not
/// create it. Otherwise the room holds the payload sealed under the
/// creator's session identifier, and the key is returned. On every failure
/// the rooms stay as they were.
pub fn set_room_responder_with(
    sessions: &AtrisSessionDBClient,
    rooms: &mut AtrisRoomDBClient,
    request: SetRoomResponderRequest,
    room_symmetric_key: CipherKey,
    nonce: [u8; 12],
) -> (r: Result<SetRoomResponderResponse, SetRoomResponderError>)
    ensures
        set_room_responder_result(r) == set_room_responder_spec(
            sessions.records(),
            old(rooms).records(),
            request.session_id@,
            request.room_id,
            request.other_user_name@,
            request.responder_string@,
            room_symmetric_key@,
        ),
        final(rooms).records() == rooms_after_set_room_responder(
            sessions.records(),
            old(rooms).records(),
            request.session_id@,
            request.room_id,
            request.other_user_name@,
            request.responder_string@,
            room_symmetric_key@,
            nonce@,
        ),
        r is Err ==> final(rooms).records() == old(rooms).records(),
        r is Ok ==> {
            let creator = session_by_username(sessions.records(), request.other_user_name@)->0;
            let room = room_by_id(final(rooms).records(), request.room_id);
            &&& room matches Some(completed)
            &&& completed.creator_user_name == request.other_user_name@
            &&& completed.room_data matches Some(stored)
            &&& decrypts_to::<RoomData>(stored, creator.session_id) == Ok::<
                RoomDataView,
                DecryptionError,
            >(
                RoomDataView {
                    responder_string: request.responder_string@,
                    symmetric_key: room_symmetric_key@,
                },
            )
        },
{
    let ghost before = rooms.records();
    let requester = match sessions.get_session(request.session_id.clone()) {
        Ok(found) => found,
        Err(_) => None,
    };
    let other = match sessions.get_session_for_username(request.other_user_name.clone()) {
        Ok(found) => found,
        Err(_) => None,
    };
    let creator = match set_room_responder_check(
        requester,
        other,
        request.session_id,
        request.other_user_name,
    ) {
        Err(e) => { return Err(e); },
        Ok(found) => found,
    };
    proof {
        lemma_first_index(
            sessions.records(),
            |s: SessionView| s.username == request.other_user_name@,
        );
    }
    let room_data = RoomData {
        responder_string: request.responder_string,
        symmetric_key: room_symmetric_key.clone(),
    };
    let sealed_data = match seal_room_data(&creator.session_id, &room_data, nonce) {
        Err(e) => { return Err(e); },
        Ok(e) => e,
    };
    match rooms.update_room_data(request.room_id, creator.username, sealed_data) {
        Err(e) => Err(e),
        Ok(()) => {
            proof {
                let p = |r: RoomView| r.room_id == request.room_id;
                lemma_first_index(before, p);
                let i = room_position(before, request.room_id)->0;
                let after = rooms.records();
                assert forall|j: int| 0 <= j < i implies !p(#[trigger] after[j]) by {
                    assert(after[j] == before[j]);
                }
                lemma_first_index_is(after, p, i);
            }
            Ok(SetRoomResponderResponse { room_symmetric_key })
        },
    }
}

/// Completes a room with a fresh random key, sealing with a fresh random
/// nonce.
///
/// Whatever is drawn, the call is a call of [`set_room_responder_with`] for
/// some nonce and for the key returned: which error comes does not depend on
/// the nonce, and on every failure the rooms stay as they were.
pub fn set_room_responder(
    sessions: &AtrisSessionDBClient,
    rooms: &mut AtrisRoomDBClient,
    request: SetRoomResponderRequest,
) -> (r: Result<SetRoomResponderResponse, SetRoomResponderError>)
    ensures
        r is Err ==> final(rooms).records() == old(rooms).records(),
        r matches Err(e) ==> exists|room_key: Seq<u8>|
            room_key.len() == crate::key::KEY_LEN && #[trigger] set_room_responder_spec(
                sessions.records(),
                old(rooms).records(),
                request.session_id@,
                request.room_id,
                request.other_user_name@,
                request.responder_string@,
                room_key,
            ) == Err::<Seq<u8>, SetRoomResponderErrorView>(e@),
        r matches Ok(response) ==> {
            let creator = session_by_username(sessions.records(), request.other_user_name@)->0;
            let room = room_by_id(final(rooms).records(), request.room_id);
            &&& set_room_responder_spec(
                sessions.records(),
                old(rooms).records(),
                request.session_id@,
                request.room_id,
                request.other_user_name@,
                request.responder_string@,
                response.room_symmetric_key@,
            ) is Ok
            &&& exists|nonce: Seq<u8>|
                nonce.len() == crate::encrypted::NONCE_LEN && final(rooms).records()
                    == #[trigger] rooms_after_set_room_responder(
                    sessions.records(),
                    old(rooms).records(),
                    request.session_id@,
                    request.room_id,
                    request.other_user_name@,
                    request.responder_string@,
                    response.room_symmetric_key@,
                    nonce,
                )
            &&& room matches Some(completed)
            &&& completed.room_data matches Some(stored)
            &&& decrypts_to::<RoomData>(stored, creator.session_id) == Ok::<
                RoomDataView,
                DecryptionError,
            >(
                RoomDataView {
                    responder_string: request.responder_string@,
                    symmetric_key: response.room_symmetric_key@,
                },
            )
        },
{
    let room_symmetric_key = CipherKey::generate();
    let nonce = fresh_nonce();
    proof {
        room_symmetric_key.lemma_len();
    }
    set_room_responder_with(sessions, rooms, request, room_symmetric_key, nonce)
}

/// Where the user named as creator did not create the room, or the room
/// does not exist, completing it fails, with `NotRoomCreator` unless an
/// earlier check failed, and the rooms stay as they were.
pub proof fn lemma_creator_binding(
    sessions: Seq<SessionView>,
    rooms: Seq<RoomView>,
    session_id: Seq<u8>,
    room_id: u16,
    other_user_name: Seq<char>,
    responder_string: Seq<char>,
    room_key: Seq<u8>,
    nonce: Seq<u8>,
)
    requires
        !(room_by_id(rooms, room_id) matches Some(room) && room.creator_user_name
            == other_user_name),
    ensures
        set_room_responder_spec(
            sessions,
            rooms,
            session_id,
            room_id,
            other_user_name,
            responder_string,
            room_key,
        ) is Err,
        session_by_id(sessions, session_id) is Some && session_by_username(
            sessions,
            other_user_name,
        ) is Some && sealable(room_payload(responder_string, room_key).len())
            ==> set_room_responder_spec(
            sessions,
            rooms,
            session_id,
            room_id,
            other_user_name,
            responder_string,
            room_key,
        ) == Err::<Seq<u8>, SetRoomResponderErrorView>(
            SetRoomResponderErrorView::NotRoomCreator(other_user_name),
        ),
        rooms_after_set_room_responder(
            sessions,
            rooms,
            session_id,
            room_id,
            other_user_name,
            responder_string,
            room_key,
            nonce,
        ) == rooms,
{
    lemma_first_index(sessions, |s: SessionView| s.username == other_user_name);
}

/// Completing a room changes no room's number or creator and no other
/// room's data, and keeps room numbers distinct.
pub proof fn lemma_set_room_responder_keeps_rooms(
    sessions: Seq<SessionView>,
    rooms: Seq<RoomView>,
    session_id: Seq<u8>,
    room_id: u16,
    other_user_name: Seq<char>,
    responder_string: Seq<char>,
    room_key: Seq<u8>,
    nonce: Seq<u8>,
)
    ensures
        ({
            let after = rooms_after_set_room_responder(
                sessions,
                rooms,
                session_id,
                room_id,
                other_user_name,
                responder_string,
                room_key,
                nonce,
            );
            &&& after.len() == rooms.len()
            &&& distinct_room_ids(rooms) ==> distinct_room_ids(after)
            &&& forall|i: int|
                #![trigger rooms[i]]
                0 <= i < rooms.len() ==> after[i].room_id == rooms[i].room_id
                    && after[i].creator_user_name == rooms[i].creator_user_name && (
                rooms[i].room_id != room_id ==> after[i] == rooms[i])
        }),
{
    let creator = session_by_username(sessions, other_user_name);
    if creator is Some {
        lemma_update_keeps_rooms(
            rooms,
            room_id,
            creator->0.username,
            (
                nonce,
                sealed(creator->0.session_id, nonce, room_payload(responder_string, room_key)),
            ),
        );
    }
}

impl SetRoomResponderError {
    /// What a user is told, word for word.
    pub open spec fn message_text(&self) -> Seq<char> {
        match self {
            SetRoomResponderError::InvalidRoomId(room_id) => "RoomID '"@ + crate::text::decimal_text(*room_id as nat)
                + "' is not found"@,
            SetRoomResponderError::BincodeError => "Error serializing room data"@,
            SetRoomResponderError::EncryptionError => "Error encrypting room data"@,
            SetRoomResponderError::DatabaseWriteError => "Failed to write to the database"@,
            SetRoomResponderError::InvalidSessionId(s) => "Session "@ + CipherKey::debug_text(s@)
                + " does not exist."@,
            SetRoomResponderError::NotRoomCreator(u) => "User \""@ + u@
                + "\" did not create this room and, as such, cannot set the responder."@,
            SetRoomResponderError::NoSessionForUser(u) => "No session found for user "@ + u@ + "."@,
        }
    }

    /// What a user is told.
    pub fn message(&self) -> (r: String)
        ensures
            r@ == self.message_text(),
    {
        match self {
            SetRoomResponderError::InvalidRoomId(room_id) => {
                let number = crate::text::decimal(*room_id);
                crate::text::between("RoomID '", number.as_str(), "' is not found")
            },
            SetRoomResponderError::BincodeError => String::from_str("Error serializing room data"),
            SetRoomResponderError::EncryptionError => String::from_str(
                "Error encrypting room data",
            ),
            SetRoomResponderError::DatabaseWriteError => String::from_str(
                "Failed to write to the database",
            ),
            SetRoomResponderError::InvalidSessionId(s) => {
                let shown = s.to_debug_string();
                crate::text::between("Session ", shown.as_str(), " does not exist.")
            },
            SetRoomResponderError::NotRoomCreator(u) => crate::text::between(
                "User \"",
                u.as_str(),
                "\" did not create this room and, as such, cannot set the responder.",
            ),
            SetRoomResponderError::NoSessionForUser(u) => crate::text::between("No session found for user ", u.as_str(), "."),
        }
    }
}

} // verus!
