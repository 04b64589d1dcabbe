//! Creating a room: the first step of the rendezvous.
use crate::key::CipherKey;
use crate::room_table::{room_by_id, rooms_after_create, distinct_room_ids, lemma_create_keeps_ids_distinct, AtrisRoomDBClient, RoomView};
use crate::session_table::{session_by_id, session_by_username, AtrisSessionDBClient, Session, SessionView};
use crate::store::lemma_first_index;
use vstd::prelude::*;
use vstd::string::StringExecFns;

verus! {

/// A request to open a room with another user.
#[derive(Debug)]
pub struct CreateRoomRequest {
    /// The requester's session.
    pub session_id: CipherKey,
    /// The user to talk to.
    pub other_user_name: String,
}

/// A room was created.
#[derive(Debug)]
pub struct CreateRoomResponse {
    /// The number of the new room.
    pub room_id: u16,
    /// The other user's transport offer, as stored at their login.
    pub initiator_string: String,
}

/// Why no room was created.
#[derive(Debug)]
pub enum CreateRoomError {
    /// Room data could not be encoded.
    BincodeError,
    /// Room data could not be sealed.
    EncryptionError,
    /// The number is taken by another room.
    DuplicateRoomId(u16),
    /// The store failed while writing.
    DatabaseWriteError,
    /// The requester's session does not exist.
    InvalidSessionId(CipherKey),
    /// The other user has no session.
    NoSessionForUser(String),
}

/// A response as plain values.
pub struct CreateRoomResponseView {
    pub room_id: u16,
    pub initiator_string: Seq<char>,
}

/// An error as plain values.
pub enum CreateRoomErrorView {
    BincodeError,
    EncryptionError,
    DuplicateRoomId(u16),
    DatabaseWriteError,
    InvalidSessionId(Seq<u8>),
    NoSessionForUser(Seq<char>),
}

impl View for CreateRoomResponse {
    type V = CreateRoomResponseView;

    open spec fn view(&self) -> CreateRoomResponseView {
        CreateRoomResponseView { room_id: self.room_id, initiator_string: self.initiator_string@ }
    }
}

impl View for CreateRoomError {
    type V = CreateRoomErrorView;

    open spec fn view(&self) -> CreateRoomErrorView {
        match self {
            CreateRoomError::BincodeError => CreateRoomErrorView::BincodeError,
            CreateRoomError::EncryptionError => CreateRoomErrorView::EncryptionError,
            CreateRoomError::DuplicateRoomId(i) => CreateRoomErrorView::DuplicateRoomId(*i),
            CreateRoomError::DatabaseWriteError => CreateRoomErrorView::DatabaseWriteError,
            CreateRoomError::InvalidSessionId(k) => CreateRoomErrorView::InvalidSessionId(k@),
            CreateRoomError::NoSessionForUser(u) => CreateRoomErrorView::NoSessionForUser(u@),
        }
    }
}

/// How often [`create_room`] draws a number before it takes the lowest
/// free one.
pub const ROOM_ID_ATTEMPTS: u32 = 65536;

/// The view of what a handler returned.
pub open spec fn create_room_result(r: Result<CreateRoomResponse, CreateRoomError>) -> Result<
    CreateRoomResponseView,
    CreateRoomErrorView,
> {
    match r {
        Ok(response) => Ok(response@),
        Err(e) => Err(e@),
    }
}

/// What the two session lookups allow: the creator's name and the other
/// user's transport offer, or the error of the first lookup that found
/// nothing.
pub open spec fn create_room_plan(
    sessions: Seq<SessionView>,
    session_id: Seq<u8>,
    other_user_name: Seq<char>,
) -> Result<(Seq<char>, Seq<char>), CreateRoomErrorView> {
    match session_by_id(sessions, session_id) {
        None => Err(CreateRoomErrorView::InvalidSessionId(session_id)),
        Some(requester) => match session_by_username(sessions, other_user_name) {
            None => Err(CreateRoomErrorView::NoSessionForUser(other_user_name)),
            Some(other) => Ok((requester.username, other.initiator)),
        },
    }
}

/// What creating a room under the number `potential_id` returns.
pub open spec fn create_room_spec(
    sessions: Seq<SessionView>,
    rooms: Seq<RoomView>,
    session_id: Seq<u8>,
    other_user_name: Seq<char>,
    potential_id: u16,
) -> Result<CreateRoomResponseView, CreateRoomErrorView> {
    match create_room_plan(sessions, session_id, other_user_name) {
        Err(e) => Err(e),
        Ok((_, initiator_string)) => if room_by_id(rooms, potential_id) is Some {
            Err(CreateRoomErrorView::DuplicateRoomId(potential_id))
        } else {
            Ok(CreateRoomResponseView { room_id: potential_id, initiator_string })
        },
    }
}

/// The rooms after an attempt to create a room under `potential_id`.
pub open spec fn rooms_after_create_room(
    sessions: Seq<SessionView>,
    rooms: Seq<RoomView>,
    session_id: Seq<u8>,
    other_user_name: Seq<char>,
    potential_id: u16,
) -> Seq<RoomView> {
    match create_room_plan(sessions, session_id, other_user_name) {
        Err(_) => rooms,
        Ok((creator, _)) => rooms_after_create(rooms, potential_id, creator),
    }
}

/// Decides from the two session lookups whether a room may be created, and
/// for whom.
///
/// `requester` is what the lookup of the request's session found, `other`
/// what the lookup of the other user's name found. Returns the creator's
/// name and the other user's transport offer.
pub fn create_room_check(requester: Option<Session>, other: Option<Session>, request: CreateRoomRequest) -> (r:
    Result<(String, String), CreateRoomError>)
    ensures
        match requester {
            None => r matches Err(CreateRoomError::InvalidSessionId(k)) && k
                == request.session_id,
            Some(a) => match other {
                None => r matches Err(CreateRoomError::NoSessionForUser(u)) && u
                    == request.other_user_name,
                Some(b) => r matches Ok((creator, offer)) && creator == a.username && offer
                    == b.initiator,
            },
        },
{
    match requester {
        None => Err(CreateRoomError::InvalidSessionId(request.session_id)),
        Some(a) => match other {
            None => Err(CreateRoomError::NoSessionForUser(request.other_user_name)),
            Some(b) => Ok((a.username, b.initiator)),
        },
    }
}

/// Looks up the requester and the other user.
fn plan(sessions: &AtrisSessionDBClient, request: CreateRoomRequest) -> (r: Result<
    (String, String),
    CreateRoomError,
>)
    ensures
        match create_room_plan(sessions.records(), request.session_id@, request.other_user_name@) {
            Ok((creator, offer)) => r matches Ok((c, o)) && c@ == creator && o@ == offer,
            Err(e) => r matches Err(f) && f@ == e,
        },
{
    let requester = match sessions.get_session(request.session_id.clone()) {
        Ok(found) => found,
        Err(_) => None,
    };
    let other = match sessions.get_session_for_username(request.other_user_name.clone()) {
        Ok(found) => found,
        Err(_) => None,
    };
    create_room_check(requester, other, request)
}

/// Creates a room under the number `potential_id`.
///
/// Fails with `InvalidSessionId` where the request's session does not exist,
/// else with `NoSessionForUser` where the other user has no session, else
/// with `DuplicateRoomId` where the number is taken. Otherwise an incomplete
/// room of the requester is appended, and the response carries the number
/// and the other user's transport offer. On every failure the rooms stay as
/// they were.
pub fn create_room_with_id(
    sessions: &AtrisSessionDBClient,
    rooms: &mut AtrisRoomDBClient,
    request: CreateRoomRequest,
    potential_id: u16,
) -> (r: Result<CreateRoomResponse, CreateRoomError>)
    ensures
        create_room_result(r) == create_room_spec(
            sessions.records(),
            old(rooms).records(),
            request.session_id@,
            request.other_user_name@,
            potential_id,
        ),
        final(rooms).records() == rooms_after_create_room(
            sessions.records(),
            old(rooms).records(),
            request.session_id@,
            request.other_user_name@,
            potential_id,
        ),
        r is Err ==> final(rooms).records() == old(rooms).records(),
{
    let (creator, initiator_string) = match plan(sessions, request) {
        Err(e) => { return Err(e); },
        Ok(found) => found,
    };
    match rooms.create_room(potential_id, creator) {
        Ok(()) => Ok(CreateRoomResponse { room_id: potential_id, initiator_string }),
        Err(e) => Err(e),
    }
}

/// What an attempt to create a room under a drawn number comes to.
#[derive(Debug)]
pub enum RoomAllocation {
    /// The room was created.
    Created(CreateRoomResponse),
    /// The number is taken: draw another.
    Retry,
    /// The store failed.
    Failed(CreateRoomError),
}

/// Decides what an attempt comes to, given what the store made of it: a
/// taken number calls for another draw, any other failure is final.
pub fn allocation(put: Result<(), CreateRoomError>, potential_id: u16, initiator_string: String) -> (r:
    RoomAllocation)
    ensures
        match put {
            Ok(_) => r matches RoomAllocation::Created(response) && response.room_id == potential_id
                && response.initiator_string == initiator_string,
            Err(CreateRoomError::DuplicateRoomId(_)) => r is Retry,
            Err(e) => r matches RoomAllocation::Failed(f) && f == e,
        },
{
    match put {
        Ok(()) => RoomAllocation::Created(
            CreateRoomResponse { room_id: potential_id, initiator_string },
        ),
        Err(CreateRoomError::DuplicateRoomId(_)) => RoomAllocation::Retry,
        Err(e) => RoomAllocation::Failed(e),
    }
}

/// Draws a room number with `rand::random`. Nothing is claimed of the number
/// drawn.
#[verifier::external_body]
fn random_room_id() -> (r: u16) {
    rand::random()
}

/// Creates a room for `creator` under the lowest number that is free.
///
/// Fails, with `DuplicateRoomId`, only where every number is taken; the
/// rooms then stay as they were.
pub fn create_room_in_lowest_free(rooms: &mut AtrisRoomDBClient, creator: String, initiator_string: String) -> (r:
    Result<CreateRoomResponse, CreateRoomError>)
    ensures
        match r {
            Ok(response) => {
                &&& room_by_id(old(rooms).records(), response.room_id) is None
                &&& forall|id: u16|
                    id < response.room_id ==> #[trigger] room_by_id(old(rooms).records(), id)
                        is Some
                &&& final(rooms).records() == rooms_after_create(
                    old(rooms).records(),
                    response.room_id,
                    creator@,
                )
                &&& response.initiator_string == initiator_string
            },
            Err(e) => {
                &&& e is DuplicateRoomId
                &&& forall|id: u16| #[trigger] room_by_id(old(rooms).records(), id) is Some
                &&& final(rooms).records() == old(rooms).records()
            },
        },
{
    let mut candidate: u16 = 0;
    loop
        invariant
            rooms.records() == old(rooms).records(),
            forall|id: u16| id < candidate ==> #[trigger] room_by_id(old(rooms).records(), id) is Some,
        decreases u16::MAX - candidate,
    {
        let put = rooms.create_room(candidate, creator.clone());
        match allocation(put, candidate, initiator_string.clone()) {
            RoomAllocation::Created(response) => {
                return Ok(response);
            },
            RoomAllocation::Failed(e) => {
                return Err(e);
            },
            RoomAllocation::Retry => {
                if candidate == u16::MAX {
                    return Err(CreateRoomError::DuplicateRoomId(candidate));
                }
            },
        }
        candidate += 1;
    }
}

/// Creates a room under a fresh random number.
///
/// Numbers are drawn until one is free, at most [`ROOM_ID_ATTEMPTS`] times;
/// after that many taken draws the lowest free number is used. Whatever is
/// drawn: the session errors come exactly as in [`create_room_with_id`]; a
/// success is a success of [`create_room_with_id`] for the number returned,
/// so the number was free and the room is the only change; and with both
/// sessions found the call fails, with `DuplicateRoomId`, only where every
/// number is taken.
pub fn create_room(sessions: &AtrisSessionDBClient, rooms: &mut AtrisRoomDBClient, request: CreateRoomRequest) -> (r:
    Result<CreateRoomResponse, CreateRoomError>)
    ensures
        match create_room_plan(sessions.records(), request.session_id@, request.other_user_name@) {
            Err(e) => create_room_result(r) == Err::<CreateRoomResponseView, CreateRoomErrorView>(e)
                && final(rooms).records() == old(rooms).records(),
            Ok(_) => match r {
                Ok(response) => {
                    &&& create_room_result(r) == create_room_spec(
                        sessions.records(),
                        old(rooms).records(),
                        request.session_id@,
                        request.other_user_name@,
                        response.room_id,
                    )
                    &&& final(rooms).records() == rooms_after_create_room(
                        sessions.records(),
                        old(rooms).records(),
                        request.session_id@,
                        request.other_user_name@,
                        response.room_id,
                    )
                },
                Err(e) => {
                    &&& e is DuplicateRoomId
                    &&& forall|id: u16| #[trigger] room_by_id(old(rooms).records(), id) is Some
                    &&& final(rooms).records() == old(rooms).records()
                },
            },
        },
{
    let ghost wanted = create_room_plan(
        sessions.records(),
        request.session_id@,
        request.other_user_name@,
    );
    let (creator, initiator_string) = match plan(sessions, request) {
        Err(e) => { return Err(e); },
        Ok(found) => found,
    };
    let mut attempts: u32 = 0;
    while attempts < ROOM_ID_ATTEMPTS
        invariant
            attempts <= ROOM_ID_ATTEMPTS,
            rooms.records() == old(rooms).records(),
            wanted == create_room_plan(
                sessions.records(),
                request.session_id@,
                request.other_user_name@,
            ),
            wanted == Ok::<(Seq<char>, Seq<char>), CreateRoomErrorView>(
                (creator@, initiator_string@),
            ),
        decreases ROOM_ID_ATTEMPTS - attempts,
    {
        let potential_id = random_room_id();
        let put = rooms.create_room(potential_id, creator.clone());
        match allocation(put, potential_id, initiator_string.clone()) {
            RoomAllocation::Created(response) => {
                return Ok(response);
            },
            RoomAllocation::Failed(e) => {
                return Err(e);
            },
            RoomAllocation::Retry => {},
        }
        attempts += 1;
    }
    create_room_in_lowest_free(rooms, creator, initiator_string)
}

/// Two rooms created one after the other never share a number: the second
/// creation fails on the first one's number.
pub proof fn lemma_created_rooms_differ(
    sessions: Seq<SessionView>,
    later_sessions: Seq<SessionView>,
    rooms: Seq<RoomView>,
    first: (Seq<u8>, Seq<char>, u16),
    second: (Seq<u8>, Seq<char>, u16),
)
    requires
        create_room_spec(sessions, rooms, first.0, first.1, first.2) is Ok,
        create_room_spec(
            later_sessions,
            rooms_after_create_room(sessions, rooms, first.0, first.1, first.2),
            second.0,
            second.1,
            second.2,
        ) is Ok,
    ensures
        first.2 != second.2,
{
    let p = |r: RoomView| r.room_id == second.2;
    let after = rooms_after_create_room(sessions, rooms, first.0, first.1, first.2);
    lemma_first_index(after, p);
    assert(after[rooms.len() as int].room_id == first.2);
}

/// Creating a room keeps room numbers distinct, changes no earlier room, and
/// on success adds exactly one room, under a number that was free.
pub proof fn lemma_create_room_keeps_rooms(
    sessions: Seq<SessionView>,
    rooms: Seq<RoomView>,
    session_id: Seq<u8>,
    other_user_name: Seq<char>,
    potential_id: u16,
)
    ensures
        ({
            let after = rooms_after_create_room(
                sessions,
                rooms,
                session_id,
                other_user_name,
                potential_id,
            );
            let outcome = create_room_spec(sessions, rooms, session_id, other_user_name, potential_id);
            &&& distinct_room_ids(rooms) ==> distinct_room_ids(after)
            &&& forall|i: int| 0 <= i < rooms.len() ==> after[i] == rooms[i]
            &&& outcome is Err ==> after == rooms
            &&& outcome is Ok ==> room_by_id(rooms, potential_id) is None && after.len()
                == rooms.len() + 1 && after.last().room_id == potential_id
                && after.last().room_data is None
        }),
{
    match create_room_plan(sessions, session_id, other_user_name) {
        Err(_) => {},
        Ok((creator, _)) => {
            lemma_create_keeps_ids_distinct(rooms, potential_id, creator);
        },
    }
}

impl CreateRoomError {
    /// What a user is told, word for word.
    pub open spec fn message_text(&self) -> Seq<char> {
        match self {
            CreateRoomError::DuplicateRoomId(room_id) => "RoomID '"@ + crate::text::decimal_text(*room_id as nat)
                + "' is already taken"@,
            CreateRoomError::BincodeError => "Error serializing room data"@,
            CreateRoomError::EncryptionError => "Error encrypting room data"@,
            CreateRoomError::DatabaseWriteError => "Failed to write to the database"@,
            CreateRoomError::InvalidSessionId(s) => "Session "@ + CipherKey::debug_text(s@)
                + " does not exist."@,
            CreateRoomError::NoSessionForUser(u) => "No session found for user "@ + u@ + "."@,
        }
    }

    /// What a user is told.
    pub fn message(&self) -> (r: String)
        ensures
            r@ == self.message_text(),
    {
        match self {
            CreateRoomError::DuplicateRoomId(room_id) => {
                let number = crate::text::decimal(*room_id);
                crate::text::between("RoomID '", number.as_str(), "' is already taken")
            },
            CreateRoomError::BincodeError => String::from_str("Error serializing room data"),
            CreateRoomError::EncryptionError => String::from_str("Error encrypting room data"),
            CreateRoomError::DatabaseWriteError => String::from_str(
                "Failed to write to the database",
            ),
            CreateRoomError::InvalidSessionId(s) => {
                let shown = s.to_debug_string();
                crate::text::between("Session ", shown.as_str(), " does not exist.")
            },
            CreateRoomError::NoSessionForUser(u) => crate::text::between("No session found for user ", u.as_str(), "."),
        }
    }
}

} // verus!
