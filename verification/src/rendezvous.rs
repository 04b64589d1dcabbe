//! The life of a room, across the server's functions.
//!
//! A room is created incomplete, completed by a caller who names its
//! creator, and then handed out, sealed, to whoever joins. Each function
//! states its own step; here is what holds from one step to the next.
use crate::create_room::{create_room_plan, create_room_spec, rooms_after_create_room};
use crate::encrypted::{sealable, sealed};
use crate::join_room::{join_room_spec, JoinRoomErrorView};
use crate::room_table::{room_position, RoomView};
use crate::session_table::{session_by_id, session_by_username, SessionView};
use crate::set_room_responder::{room_payload, rooms_after_set_room_responder, set_room_responder_spec, SetRoomResponderErrorView};
use crate::store::{lemma_first_index, lemma_first_index_is, lemma_first_match_push};
use vstd::prelude::*;

verus! {

/// A room that was just created is incomplete: joining it says so.
pub proof fn lemma_join_before_completion(
    sessions: Seq<SessionView>,
    rooms: Seq<RoomView>,
    creator_session: Seq<u8>,
    other_user_name: Seq<char>,
    room_id: u16,
    asker: Seq<u8>,
)
    requires
        create_room_spec(sessions, rooms, creator_session, other_user_name, room_id) is Ok,
        session_by_id(sessions, asker) is Some,
    ensures
        join_room_spec(
            sessions,
            rooms_after_create_room(sessions, rooms, creator_session, other_user_name, room_id),
            asker,
            room_id,
        ) == Err::<(Seq<u8>, Seq<u8>), JoinRoomErrorView>(JoinRoomErrorView::IncompleteRoom),
{
    let creator = create_room_plan(sessions, creator_session, other_user_name)->Ok_0.0;
    lemma_first_match_push(
        rooms,
        RoomView { room_id, creator_user_name: creator, room_data: None },
        |r: RoomView| r.room_id == room_id,
    );
}

/// A room that was just completed hands out exactly what was sealed into
/// it, under the creator's session identifier, to whoever joins.
pub proof fn lemma_join_after_completion(
    sessions: Seq<SessionView>,
    rooms: Seq<RoomView>,
    caller_session: Seq<u8>,
    room_id: u16,
    creator_name: Seq<char>,
    responder_string: Seq<char>,
    room_key: Seq<u8>,
    nonce: Seq<u8>,
    asker: Seq<u8>,
)
    requires
        set_room_responder_spec(
            sessions,
            rooms,
            caller_session,
            room_id,
            creator_name,
            responder_string,
            room_key,
        ) is Ok,
        session_by_id(sessions, asker) is Some,
    ensures
        join_room_spec(
            sessions,
            rooms_after_set_room_responder(
                sessions,
                rooms,
                caller_session,
                room_id,
                creator_name,
                responder_string,
                room_key,
                nonce,
            ),
            asker,
            room_id,
        ) == Ok::<(Seq<u8>, Seq<u8>), JoinRoomErrorView>(
            (
                nonce,
                sealed(
                    session_by_username(sessions, creator_name)->0.session_id,
                    nonce,
                    room_payload(responder_string, room_key),
                ),
            ),
        ),
{
    let p = |r: RoomView| r.room_id == room_id;
    let after = rooms_after_set_room_responder(
        sessions,
        rooms,
        caller_session,
        room_id,
        creator_name,
        responder_string,
        room_key,
        nonce,
    );
    lemma_first_index(rooms, p);
    let i = room_position(rooms, room_id)->0;
    assert forall|j: int| 0 <= j < i implies !p(#[trigger] after[j]) by {
        assert(after[j] == rooms[j]);
    }
    lemma_first_index_is(after, p, i);
}

/// A room can be completed once it is created: after a user created a
/// room, a caller with a live session who names that user completes it,
/// provided the answer is short enough to be sealed.
pub proof fn lemma_created_room_can_be_completed(
    sessions: Seq<SessionView>,
    rooms: Seq<RoomView>,
    creator_session: Seq<u8>,
    other_user_name: Seq<char>,
    room_id: u16,
    caller_session: Seq<u8>,
    responder_string: Seq<char>,
    room_key: Seq<u8>,
)
    requires
        create_room_spec(sessions, rooms, creator_session, other_user_name, room_id) is Ok,
        session_by_id(sessions, caller_session) is Some,
        sealable(room_payload(responder_string, room_key).len()),
    ensures
        set_room_responder_spec(
            sessions,
            rooms_after_create_room(sessions, rooms, creator_session, other_user_name, room_id),
            caller_session,
            room_id,
            session_by_id(sessions, creator_session)->0.username,
            responder_string,
            room_key,
        ) == Ok::<Seq<u8>, SetRoomResponderErrorView>(room_key),
{
    let creator = session_by_id(sessions, creator_session)->0;
    lemma_first_index(sessions, |s: SessionView| s.session_id == creator_session);
    let by_name = |s: SessionView| s.username == creator.username;
    lemma_first_index(sessions, by_name);
    lemma_first_match_push(
        rooms,
        RoomView { room_id, creator_user_name: creator.username, room_data: None },
        |r: RoomView| r.room_id == room_id,
    );
}

} // verus!
