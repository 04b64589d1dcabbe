//! Rooms: the rendezvous records that pair two users.
//!
//! A room is created with its identifier and its creator only. It is
//! completed once its sealed room data is written, which the store allows
//! only to a writer who names the room's creator. Rooms are never removed.
use crate::create_room::CreateRoomError;
use crate::encrypted::Encrypted;
use crate::join_room::JoinRoomError;
use crate::room_data::RoomData;
use crate::set_room_responder::SetRoomResponderError;
use crate::store::{bytes_attribute, first_index, first_match, lemma_attribute_push, lemma_first_index, lemma_first_index_is, lemma_first_index_none, number_attribute, text_attribute, AttributeValue, AttributeView, Item, PutOutcome};
use crate::text::{decimal, decimal_text, lemma_decimal_round_trip, parse_u16, parse_u16_text};
use crate::wire::Wire;
use vstd::prelude::*;

verus! {

/// A completed room.
#[derive(Debug)]
pub struct Room {
    /// The room's number, which the creator passes to the peer.
    pub room_id: u16,
    /// The user who created the room.
    pub creator_user_name: String,
    /// The peer's answer and the conversation's key, sealed for the creator.
    pub room_data: Encrypted<RoomData>,
}

/// A room as the table holds it: room data is absent until the room is
/// completed.
#[derive(Debug)]
struct RoomEntry {
    room_id: u16,
    creator_user_name: String,
    room_data: Option<Encrypted<RoomData>>,
}

/// A room as plain values; `room_data` is nonce and ciphertext.
pub struct RoomView {
    pub room_id: u16,
    pub creator_user_name: Seq<char>,
    pub room_data: Option<(Seq<u8>, Seq<u8>)>,
}

impl View for Room {
    type V = RoomView;

    open spec fn view(&self) -> RoomView {
        RoomView {
            room_id: self.room_id,
            creator_user_name: self.creator_user_name@,
            room_data: Some(self.room_data@),
        }
    }
}

impl View for RoomEntry {
    type V = RoomView;

    closed spec fn view(&self) -> RoomView {
        RoomView {
            room_id: self.room_id,
            creator_user_name: self.creator_user_name@,
            room_data: match self.room_data {
                Some(d) => Some(d@),
                None => None,
            },
        }
    }
}

/// The name of the attribute that holds a room's number.
pub const ROOM_ID_KEY: &'static str = "room_id";

/// The name of the attribute that holds a room's creator.
pub const ROOM_CREATOR_KEY: &'static str = "room_creator";

/// The name of the attribute that holds a room's sealed data.
pub const ROOM_DATA_KEY: &'static str = "room_data";

/// The name of the table that holds the rooms.
pub const TABLE_NAME: &'static str = "atris_rooms";

/// The view of a room that was found, or of none.
pub open spec fn found_room(found: Option<Room>) -> Option<RoomView> {
    match found {
        Some(r) => Some(r@),
        None => None,
    }
}

/// The completed room that a stored record holds: its number in decimal,
/// its sealed data as the bytes of a frame, its creator as text. A record
/// without room data holds no completed room.
pub open spec fn room_of_item(entries: Seq<(Seq<char>, AttributeView)>) -> Option<RoomView> {
    match number_attribute(entries, ROOM_ID_KEY@) {
        Some(number) => match parse_u16_text(number) {
            Some(room_id) => match bytes_attribute(entries, ROOM_DATA_KEY@) {
                Some(bytes) => match text_attribute(entries, ROOM_CREATOR_KEY@) {
                    Some(creator_user_name) => match Encrypted::<RoomData>::parse(bytes) {
                        Some((room_data, _)) => Some(
                            RoomView { room_id, creator_user_name, room_data: Some(room_data) },
                        ),
                        None => None,
                    },
                    None => None,
                },
                None => None,
            },
            None => None,
        },
        None => None,
    }
}

impl Room {
    /// Reads a completed room from a stored record.
    pub fn from_map(map: &Item) -> (r: Option<Self>)
        ensures
            found_room(r) == room_of_item(map.entries()),
    {
        let number = match map.get_n(ROOM_ID_KEY) {
            Some(n) => n,
            None => { return None; },
        };
        let room_id = match parse_u16(number.as_str()) {
            Some(id) => id,
            None => { return None; },
        };
        let room_data_slice = match map.get_b(ROOM_DATA_KEY) {
            Some(b) => b,
            None => { return None; },
        };
        let room_creator = match map.get_s(ROOM_CREATOR_KEY) {
            Some(s) => s,
            None => { return None; },
        };
        match Encrypted::<RoomData>::decode(room_data_slice.as_slice()) {
            Some(room_data) => Some(
                Room { room_id, room_data, creator_user_name: room_creator.clone() },
            ),
            None => None,
        }
    }

    /// The record under which this room is stored.
    pub fn to_item(&self) -> (r: Item)
        ensures
            r.entries() == seq![
                (ROOM_ID_KEY@, AttributeView::N(decimal_text(self.room_id as nat))),
                (ROOM_CREATOR_KEY@, AttributeView::S(self.creator_user_name@)),
                (ROOM_DATA_KEY@, AttributeView::B(Encrypted::<RoomData>::wire_of(self.room_data@))),
            ],
            room_of_item(r.entries()) == Some(self@),
    {
        let r = Item::new().item(ROOM_ID_KEY, AttributeValue::N(decimal(self.room_id))).item(
            ROOM_CREATOR_KEY,
            AttributeValue::S(self.creator_user_name.clone()),
        ).item(ROOM_DATA_KEY, AttributeValue::B(self.room_data.encode()));
        proof {
            reveal_strlit("room_id");
            reveal_strlit("room_creator");
            reveal_strlit("room_data");
            let e0 = Seq::<(Seq<char>, AttributeView)>::empty();
            let a = (ROOM_ID_KEY@, AttributeView::N(decimal_text(self.room_id as nat)));
            let b = (ROOM_CREATOR_KEY@, AttributeView::S(self.creator_user_name@));
            let frame = Encrypted::<RoomData>::wire_of(self.room_data@);
            let c = (ROOM_DATA_KEY@, AttributeView::B(frame));
            assert(r.entries() =~= seq![a, b, c]);
            assert(ROOM_ID_KEY@.len() == 7 && ROOM_CREATOR_KEY@.len() == 12 && ROOM_DATA_KEY@.len()
                == 9);
            lemma_attribute_push(e0, a.0, a.1, ROOM_ID_KEY@);
            lemma_attribute_push(e0, a.0, a.1, ROOM_CREATOR_KEY@);
            lemma_attribute_push(e0, a.0, a.1, ROOM_DATA_KEY@);
            lemma_attribute_push(e0.push(a), b.0, b.1, ROOM_ID_KEY@);
            lemma_attribute_push(e0.push(a), b.0, b.1, ROOM_CREATOR_KEY@);
            lemma_attribute_push(e0.push(a), b.0, b.1, ROOM_DATA_KEY@);
            lemma_attribute_push(e0.push(a).push(b), c.0, c.1, ROOM_ID_KEY@);
            lemma_attribute_push(e0.push(a).push(b), c.0, c.1, ROOM_CREATOR_KEY@);
            lemma_attribute_push(e0.push(a).push(b), c.0, c.1, ROOM_DATA_KEY@);
            assert(e0.push(a).push(b).push(c) =~= seq![a, b, c]);
            lemma_decimal_round_trip(self.room_id as nat);
            Encrypted::<RoomData>::lemma_round_trip(self.room_data@, Seq::empty());
            assert(frame + Seq::<u8>::empty() =~= frame);
        }
        r
    }
}

/// The room with number `room_id` among `records`.
pub open spec fn room_by_id(records: Seq<RoomView>, room_id: u16) -> Option<RoomView> {
    first_match(records, |r: RoomView| r.room_id == room_id)
}

/// Where the room with number `room_id` stands among `records`.
pub open spec fn room_position(records: Seq<RoomView>, room_id: u16) -> Option<int> {
    first_index(records, |r: RoomView| r.room_id == room_id)
}

/// No two of `records` share a number.
pub open spec fn distinct_room_ids(records: Seq<RoomView>) -> bool {
    forall|i: int, j: int|
        0 <= i < j < records.len() ==> (#[trigger] records[i]).room_id != (
        #[trigger] records[j]).room_id
}

/// The rooms after an attempt to create room `room_id` for `creator`: one
/// more, incomplete, where the number was free; else the same.
pub open spec fn rooms_after_create(records: Seq<RoomView>, room_id: u16, creator: Seq<char>) -> Seq<
    RoomView,
> {
    if room_by_id(records, room_id) is None {
        records.push(RoomView { room_id, creator_user_name: creator, room_data: None })
    } else {
        records
    }
}

/// Whether `updater` may write the room data of room `room_id`: the room
/// exists and `updater` is its creator.
pub open spec fn may_update(records: Seq<RoomView>, room_id: u16, updater: Seq<char>) -> bool {
    room_by_id(records, room_id) matches Some(room) && room.creator_user_name == updater
}

/// The rooms after an attempt by `updater` to write `room_data` into room
/// `room_id`: that room completed where `updater` may; else the same.
pub open spec fn rooms_after_update(
    records: Seq<RoomView>,
    room_id: u16,
    updater: Seq<char>,
    room_data: (Seq<u8>, Seq<u8>),
) -> Seq<RoomView> {
    if may_update(records, room_id, updater) {
        let i = room_position(records, room_id)->0;
        records.update(
            i,
            RoomView { room_id, creator_user_name: updater, room_data: Some(room_data) },
        )
    } else {
        records
    }
}

/// Creating a room under a free number keeps numbers distinct, and leaves
/// every earlier room as it was.
pub proof fn lemma_create_keeps_ids_distinct(records: Seq<RoomView>, room_id: u16, creator: Seq<char>)
    ensures
        distinct_room_ids(records) ==> distinct_room_ids(
            rooms_after_create(records, room_id, creator),
        ),
        forall|i: int|
            0 <= i < records.len() ==> rooms_after_create(records, room_id, creator)[i]
                == records[i],
{
    let p = |r: RoomView| r.room_id == room_id;
    lemma_first_index(records, p);
    let after = rooms_after_create(records, room_id, creator);
    if distinct_room_ids(records) && room_by_id(records, room_id) is None {
        assert forall|i: int, j: int| 0 <= i < j < after.len() implies (#[trigger] after[i]).room_id
            != (#[trigger] after[j]).room_id by {
            if j < records.len() {
                assert(after[i] == records[i] && after[j] == records[j]);
            } else {
                assert(after[i] == records[i]);
                assert(!p(records[i]));
            }
        }
    }
}

/// Writing room data changes no room's number or creator, and no other
/// room's data.
pub proof fn lemma_update_keeps_rooms(
    records: Seq<RoomView>,
    room_id: u16,
    updater: Seq<char>,
    room_data: (Seq<u8>, Seq<u8>),
)
    ensures
        rooms_after_update(records, room_id, updater, room_data).len() == records.len(),
        forall|i: int|
            #![trigger records[i]]
            0 <= i < records.len() ==> {
                let after = rooms_after_update(records, room_id, updater, room_data)[i];
                &&& after.room_id == records[i].room_id
                &&& after.creator_user_name == records[i].creator_user_name
                &&& records[i].room_id != room_id ==> after == records[i]
            },
        distinct_room_ids(records) ==> distinct_room_ids(
            rooms_after_update(records, room_id, updater, room_data),
        ),
{
    let p = |r: RoomView| r.room_id == room_id;
    lemma_first_index(records, p);
}

/// What creating a room returns, given how the store's put-if-absent ended.
pub fn create_room_outcome(put: PutOutcome, room_id: u16) -> (r: Result<(), CreateRoomError>)
    ensures
        match put {
            PutOutcome::Written => r is Ok,
            PutOutcome::ConditionFailed => r matches Err(CreateRoomError::DuplicateRoomId(i))
                && i == room_id,
            PutOutcome::Failed => r matches Err(CreateRoomError::DatabaseWriteError),
        },
{
    match put {
        PutOutcome::Written => Ok(()),
        PutOutcome::ConditionFailed => Err(CreateRoomError::DuplicateRoomId(room_id)),
        PutOutcome::Failed => Err(CreateRoomError::DatabaseWriteError),
    }
}

/// What writing room data returns, given how the store's conditional update
/// ended.
pub fn update_room_data_outcome(put: PutOutcome, updater: String) -> (r: Result<
    (),
    SetRoomResponderError,
>)
    ensures
        match put {
            PutOutcome::Written => r is Ok,
            PutOutcome::ConditionFailed => r matches Err(SetRoomResponderError::NotRoomCreator(u))
                && u == updater,
            PutOutcome::Failed => r matches Err(SetRoomResponderError::DatabaseWriteError),
        },
{
    match put {
        PutOutcome::Written => Ok(()),
        PutOutcome::ConditionFailed => Err(SetRoomResponderError::NotRoomCreator(updater)),
        PutOutcome::Failed => Err(SetRoomResponderError::DatabaseWriteError),
    }
}

/// What reading a room returns, given what the store found: nothing, a room
/// without room data, or a completed room.
pub fn get_room_outcome(found: Option<(String, Option<Encrypted<RoomData>>)>, room_id: u16) -> (r:
    Result<Room, JoinRoomError>)
    ensures
        match found {
            None => r matches Err(JoinRoomError::NonexistentRoomId(i)) && i == room_id,
            Some((_, None)) => r matches Err(JoinRoomError::IncompleteRoom),
            Some((creator, Some(data))) => r matches Ok(room) && room.room_id == room_id
                && room.creator_user_name == creator && room.room_data == data,
        },
{
    match found {
        None => Err(JoinRoomError::NonexistentRoomId(room_id)),
        Some((_, None)) => Err(JoinRoomError::IncompleteRoom),
        Some((creator_user_name, Some(room_data))) => Ok(
            Room { room_id, creator_user_name, room_data },
        ),
    }
}

/// The record under which a new room is stored: its number and its
/// creator, and no room data yet.
pub fn room_item(room_id: u16, creator: String) -> (r: Item)
    ensures
        r.entries() == seq![
            (ROOM_ID_KEY@, AttributeView::N(decimal_text(room_id as nat))),
            (ROOM_CREATOR_KEY@, AttributeView::S(creator@)),
        ],
        room_of_item(r.entries()) is None,
{
    let r = Item::new().item(ROOM_ID_KEY, AttributeValue::N(decimal(room_id))).item(
        ROOM_CREATOR_KEY,
        AttributeValue::S(creator),
    );
    proof {
        reveal_strlit("room_id");
        reveal_strlit("room_creator");
        reveal_strlit("room_data");
        let e0 = Seq::<(Seq<char>, AttributeView)>::empty();
        let a = (ROOM_ID_KEY@, AttributeView::N(decimal_text(room_id as nat)));
        let b = (ROOM_CREATOR_KEY@, AttributeView::S(creator@));
        assert(r.entries() =~= seq![a, b]);
        assert(ROOM_ID_KEY@.len() == 7 && ROOM_CREATOR_KEY@.len() == 12 && ROOM_DATA_KEY@.len() == 9);
        lemma_attribute_push(e0, a.0, a.1, ROOM_DATA_KEY@);
        lemma_attribute_push(e0.push(a), b.0, b.1, ROOM_DATA_KEY@);
        assert(e0.push(a).push(b) =~= seq![a, b]);
    }
    r
}

/// What reading a room returns, given the record that the store found under
/// the room's number, if any.
pub fn room_from_item(found: Option<Item>, room_id: u16) -> (r: Result<Room, JoinRoomError>)
    ensures
        match found {
            None => r matches Err(JoinRoomError::NonexistentRoomId(i)) && i == room_id,
            Some(item) => match room_of_item(item.entries()) {
                None => r matches Err(JoinRoomError::IncompleteRoom),
                Some(room) => r matches Ok(read) && read@ == room,
            },
        },
{
    match found {
        None => Err(JoinRoomError::NonexistentRoomId(room_id)),
        Some(item) => match Room::from_map(&item) {
            None => Err(JoinRoomError::IncompleteRoom),
            Some(room) => Ok(room),
        },
    }
}

/// The room table, held in memory.
#[derive(Debug)]
pub struct AtrisRoomDBClient {
    rooms: Vec<RoomEntry>,
}

impl AtrisRoomDBClient {
    /// The rooms in the table, oldest first.
    pub closed spec fn records(&self) -> Seq<RoomView> {
        self.rooms@.map_values(|r: RoomEntry| r@)
    }

    /// An empty table.
    pub fn new() -> (r: Self)
        ensures
            r.records() == Seq::<RoomView>::empty(),
    {
        let r = AtrisRoomDBClient { rooms: Vec::new() };
        assert(r.records() =~= Seq::<RoomView>::empty());
        r
    }

    /// How many rooms the table holds.
    pub fn len(&self) -> (r: usize)
        ensures
            r == self.records().len(),
    {
        self.rooms.len()
    }

    /// The position of the room with number `room_id`, if there is one.
    fn position_of(&self, room_id: u16) -> (r: Option<usize>)
        ensures
            match r {
                Some(i) => i < self.rooms@.len() && room_position(self.records(), room_id) == Some(
                    i as int,
                ) && room_by_id(self.records(), room_id) == Some(self.rooms@[i as int]@)
                    && self.rooms@[i as int].room_id == room_id,
                None => room_position(self.records(), room_id) is None && room_by_id(
                    self.records(),
                    room_id,
                ) is None,
            },
    {
        let ghost p = |r: RoomView| r.room_id == room_id;
        let mut i: usize = 0;
        while i < self.rooms.len()
            invariant
                i <= self.rooms@.len(),
                p == (|r: RoomView| r.room_id == room_id),
                forall|j: int| 0 <= j < i ==> !p(#[trigger] self.records()[j]),
            decreases self.rooms@.len() - i,
        {
            if self.rooms[i].room_id == room_id {
                proof {
                    lemma_first_index_is(self.records(), p, i as int);
                }
                return Some(i);
            }
            i += 1;
        }
        proof {
            lemma_first_index_none(self.records(), p);
        }
        None
    }

    /// Creates an incomplete room unless the number is taken.
    ///
    /// Succeeds exactly where the number is free, and then appends the room.
    /// Where it is taken, the table stays as it was and the error carries the
    /// number back.
    pub fn create_room(&mut self, room_id: u16, creator: String) -> (r: Result<(), CreateRoomError>)
        ensures
            final(self).records() == rooms_after_create(old(self).records(), room_id, creator@),
            match room_by_id(old(self).records(), room_id) {
                None => r is Ok,
                Some(_) => r matches Err(CreateRoomError::DuplicateRoomId(i)) && i == room_id,
            },
    {
        let ghost before = self.records();
        let put = match self.position_of(room_id) {
            Some(_) => PutOutcome::ConditionFailed,
            None => {
                let entry = RoomEntry { room_id, creator_user_name: creator, room_data: None };
                assert(before.push(entry@) =~= self.rooms@.push(entry).map_values(
                    |r: RoomEntry| r@,
                ));
                self.rooms.push(entry);
                PutOutcome::Written
            },
        };
        create_room_outcome(put, room_id)
    }

    /// Writes the room data of a room, on condition that `updater` is the
    /// room's creator.
    ///
    /// Succeeds exactly where the room exists and `updater` created it, and
    /// then completes that room. In every other case the table stays as it
    /// was and the error carries `updater` back.
    pub fn update_room_data(&mut self, room_id: u16, updater: String, room_data: Encrypted<RoomData>) -> (r:
        Result<(), SetRoomResponderError>)
        ensures
            final(self).records() == rooms_after_update(
                old(self).records(),
                room_id,
                updater@,
                room_data@,
            ),
            if may_update(old(self).records(), room_id, updater@) {
                r is Ok
            } else {
                r matches Err(SetRoomResponderError::NotRoomCreator(u)) && u == updater
            },
    {
        let ghost before = self.records();
        let put = match self.position_of(room_id) {
            None => PutOutcome::ConditionFailed,
            Some(i) => {
                if self.rooms[i].creator_user_name == updater {
                    let entry = RoomEntry {
                        room_id,
                        creator_user_name: updater.clone(),
                        room_data: Some(room_data),
                    };
                    assert(before.update(i as int, entry@) =~= self.rooms@.update(
                        i as int,
                        entry,
                    ).map_values(|r: RoomEntry| r@));
                    self.rooms.set(i, entry);
                    PutOutcome::Written
                } else {
                    PutOutcome::ConditionFailed
                }
            },
        };
        update_room_data_outcome(put, updater)
    }

    /// The completed room with this number.
    ///
    /// Fails with `NonexistentRoomId` where no room has the number and with
    /// `IncompleteRoom` where the room has no room data yet.
    pub fn get_room(&self, room_id: u16) -> (r: Result<Room, JoinRoomError>)
        ensures
            match room_by_id(self.records(), room_id) {
                None => r matches Err(JoinRoomError::NonexistentRoomId(i)) && i == room_id,
                Some(room) => match room.room_data {
                    None => r matches Err(JoinRoomError::IncompleteRoom),
                    Some(_) => r matches Ok(found) && found@ == room,
                },
            },
    {
        let found = match self.position_of(room_id) {
            None => None,
            Some(i) => {
                let entry = &self.rooms[i];
                assert(entry@ == self.records()[i as int]);
                assert(entry.room_id == room_id);
                let data = match &entry.room_data {
                    Some(d) => {
                        let copy = d.clone();
                        assert(copy@ == d@);
                        Some(copy)
                    },
                    None => None,
                };
                assert(data is Some <==> entry@.room_data is Some);
                Some((entry.creator_user_name.clone(), data))
            },
        };
        get_room_outcome(found, room_id)
    }
}

} // verus!
