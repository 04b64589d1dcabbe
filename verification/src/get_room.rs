//! Reading a room's sealed data.
use crate::encrypted::Encrypted;
use crate::key::CipherKey;
use crate::room_data::RoomData;
use vstd::prelude::*;
use vstd::string::StringExecFns;

verus! {

/// A request for the sealed data of a room.
#[derive(Debug)]
pub struct GetRoomRequest {
    /// The caller's session.
    pub session_id: CipherKey,
    /// The room to read.
    pub room_id: u16,
}

/// The sealed data of the room, as stored.
#[derive(Debug)]
pub struct GetRoomResponse {
    pub room_data: Encrypted<RoomData>,
}

/// Why a room could not be read.
#[derive(Debug, Clone, Copy, PartialEq, Eq, Structural)]
pub enum GetRoomError {
    /// No room has this number.
    NonexistentRoomId(u16),
    /// The store failed while reading.
    DatabaseReadError,
}

impl GetRoomError {
    /// What a user is told, word for word.
    pub open spec fn message_text(&self) -> Seq<char> {
        match self {
            GetRoomError::NonexistentRoomId(room_id) => "RoomID '"@ + crate::text::decimal_text(*room_id as nat)
                + "' does not exist"@,
            GetRoomError::DatabaseReadError => "Failed to read from the database"@,
        }
    }

    /// What a user is told.
    pub fn message(&self) -> (r: String)
        ensures
            r@ == self.message_text(),
    {
        match self {
            GetRoomError::NonexistentRoomId(room_id) => {
                let number = crate::text::decimal(*room_id);
                crate::text::between("RoomID '", number.as_str(), "' does not exist")
            },
            GetRoomError::DatabaseReadError => String::from_str("Failed to read from the database"),
        }
    }
}

} // verus!
