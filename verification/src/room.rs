//! Room records and their lifecycle status.

use vstd::prelude::*;

verus! {

/// The stored status flag of a room. Availability for a concrete interval
/// is derived from the bookings, not from this flag; the flag mirrors the
/// most recent lifecycle event (booked on a successful reservation,
/// available again once no blocking reservation remains).
#[derive(Clone, Copy, Debug, PartialEq, Eq, Structural)]
pub enum RoomStatus {
    Available,
    Booked,
}

impl RoomStatus {
    /// The display name of the status.
    pub fn as_str(&self) -> (r: &'static str)
        ensures
            *self == RoomStatus::Available ==> r@ == "available"@,
            *self == RoomStatus::Booked ==> r@ == "booked"@,
    {
        match self {
            RoomStatus::Available => "available",
            RoomStatus::Booked => "booked",
        }
    }
}

/// The bytes of the status names as they travel over the wire, spelling
/// `available` and `booked`.
pub open spec fn available_status_bytes() -> Seq<u8> {
    seq![97u8, 118u8, 97u8, 105u8, 108u8, 97u8, 98u8, 108u8, 101u8]
}

pub open spec fn booked_status_bytes() -> Seq<u8> {
    seq![98u8, 111u8, 111u8, 107u8, 101u8, 100u8]
}

/// Reads a status out of its wire name. Status is a closed set of
/// variants; an unknown name is rejected at this boundary instead of
/// travelling through the system as free text.
pub fn parse_room_status(bytes: &[u8]) -> (r: Option<RoomStatus>)
    ensures
        r == Some(RoomStatus::Available) <==> bytes@ == available_status_bytes(),
        r == Some(RoomStatus::Booked) <==> bytes@ == booked_status_bytes(),
        r is None <==> bytes@ != available_status_bytes() && bytes@ != booked_status_bytes(),
{
    if bytes.len() == 9 && bytes[0] == 97 && bytes[1] == 118 && bytes[2] == 97 && bytes[3] == 105
        && bytes[4] == 108 && bytes[5] == 97 && bytes[6] == 98 && bytes[7] == 108 && bytes[8]
        == 101 {
        proof {
            assert(bytes@ =~= available_status_bytes());
        }
        Some(RoomStatus::Available)
    } else if bytes.len() == 6 && bytes[0] == 98 && bytes[1] == 111 && bytes[2] == 111 && bytes[3]
        == 107 && bytes[4] == 101 && bytes[5] == 100 {
        proof {
            assert(bytes@ =~= booked_status_bytes());
        }
        Some(RoomStatus::Booked)
    } else {
        None
    }
}

/// The mathematical value of a [`Room`]: the same fields with the name as
/// a sequence of characters.
pub ghost struct RoomModel {
    pub id: i32,
    pub name: Seq<char>,
    pub status: RoomStatus,
    pub created_at: i64,
    pub updated_at: i64,
    pub deleted_at: Option<i64>,
}

/// A room of the inventory. Deletion is a soft delete: `deleted_at` makes
/// the room invisible to lookups and unavailable to new bookings while the
/// record and its history stay.
#[derive(Debug)]
pub struct Room {
    pub id: i32,
    pub name: String,
    pub status: RoomStatus,
    pub created_at: i64,
    pub updated_at: i64,
    pub deleted_at: Option<i64>,
}

impl View for Room {
    type V = RoomModel;

    open spec fn view(&self) -> RoomModel {
        RoomModel {
            id: self.id,
            name: self.name@,
            status: self.status,
            created_at: self.created_at,
            updated_at: self.updated_at,
            deleted_at: self.deleted_at,
        }
    }
}

impl DeepView for Room {
    type V = RoomModel;

    open spec fn deep_view(&self) -> RoomModel {
        self@
    }
}

impl Clone for Room {
    fn clone(&self) -> (r: Self)
        ensures
            r@ == self@,
    {
        Room {
            id: self.id,
            name: self.name.clone(),
            status: self.status,
            created_at: self.created_at,
            updated_at: self.updated_at,
            deleted_at: self.deleted_at,
        }
    }
}

impl Room {
    /// A room not soft-deleted.
    pub open spec fn is_live(self) -> bool {
        self.deleted_at is None
    }
}

impl RoomModel {
    /// A room not soft-deleted, at the model level.
    pub open spec fn is_live(self) -> bool {
        self.deleted_at is None
    }
}

/// A request to add a room to the inventory, as the admin handler receives
/// it.
#[derive(Debug)]
pub struct AddRoomRequest {
    pub name: String,
    pub status: RoomStatus,
}

/// The row shape an insertion writes: everything but the fields the
/// registry assigns itself (id and timestamps).
#[derive(Debug)]
pub struct NewRoom {
    pub name: String,
    pub status: RoomStatus,
}

/// A partial update of a room: only the given fields change.
#[derive(Debug)]
pub struct UpdateRoomRequest {
    pub name: Option<String>,
    pub status: Option<RoomStatus>,
}

/// Why a room operation was refused.
#[derive(Clone, Copy, Debug, PartialEq, Eq, Structural)]
pub enum RoomError {
    /// The requested name is empty.
    InvalidName,
    /// Another live room already carries the requested name.
    DuplicateName,
    /// No room with the requested id is visible.
    NotFound,
    /// The room was already soft-deleted.
    AlreadyDeleted,
}

impl RoomError {
    /// The display name of the error.
    pub fn message(&self) -> (r: &'static str)
        ensures
            *self == RoomError::InvalidName ==> r@ == "Room name must not be empty"@,
            *self == RoomError::DuplicateName ==> r@ == "Room name already taken"@,
            *self == RoomError::NotFound ==> r@ == "Room not found"@,
            *self == RoomError::AlreadyDeleted ==> r@ == "Room already deleted"@,
    {
        match self {
            RoomError::InvalidName => "Room name must not be empty",
            RoomError::DuplicateName => "Room name already taken",
            RoomError::NotFound => "Room not found",
            RoomError::AlreadyDeleted => "Room already deleted",
        }
    }
}

} // verus!
