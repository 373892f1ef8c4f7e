use crate::dates::Date;
use vstd::prelude::*;

verus! {

/// The statuses the engine accepts.  Storage carries the status as a free
/// string, but only these three values mean anything, and writes reject any
/// other.
pub open spec fn valid_status(s: Seq<char>) -> bool {
    s == "pending"@ || s == "confirmed"@ || s == "cancelled"@
}

/// One booked stay: a room, a half-specified guest (through the linked
/// customer contact), a date range, the derived price, a free-form status,
/// and the audit stamps of whoever created, updated, confirmed or cancelled
/// it.  Timestamps are plain integers (seconds, as the caller counts them).
pub struct Reservation {
    pub id: i32,
    pub room_id: i32,
    pub customer_contact_id: i32,
    pub check_in_date: Date,
    pub check_out_date: Date,
    pub total_price: i64,
    pub status: String,
    pub created_by: Option<i32>,
    pub created_at: i64,
    pub updated_by: Option<i32>,
    pub updated_at: i64,
    pub confirmed_by: Option<i32>,
    pub confirmed_at: Option<i64>,
    pub cancelled_by: Option<i32>,
    pub cancelled_at: Option<i64>,
}

impl Clone for Reservation {
    fn clone(&self) -> (r: Self)
        ensures
            r == *self,
    {
        Reservation {
            id: self.id,
            room_id: self.room_id,
            customer_contact_id: self.customer_contact_id,
            check_in_date: self.check_in_date,
            check_out_date: self.check_out_date,
            total_price: self.total_price,
            status: self.status.clone(),
            created_by: self.created_by,
            created_at: self.created_at,
            updated_by: self.updated_by,
            updated_at: self.updated_at,
            confirmed_by: self.confirmed_by,
            confirmed_at: self.confirmed_at,
            cancelled_by: self.cancelled_by,
            cancelled_at: self.cancelled_at,
        }
    }
}

/// The guest record a reservation owns: created with it, updated with it.
pub struct CustomerContact {
    pub id: i32,
    pub full_name: String,
    pub email: String,
    pub phone_number: String,
    pub created_at: i64,
    pub updated_at: i64,
}

impl Clone for CustomerContact {
    fn clone(&self) -> (r: Self)
        ensures
            r == *self,
    {
        CustomerContact {
            id: self.id,
            full_name: self.full_name.clone(),
            email: self.email.clone(),
            phone_number: self.phone_number.clone(),
            created_at: self.created_at,
            updated_at: self.updated_at,
        }
    }
}

/// A room; its nightly price lives on its optional room type.
pub struct Room {
    pub id: i32,
    pub room_name: String,
    pub type_id: Option<i32>,
    pub capacity: i32,
    pub is_available: Option<bool>,
    pub created_at: i64,
    pub updated_at: i64,
    pub created_by: Option<i32>,
    pub updated_by: Option<i32>,
}

impl Clone for Room {
    fn clone(&self) -> (r: Self)
        ensures
            r == *self,
    {
        Room {
            id: self.id,
            room_name: self.room_name.clone(),
            type_id: self.type_id,
            capacity: self.capacity,
            is_available: self.is_available,
            created_at: self.created_at,
            updated_at: self.updated_at,
            created_by: self.created_by,
            updated_by: self.updated_by,
        }
    }
}

/// A class of rooms, carrying the nightly price.
pub struct RoomTypes {
    pub id: i32,
    pub name: String,
    pub description: Option<String>,
    pub price_per_night: i32,
    pub created_at: i64,
    pub updated_at: i64,
    pub created_by: Option<i32>,
    pub updated_by: Option<i32>,
}

impl Clone for RoomTypes {
    fn clone(&self) -> (r: Self)
        ensures
            r == *self,
    {
        RoomTypes {
            id: self.id,
            name: self.name.clone(),
            description: match &self.description {
                Some(d) => Some(d.clone()),
                None => None,
            },
            price_per_night: self.price_per_night,
            created_at: self.created_at,
            updated_at: self.updated_at,
            created_by: self.created_by,
            updated_by: self.updated_by,
        }
    }
}

/// A room together with the nightly price its type carries: what the booking
/// engine reads when it resolves a price.
#[derive(Clone, Copy, PartialEq, Eq, Structural, Debug)]
pub struct RoomWithType {
    pub id: i32,
    pub price_per_night: i32,
}

/// The input of both reservation writes: the room, the stay, the requested
/// status, and the guest's contact fields.
pub struct CreateOrUpdateReservationRequest {
    pub room_id: i32,
    pub check_in_date: Date,
    pub check_out_date: Date,
    pub status: String,
    pub full_name: String,
    pub email: String,
    pub phone_number: String,
}

impl CreateOrUpdateReservationRequest {
    /// Both dates of the request are within the range the library accepts.
    pub open spec fn dates_wf(self) -> bool {
        self.check_in_date.wf() && self.check_out_date.wf()
    }
}

/// Input of a room creation.
pub struct CreateRoomRequest {
    pub room_name: String,
    pub type_id: Option<i32>,
    pub capacity: i32,
    pub is_available: bool,
}

/// Input of a room update.
pub struct UpdateRoomRequest {
    pub room_name: String,
    pub type_id: Option<i32>,
    pub capacity: i32,
    pub is_available: bool,
}

/// Input of a room-type creation or update; `room_ids`, when given, names
/// the rooms to move onto this type.
pub struct CreateOrUpdateRoomTypesRequest {
    pub name: String,
    pub description: Option<String>,
    pub price_per_night: i32,
    pub room_ids: Option<Vec<i32>>,
}

/// One row of a reservation listing: the reservation itself joined with its
/// room, the room's type, and its customer contact, each absent when the
/// referenced record is gone.
pub struct ReservationWithJoin {
    pub reservation: Reservation,
    pub room: Option<Room>,
    pub room_type: Option<RoomTypes>,
    pub customer_contact: Option<CustomerContact>,
}

} // verus!
