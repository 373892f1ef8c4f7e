use crate::models::{CustomerContact, Reservation, Room, RoomTypes, RoomWithType};
use crate::overlap::ranges_overlap;
use vstd::prelude::*;

verus! {

/// No two reservations share an id.
pub open spec fn reservation_ids_unique(rs: Seq<Reservation>) -> bool {
    forall|i: int, j: int|
        0 <= i < j < rs.len() ==> (#[trigger] rs[i]).id != (#[trigger] rs[j]).id
}

/// No two customer contacts share an id.
pub open spec fn contact_ids_unique(cs: Seq<CustomerContact>) -> bool {
    forall|i: int, j: int|
        0 <= i < j < cs.len() ==> (#[trigger] cs[i]).id != (#[trigger] cs[j]).id
}

/// No two rooms share an id.
pub open spec fn room_ids_unique(rooms: Seq<Room>) -> bool {
    forall|i: int, j: int|
        0 <= i < j < rooms.len() ==> (#[trigger] rooms[i]).id != (#[trigger] rooms[j]).id
}

/// No two room types share an id.
pub open spec fn room_type_ids_unique(ts: Seq<RoomTypes>) -> bool {
    forall|i: int, j: int|
        0 <= i < j < ts.len() ==> (#[trigger] ts[i]).id != (#[trigger] ts[j]).id
}

/// The reservation with the given id, if one is there.
pub open spec fn spec_find_reservation(rs: Seq<Reservation>, id: i32) -> Option<Reservation> {
    if exists|i: int| 0 <= i < rs.len() && (#[trigger] rs[i]).id == id {
        Some(rs[spec_reservation_index(rs, id)])
    } else {
        None
    }
}

/// The position of the reservation with the given id; meaningful only when
/// one is there.
pub open spec fn spec_reservation_index(rs: Seq<Reservation>, id: i32) -> int {
    choose|i: int| 0 <= i < rs.len() && (#[trigger] rs[i]).id == id
}

/// The customer contact with the given id, if one is there.
pub open spec fn spec_find_contact(cs: Seq<CustomerContact>, id: i32) -> Option<CustomerContact> {
    if exists|i: int| 0 <= i < cs.len() && (#[trigger] cs[i]).id == id {
        Some(cs[spec_contact_index(cs, id)])
    } else {
        None
    }
}

/// The position of the customer contact with the given id; meaningful only
/// when one is there.
pub open spec fn spec_contact_index(cs: Seq<CustomerContact>, id: i32) -> int {
    choose|i: int| 0 <= i < cs.len() && (#[trigger] cs[i]).id == id
}

/// The room with the given id, if one is there.
pub open spec fn spec_find_room(rooms: Seq<Room>, id: i32) -> Option<Room> {
    if exists|i: int| 0 <= i < rooms.len() && (#[trigger] rooms[i]).id == id {
        Some(rooms[spec_room_index(rooms, id)])
    } else {
        None
    }
}

/// The position of the room with the given id; meaningful only when one is
/// there.
pub open spec fn spec_room_index(rooms: Seq<Room>, id: i32) -> int {
    choose|i: int| 0 <= i < rooms.len() && (#[trigger] rooms[i]).id == id
}

/// The room type with the given id, if one is there.
pub open spec fn spec_find_room_type(ts: Seq<RoomTypes>, id: i32) -> Option<RoomTypes> {
    if exists|i: int| 0 <= i < ts.len() && (#[trigger] ts[i]).id == id {
        Some(ts[spec_room_type_index(ts, id)])
    } else {
        None
    }
}

/// The position of the room type with the given id; meaningful only when one
/// is there.
pub open spec fn spec_room_type_index(ts: Seq<RoomTypes>, id: i32) -> int {
    choose|i: int| 0 <= i < ts.len() && (#[trigger] ts[i]).id == id
}

/// The nightly rate a stay in `room_id` is billed at: the `price_per_night`
/// of the room's type.  `None` when the room is missing, has no type, or its
/// type is missing — a room without a price cannot be booked.
pub open spec fn spec_room_rate(store: Store, room_id: i32) -> Option<int> {
    match spec_find_room(store.rooms@, room_id) {
        Some(room) => match room.type_id {
            Some(t) => match spec_find_room_type(store.room_types@, t) {
                Some(rt) => Some(rt.price_per_night as int),
                None => None,
            },
            None => None,
        },
        None => None,
    }
}

/// No two reservations of the same room have overlapping date ranges,
/// endpoints included — the store never holds a double booking, whatever the
/// statuses of the two reservations.
pub open spec fn no_double_booking(rs: Seq<Reservation>) -> bool {
    forall|i: int, j: int|
        0 <= i < j < rs.len() && (#[trigger] rs[i]).room_id == (#[trigger] rs[j]).room_id
            ==> !ranges_overlap(
            rs[i].check_in_date,
            rs[i].check_out_date,
            rs[j].check_in_date,
            rs[j].check_out_date,
        )
}

/// The relational state the booking engine works against: one growable table
/// per record kind, each handing out ids from its own counter, exactly as a
/// serial column would.
pub struct Store {
    pub reservations: Vec<Reservation>,
    pub customer_contacts: Vec<CustomerContact>,
    pub rooms: Vec<Room>,
    pub room_types: Vec<RoomTypes>,
    pub next_reservation_id: i32,
    pub next_customer_contact_id: i32,
    pub next_room_id: i32,
    pub next_room_type_id: i32,
}

impl Store {
    /// Every id is positive, below its table's counter, and unique within
    /// its table; each table stays shorter than its counter.
    pub open spec fn ids_wf(self) -> bool {
        &&& 1 <= self.next_reservation_id
        &&& self.reservations@.len() < self.next_reservation_id
        &&& forall|i: int|
            0 <= i < self.reservations@.len() ==> 1 <= (#[trigger] self.reservations@[i]).id
                < self.next_reservation_id
        &&& reservation_ids_unique(self.reservations@)
        &&& 1 <= self.next_customer_contact_id
        &&& self.customer_contacts@.len() < self.next_customer_contact_id
        &&& forall|i: int|
            0 <= i < self.customer_contacts@.len() ==> 1 <= (#[trigger] self.customer_contacts@[i]).id
                < self.next_customer_contact_id
        &&& contact_ids_unique(self.customer_contacts@)
        &&& 1 <= self.next_room_id
        &&& self.rooms@.len() < self.next_room_id
        &&& forall|i: int|
            0 <= i < self.rooms@.len() ==> 1 <= (#[trigger] self.rooms@[i]).id < self.next_room_id
        &&& room_ids_unique(self.rooms@)
        &&& 1 <= self.next_room_type_id
        &&& self.room_types@.len() < self.next_room_type_id
        &&& forall|i: int|
            0 <= i < self.room_types@.len() ==> 1 <= (#[trigger] self.room_types@[i]).id
                < self.next_room_type_id
        &&& room_type_ids_unique(self.room_types@)
    }

    /// Every stored reservation carries a bounded date range whose check-out
    /// falls strictly after its check-in, and a known status.
    pub open spec fn reservation_rows_wf(self) -> bool {
        forall|i: int|
            0 <= i < self.reservations@.len() ==> {
                let r = #[trigger] self.reservations@[i];
                r.check_in_date.wf() && r.check_out_date.wf() && r.check_in_date.days
                    < r.check_out_date.days && crate::models::valid_status(r.status@)
            }
    }

    /// The store's invariant: sound ids, sound reservation rows, and no
    /// double booking anywhere.
    pub open spec fn wf(self) -> bool {
        &&& self.ids_wf()
        &&& self.reservation_rows_wf()
        &&& no_double_booking(self.reservations@)
    }

    /// An empty store, ready to take its first records.
    pub fn new() -> (r: Store)
        ensures
            r.wf(),
            r.reservations@.len() == 0,
            r.customer_contacts@.len() == 0,
            r.rooms@.len() == 0,
            r.room_types@.len() == 0,
            r.next_reservation_id == 1,
            r.next_customer_contact_id == 1,
            r.next_room_id == 1,
            r.next_room_type_id == 1,
    {
        Store {
            reservations: Vec::new(),
            customer_contacts: Vec::new(),
            rooms: Vec::new(),
            room_types: Vec::new(),
            next_reservation_id: 1,
            next_customer_contact_id: 1,
            next_room_id: 1,
            next_room_type_id: 1,
        }
    }

    /// Where the reservation with this id sits, if it is there at all.
    pub fn find_reservation_index(&self, id: i32) -> (r: Option<usize>)
        requires
            reservation_ids_unique(self.reservations@),
        ensures
            match r {
                Some(i) => i < self.reservations@.len() && self.reservations@[i as int].id == id
                    && spec_find_reservation(self.reservations@, id) == Some(
                    self.reservations@[i as int],
                ) && spec_reservation_index(self.reservations@, id) == i as int,
                None => spec_find_reservation(self.reservations@, id) is None,
            },
    {
        let n = self.reservations.len();
        let mut i: usize = 0;
        while i < n
            invariant
                i <= n,
                n == self.reservations@.len(),
                reservation_ids_unique(self.reservations@),
                forall|j: int| 0 <= j < i ==> (#[trigger] self.reservations@[j]).id != id,
            decreases n - i,
        {
            if self.reservations[i].id == id {
                proof {
                    let c = spec_reservation_index(self.reservations@, id);
                    assert(0 <= c < self.reservations@.len() && self.reservations@[c].id == id);
                    assert(c == i as int);
                }
                return Some(i);
            }
            i = i + 1;
        }
        None
    }

    /// Where the customer contact with this id sits, if it is there at all.
    pub fn find_contact_index(&self, id: i32) -> (r: Option<usize>)
        requires
            contact_ids_unique(self.customer_contacts@),
        ensures
            match r {
                Some(i) => i < self.customer_contacts@.len() && self.customer_contacts@[i as int].id
                    == id && spec_find_contact(self.customer_contacts@, id) == Some(
                    self.customer_contacts@[i as int],
                ) && spec_contact_index(self.customer_contacts@, id) == i as int,
                None => spec_find_contact(self.customer_contacts@, id) is None,
            },
    {
        let n = self.customer_contacts.len();
        let mut i: usize = 0;
        while i < n
            invariant
                i <= n,
                n == self.customer_contacts@.len(),
                contact_ids_unique(self.customer_contacts@),
                forall|j: int| 0 <= j < i ==> (#[trigger] self.customer_contacts@[j]).id != id,
            decreases n - i,
        {
            if self.customer_contacts[i].id == id {
                proof {
                    let c = spec_contact_index(self.customer_contacts@, id);
                    assert(0 <= c < self.customer_contacts@.len() && self.customer_contacts@[c].id
                        == id);
                    assert(c == i as int);
                }
                return Some(i);
            }
            i = i + 1;
        }
        None
    }

    /// Where the room with this id sits, if it is there at all.
    pub fn find_room_index(&self, id: i32) -> (r: Option<usize>)
        requires
            room_ids_unique(self.rooms@),
        ensures
            match r {
                Some(i) => i < self.rooms@.len() && self.rooms@[i as int].id == id
                    && spec_find_room(self.rooms@, id) == Some(self.rooms@[i as int])
                    && spec_room_index(self.rooms@, id) == i as int,
                None => spec_find_room(self.rooms@, id) is None,
            },
    {
        let n = self.rooms.len();
        let mut i: usize = 0;
        while i < n
            invariant
                i <= n,
                n == self.rooms@.len(),
                room_ids_unique(self.rooms@),
                forall|j: int| 0 <= j < i ==> (#[trigger] self.rooms@[j]).id != id,
            decreases n - i,
        {
            if self.rooms[i].id == id {
                proof {
                    let c = spec_room_index(self.rooms@, id);
                    assert(0 <= c < self.rooms@.len() && self.rooms@[c].id == id);
                    assert(c == i as int);
                }
                return Some(i);
            }
            i = i + 1;
        }
        None
    }

    /// Where the room type with this id sits, if it is there at all.
    pub fn find_room_type_index(&self, id: i32) -> (r: Option<usize>)
        requires
            room_type_ids_unique(self.room_types@),
        ensures
            match r {
                Some(i) => i < self.room_types@.len() && self.room_types@[i as int].id == id
                    && spec_find_room_type(self.room_types@, id) == Some(
                    self.room_types@[i as int],
                ) && spec_room_type_index(self.room_types@, id) == i as int,
                None => spec_find_room_type(self.room_types@, id) is None,
            },
    {
        let n = self.room_types.len();
        let mut i: usize = 0;
        while i < n
            invariant
                i <= n,
                n == self.room_types@.len(),
                room_type_ids_unique(self.room_types@),
                forall|j: int| 0 <= j < i ==> (#[trigger] self.room_types@[j]).id != id,
            decreases n - i,
        {
            if self.room_types[i].id == id {
                proof {
                    let c = spec_room_type_index(self.room_types@, id);
                    assert(0 <= c < self.room_types@.len() && self.room_types@[c].id == id);
                    assert(c == i as int);
                }
                return Some(i);
            }
            i = i + 1;
        }
        None
    }

    /// The room joined with the nightly price of its type — what the booking
    /// engine reads before pricing a stay.  `None` when the room is missing,
    /// has no type, or names a type that is missing.
    pub fn find_room_with_type(&self, room_id: i32) -> (r: Option<RoomWithType>)
        requires
            room_ids_unique(self.rooms@),
            room_type_ids_unique(self.room_types@),
        ensures
            match r {
                Some(rwt) => rwt.id == room_id && spec_room_rate(*self, room_id) == Some(
                    rwt.price_per_night as int,
                ),
                None => spec_room_rate(*self, room_id) is None,
            },
    {
        let room_idx = match self.find_room_index(room_id) {
            Some(i) => i,
            None => {
                return None;
            },
        };
        let type_id = match self.rooms[room_idx].type_id {
            Some(t) => t,
            None => {
                return None;
            },
        };
        match self.find_room_type_index(type_id) {
            Some(k) => Some(
                RoomWithType { id: room_id, price_per_night: self.room_types[k].price_per_night },
            ),
            None => None,
        }
    }
}

} // verus!
