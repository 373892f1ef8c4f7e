use crate::common::AppError;
use crate::models::{CreateOrUpdateRoomTypesRequest, CreateRoomRequest, Room, RoomTypes, UpdateRoomRequest};
use crate::reservation_service::{spec_ceil_div, spec_page_len};
use crate::response::PaginationMeta;
use crate::store::{
    spec_find_room_type, spec_room_index, spec_room_type_index, Store,
};
use vstd::prelude::*;

verus! {

/// Some other room (by id) already carries this name.
pub open spec fn spec_room_name_taken(rooms: Seq<Room>, name: Seq<char>, excluding_id: i32) -> bool {
    exists|i: int|
        0 <= i < rooms.len() && (#[trigger] rooms[i]).id != excluding_id && rooms[i].room_name@
            == name
}

/// What a successful room creation leaves behind: one new room built from
/// the request, stamped with the acting staff and the current time.  Nothing
/// else moves.
pub open spec fn create_room_effects(
    pre: Store,
    post: Store,
    data: CreateRoomRequest,
    staff_id: i32,
    now: i64,
) -> bool {
    &&& post.rooms@ == pre.rooms@.push(
        Room {
            id: pre.next_room_id,
            room_name: data.room_name,
            type_id: data.type_id,
            capacity: data.capacity,
            is_available: Some(data.is_available),
            created_at: now,
            updated_at: now,
            created_by: Some(staff_id),
            updated_by: Some(staff_id),
        },
    )
    &&& post.next_room_id == pre.next_room_id + 1
    &&& post.reservations@ == pre.reservations@
    &&& post.customer_contacts@ == pre.customer_contacts@
    &&& post.room_types@ == pre.room_types@
    &&& post.next_reservation_id == pre.next_reservation_id
    &&& post.next_customer_contact_id == pre.next_customer_contact_id
    &&& post.next_room_type_id == pre.next_room_type_id
}

/// What a successful room update leaves behind: the room keeps its id and
/// creation stamps, takes the requested name, type, capacity and
/// availability, and a renewed update stamp.  Nothing else moves.
pub open spec fn update_room_effects(
    pre: Store,
    post: Store,
    room_id: i32,
    data: UpdateRoomRequest,
    staff_id: i32,
    now: i64,
) -> bool {
    let i = spec_room_index(pre.rooms@, room_id);
    let old_room = pre.rooms@[i];
    &&& post.rooms@ == pre.rooms@.update(
        i,
        Room {
            id: old_room.id,
            room_name: data.room_name,
            type_id: data.type_id,
            capacity: data.capacity,
            is_available: Some(data.is_available),
            created_at: old_room.created_at,
            updated_at: now,
            created_by: old_room.created_by,
            updated_by: Some(staff_id),
        },
    )
    &&& post.reservations@ == pre.reservations@
    &&& post.customer_contacts@ == pre.customer_contacts@
    &&& post.room_types@ == pre.room_types@
    &&& post.next_reservation_id == pre.next_reservation_id
    &&& post.next_customer_contact_id == pre.next_customer_contact_id
    &&& post.next_room_id == pre.next_room_id
    &&& post.next_room_type_id == pre.next_room_type_id
}

/// How the room table looks after the rooms named by `room_ids` move onto
/// the type `assigned_type`: exactly those rooms take the new type id, every
/// other room stays as it was.
pub open spec fn rooms_retyped(
    pre: Seq<Room>,
    post: Seq<Room>,
    room_ids: Option<Vec<i32>>,
    assigned_type: i32,
) -> bool {
    &&& post.len() == pre.len()
    &&& forall|i: int|
        0 <= i < pre.len() ==> (#[trigger] post[i]) == (if (match room_ids {
            Some(ids) => ids@.contains(pre[i].id),
            None => false,
        }) {
            Room {
                id: pre[i].id,
                room_name: pre[i].room_name,
                type_id: Some(assigned_type),
                capacity: pre[i].capacity,
                is_available: pre[i].is_available,
                created_at: pre[i].created_at,
                updated_at: pre[i].updated_at,
                created_by: pre[i].created_by,
                updated_by: pre[i].updated_by,
            }
        } else {
            pre[i]
        })
}

/// What a successful room-type creation leaves behind: one new room type
/// built from the request, and — when the request names rooms — those rooms
/// moved onto it.  Nothing else moves.
pub open spec fn create_room_type_effects(
    pre: Store,
    post: Store,
    data: CreateOrUpdateRoomTypesRequest,
    staff_id: i32,
    now: i64,
) -> bool {
    &&& post.room_types@ == pre.room_types@.push(
        RoomTypes {
            id: pre.next_room_type_id,
            name: data.name,
            description: data.description,
            price_per_night: data.price_per_night,
            created_at: now,
            updated_at: now,
            created_by: Some(staff_id),
            updated_by: Some(staff_id),
        },
    )
    &&& post.next_room_type_id == pre.next_room_type_id + 1
    &&& rooms_retyped(pre.rooms@, post.rooms@, data.room_ids, pre.next_room_type_id)
    &&& post.reservations@ == pre.reservations@
    &&& post.customer_contacts@ == pre.customer_contacts@
    &&& post.next_reservation_id == pre.next_reservation_id
    &&& post.next_customer_contact_id == pre.next_customer_contact_id
    &&& post.next_room_id == pre.next_room_id
}

/// What a room-type update leaves behind: when a type with this id is there
/// it takes the requested name, description and price and a renewed update
/// stamp; when none is there the type table stays as it was — the write
/// simply touches no row.  Either way, rooms named by the request move onto
/// the given type id.  Nothing else moves.
pub open spec fn update_room_type_effects(
    pre: Store,
    post: Store,
    room_type_id: i32,
    data: CreateOrUpdateRoomTypesRequest,
    staff_id: i32,
    now: i64,
) -> bool {
    &&& (if spec_find_room_type(pre.room_types@, room_type_id) is Some {
        let i = spec_room_type_index(pre.room_types@, room_type_id);
        let old_t = pre.room_types@[i];
        post.room_types@ == pre.room_types@.update(
            i,
            RoomTypes {
                id: old_t.id,
                name: data.name,
                description: data.description,
                price_per_night: data.price_per_night,
                created_at: old_t.created_at,
                updated_at: now,
                created_by: old_t.created_by,
                updated_by: Some(staff_id),
            },
        )
    } else {
        post.room_types@ == pre.room_types@
    })
    &&& rooms_retyped(pre.rooms@, post.rooms@, data.room_ids, room_type_id)
    &&& post.reservations@ == pre.reservations@
    &&& post.customer_contacts@ == pre.customer_contacts@
    &&& post.next_reservation_id == pre.next_reservation_id
    &&& post.next_customer_contact_id == pre.next_customer_contact_id
    &&& post.next_room_id == pre.next_room_id
    &&& post.next_room_type_id == pre.next_room_type_id
}

/// Whether `ids` holds `id`.
fn contains_id(ids: &Vec<i32>, id: i32) -> (r: bool)
    ensures
        r == ids@.contains(id),
{
    let n = ids.len();
    let mut i: usize = 0;
    while i < n
        invariant
            i <= n,
            n == ids@.len(),
            forall|j: int| 0 <= j < i ==> ids@[j] != id,
        decreases n - i,
    {
        if ids[i] == id {
            return true;
        }
        i = i + 1;
    }
    false
}

/// Moves every room named by `ids` onto the type `assigned_type`, leaving
/// all other rooms alone.
fn retype_rooms(store: &mut Store, ids: &Vec<i32>, assigned_type: i32)
    ensures
        rooms_retyped(old(store).rooms@, final(store).rooms@, Some(*ids), assigned_type),
        final(store).reservations@ == old(store).reservations@,
        final(store).customer_contacts@ == old(store).customer_contacts@,
        final(store).room_types@ == old(store).room_types@,
        final(store).next_reservation_id == old(store).next_reservation_id,
        final(store).next_customer_contact_id == old(store).next_customer_contact_id,
        final(store).next_room_id == old(store).next_room_id,
        final(store).next_room_type_id == old(store).next_room_type_id,
        forall|i: int|
            0 <= i < final(store).rooms@.len() ==> (#[trigger] final(store).rooms@[i]).id == old(
                store,
            ).rooms@[i].id,
{
    let n = store.rooms.len();
    let mut i: usize = 0;
    while i < n
        invariant
            i <= n,
            n == store.rooms@.len() == old(store).rooms@.len(),
            store.reservations@ == old(store).reservations@,
            store.customer_contacts@ == old(store).customer_contacts@,
            store.room_types@ == old(store).room_types@,
            store.next_reservation_id == old(store).next_reservation_id,
            store.next_customer_contact_id == old(store).next_customer_contact_id,
            store.next_room_id == old(store).next_room_id,
            store.next_room_type_id == old(store).next_room_type_id,
            forall|j: int| i <= j < n ==> (#[trigger] store.rooms@[j]) == old(store).rooms@[j],
            forall|j: int|
                0 <= j < i ==> (#[trigger] store.rooms@[j]) == (if ids@.contains(
                    old(store).rooms@[j].id,
                ) {
                    Room {
                        id: old(store).rooms@[j].id,
                        room_name: old(store).rooms@[j].room_name,
                        type_id: Some(assigned_type),
                        capacity: old(store).rooms@[j].capacity,
                        is_available: old(store).rooms@[j].is_available,
                        created_at: old(store).rooms@[j].created_at,
                        updated_at: old(store).rooms@[j].updated_at,
                        created_by: old(store).rooms@[j].created_by,
                        updated_by: old(store).rooms@[j].updated_by,
                    }
                } else {
                    old(store).rooms@[j]
                }),
        decreases n - i,
    {
        if contains_id(ids, store.rooms[i].id) {
            let old_room = store.rooms[i].clone();
            let new_room = Room {
                id: old_room.id,
                room_name: old_room.room_name,
                type_id: Some(assigned_type),
                capacity: old_room.capacity,
                is_available: old_room.is_available,
                created_at: old_room.created_at,
                updated_at: old_room.updated_at,
                created_by: old_room.created_by,
                updated_by: old_room.updated_by,
            };
            store.rooms.set(i, new_room);
        }
        i = i + 1;
    }
}

/// Adds a room built from the request, stamped with the acting staff and the
/// current time.
pub fn create_room(
    store: &mut Store,
    data: &CreateRoomRequest,
    staff_id: i32,
    now: i64,
) -> (r: Result<(), AppError>)
    requires
        old(store).wf(),
    ensures
        final(store).wf(),
        r is Err ==> *final(store) == *old(store),
        r is Ok <==> old(store).next_room_id < i32::MAX,
        r matches Err(e) ==> e.is_storage_failure(),
        r is Ok ==> create_room_effects(*old(store), *final(store), *data, staff_id, now),
{
    if store.next_room_id == i32::MAX {
        return Err(AppError::StorageFailure("Identifier space exhausted.".to_owned()));
    }
    let room_id = store.next_room_id;
    let room = Room {
        id: room_id,
        room_name: data.room_name.clone(),
        type_id: data.type_id,
        capacity: data.capacity,
        is_available: Some(data.is_available),
        created_at: now,
        updated_at: now,
        created_by: Some(staff_id),
        updated_by: Some(staff_id),
    };
    store.rooms.push(room);
    store.next_room_id = room_id + 1;
    proof {
        let rooms1 = old(store).rooms@;
        let rooms2 = store.rooms@;
        assert forall|i: int, j: int| 0 <= i < j < rooms2.len() implies (#[trigger] rooms2[i]).id
            != (#[trigger] rooms2[j]).id by {
            if j < rooms1.len() {
                assert(rooms2[i] == rooms1[i] && rooms2[j] == rooms1[j]);
            } else {
                assert(rooms2[i] == rooms1[i]);
            }
        }
        assert forall|i: int| 0 <= i < rooms2.len() implies 1 <= (#[trigger] rooms2[i]).id
            < store.next_room_id by {
            if i < rooms1.len() {
                assert(rooms2[i] == rooms1[i]);
            }
        }
    }
    Ok(())
}

/// Rewrites the room with this id from the request.  Fails with a not-found
/// error when the room is missing, and with a conflict when another room
/// already carries the requested name.  On any failure the store is exactly
/// as it was.
pub fn update_room_by_id(
    store: &mut Store,
    room_id: i32,
    data: &UpdateRoomRequest,
    staff_id: i32,
    now: i64,
) -> (r: Result<(), AppError>)
    requires
        old(store).wf(),
    ensures
        final(store).wf(),
        r is Err ==> *final(store) == *old(store),
        r is Ok <==> crate::store::spec_find_room(old(store).rooms@, room_id) is Some
            && !spec_room_name_taken(old(store).rooms@, data.room_name@, room_id),
        r matches Err(e) ==> (e.is_not_found() <==> crate::store::spec_find_room(
            old(store).rooms@,
            room_id,
        ) is None),
        r matches Err(e) ==> (crate::store::spec_find_room(old(store).rooms@, room_id) is Some
            ==> e.is_conflict()),
        r is Ok ==> update_room_effects(*old(store), *final(store), room_id, *data, staff_id, now),
{
    let idx = match store.find_room_index(room_id) {
        Some(i) => i,
        None => {
            return Err(AppError::NotFound("Room not found.".to_owned()));
        },
    };
    let n = store.rooms.len();
    let mut i: usize = 0;
    while i < n
        invariant
            i <= n,
            old(store).wf(),
            *store == *old(store),
            crate::store::spec_find_room(old(store).rooms@, room_id) is Some,
            n == store.rooms@.len(),
            forall|j: int|
                0 <= j < i ==> !((#[trigger] store.rooms@[j]).id != room_id
                    && store.rooms@[j].room_name@ == data.room_name@),
        decreases n - i,
    {
        if store.rooms[i].id != room_id && store.rooms[i].room_name == data.room_name {
            return Err(AppError::Conflict("Room name already exists.".to_owned()));
        }
        i = i + 1;
    }
    let old_room = store.rooms[idx].clone();
    let new_room = Room {
        id: old_room.id,
        room_name: data.room_name.clone(),
        type_id: data.type_id,
        capacity: data.capacity,
        is_available: Some(data.is_available),
        created_at: old_room.created_at,
        updated_at: now,
        created_by: old_room.created_by,
        updated_by: Some(staff_id),
    };
    store.rooms.set(idx, new_room);
    proof {
        let rooms1 = old(store).rooms@;
        let rooms2 = store.rooms@;
        assert forall|i2: int, j2: int| 0 <= i2 < j2 < rooms2.len() implies (
        #[trigger] rooms2[i2]).id != (#[trigger] rooms2[j2]).id by {
            assert(rooms2[i2].id == rooms1[i2].id && rooms2[j2].id == rooms1[j2].id);
        }
        assert forall|i2: int| 0 <= i2 < rooms2.len() implies 1 <= (#[trigger] rooms2[i2]).id
            < store.next_room_id by {
            assert(rooms2[i2].id == rooms1[i2].id);
        }
    }
    Ok(())
}

/// One page of the room table, oldest first, with the pagination metadata.
pub fn get_rooms_with_pagination(store: &Store, page: i64, page_size: i64) -> (r: (
    Vec<Room>,
    PaginationMeta,
))
    requires
        store.wf(),
        1 <= page,
        1 <= page_size,
        page * page_size <= i64::MAX,
    ensures
        r.1 == (PaginationMeta {
            total_items: store.rooms@.len() as i64,
            total_pages: spec_ceil_div(store.rooms@.len() as int, page_size as int) as i64,
            current_page: page,
            page_size,
        }),
        r.0@.len() == spec_page_len(store.rooms@.len() as int, page as int, page_size as int),
        forall|k: int|
            0 <= k < r.0@.len() ==> (#[trigger] r.0@[k]) == store.rooms@[(page - 1) * page_size
                + k],
{
    let total_usize = store.rooms.len();
    proof {
        assert(store.rooms@.len() < 0x8000_0000int);
    }
    let total = total_usize as i64;
    let total_pages: i64 = if total == 0 {
        0
    } else {
        (total - 1) / page_size + 1
    };
    proof {
        if total > 0 {
            crate::reservation_service::lemma_ceil_div_step(total as int, page_size as int);
            assert((total - 1) as int / page_size as int <= total - 1) by (nonlinear_arith)
                requires
                    total >= 1,
                    page_size >= 1,
            ;
            assert((total - 1) as int / page_size as int >= 0) by (nonlinear_arith)
                requires
                    total >= 1,
                    page_size >= 1,
            ;
        } else {
            assert(spec_ceil_div(0, page_size as int) == 0) by (nonlinear_arith)
                requires
                    page_size >= 1,
            ;
        }
        assert((page - 1) * page_size == page * page_size - page_size) by (nonlinear_arith);
        assert((page - 1) * page_size >= 0) by (nonlinear_arith)
            requires
                page >= 1,
                page_size >= 1,
        ;
    }
    let offset = (page - 1) * page_size;
    let mut rows: Vec<Room> = Vec::new();
    if offset < total {
        let start = offset as usize;
        let remaining: i64 = total - offset;
        let count_i64: i64 = if remaining < page_size {
            remaining
        } else {
            page_size
        };
        let count: usize = count_i64 as usize;
        let mut i: usize = 0;
        while i < count
            invariant
                i <= count,
                rows@.len() == i,
                total_usize == store.rooms@.len(),
                start + count <= total_usize,
                start == (page - 1) * page_size,
                forall|k: int| 0 <= k < i ==> (#[trigger] rows@[k]) == store.rooms@[start + k],
            decreases count - i,
        {
            rows.push(store.rooms[start + i].clone());
            i = i + 1;
        }
    }
    let meta = PaginationMeta { total_items: total, total_pages, current_page: page, page_size };
    (rows, meta)
}

/// Adds a room type built from the request and, when the request names
/// rooms, moves them onto it.
pub fn create_room_type(
    store: &mut Store,
    data: &CreateOrUpdateRoomTypesRequest,
    staff_id: i32,
    now: i64,
) -> (r: Result<(), AppError>)
    requires
        old(store).wf(),
    ensures
        final(store).wf(),
        r is Err ==> *final(store) == *old(store),
        r is Ok <==> old(store).next_room_type_id < i32::MAX,
        r matches Err(e) ==> e.is_storage_failure(),
        r is Ok ==> create_room_type_effects(*old(store), *final(store), *data, staff_id, now),
{
    if store.next_room_type_id == i32::MAX {
        return Err(AppError::StorageFailure("Identifier space exhausted.".to_owned()));
    }
    let new_type_id = store.next_room_type_id;
    let room_type = RoomTypes {
        id: new_type_id,
        name: data.name.clone(),
        description: match &data.description {
            Some(d) => Some(d.clone()),
            None => None,
        },
        price_per_night: data.price_per_night,
        created_at: now,
        updated_at: now,
        created_by: Some(staff_id),
        updated_by: Some(staff_id),
    };
    store.room_types.push(room_type);
    store.next_room_type_id = new_type_id + 1;
    match &data.room_ids {
        Some(ids) => {
            retype_rooms(store, ids, new_type_id);
        },
        None => {},
    }
    proof {
        let ts1 = old(store).room_types@;
        let ts2 = store.room_types@;
        assert forall|i: int, j: int| 0 <= i < j < ts2.len() implies (#[trigger] ts2[i]).id != (
        #[trigger] ts2[j]).id by {
            if j < ts1.len() {
                assert(ts2[i] == ts1[i] && ts2[j] == ts1[j]);
            } else {
                assert(ts2[i] == ts1[i]);
            }
        }
        assert forall|i: int| 0 <= i < ts2.len() implies 1 <= (#[trigger] ts2[i]).id
            < store.next_room_type_id by {
            if i < ts1.len() {
                assert(ts2[i] == ts1[i]);
            }
        }
        assert forall|i: int| 0 <= i < store.rooms@.len() implies 1 <= (
        #[trigger] store.rooms@[i]).id < store.next_room_id by {
            assert(store.rooms@[i].id == old(store).rooms@[i].id);
        }
        assert forall|i: int, j: int| 0 <= i < j < store.rooms@.len() implies (
        #[trigger] store.rooms@[i]).id != (#[trigger] store.rooms@[j]).id by {
            assert(store.rooms@[i].id == old(store).rooms@[i].id);
            assert(store.rooms@[j].id == old(store).rooms@[j].id);
        }
    }
    Ok(())
}

/// Rewrites the room type with this id from the request — touching no row
/// when no type carries the id — and, when the request names rooms, moves
/// them onto the given type id.
pub fn update_room_type_by_id(
    store: &mut Store,
    room_type_id: i32,
    data: &CreateOrUpdateRoomTypesRequest,
    staff_id: i32,
    now: i64,
) -> (r: Result<(), AppError>)
    requires
        old(store).wf(),
    ensures
        final(store).wf(),
        r is Ok,
        r is Ok ==> update_room_type_effects(
            *old(store),
            *final(store),
            room_type_id,
            *data,
            staff_id,
            now,
        ),
{
    match store.find_room_type_index(room_type_id) {
        Some(idx) => {
            let old_t_id = store.room_types[idx].id;
            let old_t_created_at = store.room_types[idx].created_at;
            let old_t_created_by = store.room_types[idx].created_by;
            let new_t = RoomTypes {
                id: old_t_id,
                name: data.name.clone(),
                description: match &data.description {
                    Some(d) => Some(d.clone()),
                    None => None,
                },
                price_per_night: data.price_per_night,
                created_at: old_t_created_at,
                updated_at: now,
                created_by: old_t_created_by,
                updated_by: Some(staff_id),
            };
            store.room_types.set(idx, new_t);
        },
        None => {},
    }
    match &data.room_ids {
        Some(ids) => {
            retype_rooms(store, ids, room_type_id);
        },
        None => {},
    }
    proof {
        let ts1 = old(store).room_types@;
        let ts2 = store.room_types@;
        assert forall|i: int, j: int| 0 <= i < j < ts2.len() implies (#[trigger] ts2[i]).id != (
        #[trigger] ts2[j]).id by {
            assert(ts2[i].id == ts1[i].id && ts2[j].id == ts1[j].id);
        }
        assert forall|i: int| 0 <= i < ts2.len() implies 1 <= (#[trigger] ts2[i]).id
            < store.next_room_type_id by {
            assert(ts2[i].id == ts1[i].id);
        }
        assert forall|i: int| 0 <= i < store.rooms@.len() implies 1 <= (
        #[trigger] store.rooms@[i]).id < store.next_room_id by {
            assert(store.rooms@[i].id == old(store).rooms@[i].id);
        }
        assert forall|i: int, j: int| 0 <= i < j < store.rooms@.len() implies (
        #[trigger] store.rooms@[i]).id != (#[trigger] store.rooms@[j]).id by {
            assert(store.rooms@[i].id == old(store).rooms@[i].id);
            assert(store.rooms@[j].id == old(store).rooms@[j].id);
        }
    }
    Ok(())
}

} // verus!
