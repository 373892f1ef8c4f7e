use crate::common::AppError;
use crate::dates::spec_nights;
use crate::models::{
    valid_status, CreateOrUpdateReservationRequest, CustomerContact, Reservation,
    ReservationWithJoin,
};
use crate::overlap::{has_overlap, spec_overlap_exists};
use crate::pricing::price;
use crate::response::PaginationMeta;
use crate::store::{
    spec_contact_index, spec_find_contact, spec_find_reservation, spec_find_room,
    spec_find_room_type, spec_reservation_index, spec_room_rate, Store,
};
use vstd::arithmetic::div_mod::{
    lemma_fundamental_div_mod, lemma_fundamental_div_mod_converse, lemma_mod_pos_bound,
};
use vstd::prelude::*;

verus! {

/// A reservation request is acceptable on its face: a known status and a
/// check-out falling strictly after the check-in.
pub open spec fn request_valid(data: CreateOrUpdateReservationRequest) -> bool {
    valid_status(data.status@) && data.check_in_date.days < data.check_out_date.days
}

/// Both tables written by a create still have ids to hand out.
pub open spec fn ids_available_for_create(pre: Store) -> bool {
    pre.next_reservation_id < i32::MAX && pre.next_customer_contact_id < i32::MAX
}

/// What a successful create leaves behind: one new customer contact and one
/// new reservation, both built from the request, priced from the room's
/// nightly rate, stamped with the acting staff and the current time, and
/// confirmed at birth exactly when the requested status is `confirmed`.
/// Nothing else moves.
pub open spec fn create_effects(
    pre: Store,
    post: Store,
    data: CreateOrUpdateReservationRequest,
    staff_id: i32,
    now: i64,
) -> bool {
    let contact_id = pre.next_customer_contact_id;
    let rate = spec_room_rate(pre, data.room_id)->0;
    let confirmed = data.status@ == "confirmed"@;
    &&& post.customer_contacts@ == pre.customer_contacts@.push(
        CustomerContact {
            id: contact_id,
            full_name: data.full_name,
            email: data.email,
            phone_number: data.phone_number,
            created_at: now,
            updated_at: now,
        },
    )
    &&& post.reservations@ == pre.reservations@.push(
        Reservation {
            id: pre.next_reservation_id,
            room_id: data.room_id,
            customer_contact_id: contact_id,
            check_in_date: data.check_in_date,
            check_out_date: data.check_out_date,
            total_price: (spec_nights(data.check_in_date, data.check_out_date) * rate) as i64,
            status: data.status,
            created_by: Some(staff_id),
            created_at: now,
            updated_by: Some(staff_id),
            updated_at: now,
            confirmed_by: if confirmed {
                Some(staff_id)
            } else {
                None
            },
            confirmed_at: if confirmed {
                Some(now)
            } else {
                None
            },
            cancelled_by: None,
            cancelled_at: None,
        },
    )
    &&& post.next_reservation_id == pre.next_reservation_id + 1
    &&& post.next_customer_contact_id == pre.next_customer_contact_id + 1
    &&& post.rooms@ == pre.rooms@
    &&& post.room_types@ == pre.room_types@
    &&& post.next_room_id == pre.next_room_id
    &&& post.next_room_type_id == pre.next_room_type_id
}

/// What a successful update leaves behind.  The reservation keeps its id,
/// its creation stamp and its contact link; room, dates, status and the
/// recomputed price are replaced; the update stamp is renewed.  A status of
/// `confirmed` or `cancelled` lays down the matching audit pair, and any
/// other status touches neither pair — earlier stamps are never cleared.
/// The linked customer contact, when it is still there, takes the new
/// contact fields and update time in place.  Nothing else moves.
pub open spec fn update_effects(
    pre: Store,
    post: Store,
    reservation_id: i32,
    data: CreateOrUpdateReservationRequest,
    staff_id: i32,
    now: i64,
) -> bool {
    let i = spec_reservation_index(pre.reservations@, reservation_id);
    let old_r = pre.reservations@[i];
    let rate = spec_room_rate(pre, data.room_id)->0;
    let confirmed = data.status@ == "confirmed"@;
    let cancelled = data.status@ == "cancelled"@;
    let new_r = Reservation {
        id: old_r.id,
        room_id: data.room_id,
        customer_contact_id: old_r.customer_contact_id,
        check_in_date: data.check_in_date,
        check_out_date: data.check_out_date,
        total_price: (spec_nights(data.check_in_date, data.check_out_date) * rate) as i64,
        status: data.status,
        created_by: old_r.created_by,
        created_at: old_r.created_at,
        updated_by: Some(staff_id),
        updated_at: now,
        confirmed_by: if confirmed {
            Some(staff_id)
        } else {
            old_r.confirmed_by
        },
        confirmed_at: if confirmed {
            Some(now)
        } else {
            old_r.confirmed_at
        },
        cancelled_by: if cancelled {
            Some(staff_id)
        } else {
            old_r.cancelled_by
        },
        cancelled_at: if cancelled {
            Some(now)
        } else {
            old_r.cancelled_at
        },
    };
    &&& post.reservations@ == pre.reservations@.update(i, new_r)
    &&& (if spec_find_contact(pre.customer_contacts@, old_r.customer_contact_id) is Some {
        let k = spec_contact_index(pre.customer_contacts@, old_r.customer_contact_id);
        let old_c = pre.customer_contacts@[k];
        post.customer_contacts@ == pre.customer_contacts@.update(
            k,
            CustomerContact {
                id: old_c.id,
                full_name: data.full_name,
                email: data.email,
                phone_number: data.phone_number,
                created_at: old_c.created_at,
                updated_at: now,
            },
        )
    } else {
        post.customer_contacts@ == pre.customer_contacts@
    })
    &&& post.rooms@ == pre.rooms@
    &&& post.room_types@ == pre.room_types@
    &&& post.next_reservation_id == pre.next_reservation_id
    &&& post.next_customer_contact_id == pre.next_customer_contact_id
    &&& post.next_room_id == pre.next_room_id
    &&& post.next_room_type_id == pre.next_room_type_id
}

/// The status string of `s` equals the literal `lit`.
fn status_matches(s: &String, lit: &str) -> (r: bool)
    ensures
        r == (s@ == lit@),
{
    *s == lit.to_owned()
}

/// The request names one of the three known statuses and a positive stay.
fn validate_request(data: &CreateOrUpdateReservationRequest) -> (r: bool)
    ensures
        r == request_valid(*data),
{
    let known = status_matches(&data.status, "pending") || status_matches(&data.status, "confirmed")
        || status_matches(&data.status, "cancelled");
    known && data.check_in_date.days < data.check_out_date.days
}

/// Books a new stay.  Within one atomic step: rejects a malformed request,
/// rejects dates that overlap any existing reservation for the room, resolves
/// the room's nightly price, then inserts the customer contact and the priced,
/// audit-stamped reservation together.  On any failure the store is exactly
/// as it was — no orphan contact survives a refused booking.
pub fn create_reservation(
    store: &mut Store,
    data: &CreateOrUpdateReservationRequest,
    staff_id: i32,
    now: i64,
) -> (r: Result<(), AppError>)
    requires
        old(store).wf(),
        data.dates_wf(),
    ensures
        final(store).wf(),
        r is Err ==> *final(store) == *old(store),
        r is Ok <==> request_valid(*data) && !spec_overlap_exists(
            old(store).reservations@,
            data.room_id,
            data.check_in_date,
            data.check_out_date,
            None,
        ) && spec_room_rate(*old(store), data.room_id) is Some && ids_available_for_create(
            *old(store),
        ),
        r matches Err(e) ==> (e.is_validation_error() <==> !request_valid(*data)),
        r matches Err(e) ==> (request_valid(*data) ==> (e.is_conflict() <==> spec_overlap_exists(
            old(store).reservations@,
            data.room_id,
            data.check_in_date,
            data.check_out_date,
            None,
        ))),
        r matches Err(e) ==> (request_valid(*data) && !spec_overlap_exists(
            old(store).reservations@,
            data.room_id,
            data.check_in_date,
            data.check_out_date,
            None,
        ) ==> (e.is_not_found() <==> spec_room_rate(*old(store), data.room_id) is None)),
        r matches Err(e) ==> (request_valid(*data) && !spec_overlap_exists(
            old(store).reservations@,
            data.room_id,
            data.check_in_date,
            data.check_out_date,
            None,
        ) && spec_room_rate(*old(store), data.room_id) is Some ==> e.is_storage_failure()),
        r is Ok ==> create_effects(*old(store), *final(store), *data, staff_id, now),
{
    if !validate_request(data) {
        return Err(
            AppError::ValidationError(
                "Unknown status, or check-out not after check-in.".to_owned(),
            ),
        );
    }
    if has_overlap(store, data.room_id, data.check_in_date, data.check_out_date, None) {
        return Err(AppError::Conflict("Dates overlap with an existing reservation.".to_owned()));
    }
    let room = match store.find_room_with_type(data.room_id) {
        Some(room) => room,
        None => {
            return Err(AppError::NotFound("Room or room type not found.".to_owned()));
        },
    };
    if store.next_reservation_id == i32::MAX || store.next_customer_contact_id == i32::MAX {
        return Err(AppError::StorageFailure("Identifier space exhausted.".to_owned()));
    }
    let total_price = price(data.check_in_date, data.check_out_date, room.price_per_night);
    let is_confirmed = status_matches(&data.status, "confirmed");

    let contact_id = store.next_customer_contact_id;
    let contact = CustomerContact {
        id: contact_id,
        full_name: data.full_name.clone(),
        email: data.email.clone(),
        phone_number: data.phone_number.clone(),
        created_at: now,
        updated_at: now,
    };
    store.customer_contacts.push(contact);
    store.next_customer_contact_id = contact_id + 1;

    let reservation_id = store.next_reservation_id;
    let reservation = Reservation {
        id: reservation_id,
        room_id: data.room_id,
        customer_contact_id: contact_id,
        check_in_date: data.check_in_date,
        check_out_date: data.check_out_date,
        total_price,
        status: data.status.clone(),
        created_by: Some(staff_id),
        created_at: now,
        updated_by: Some(staff_id),
        updated_at: now,
        confirmed_by: if is_confirmed {
            Some(staff_id)
        } else {
            None
        },
        confirmed_at: if is_confirmed {
            Some(now)
        } else {
            None
        },
        cancelled_by: None,
        cancelled_at: None,
    };
    store.reservations.push(reservation);
    store.next_reservation_id = reservation_id + 1;

    proof {
        let pre = *old(store);
        let rs1 = pre.reservations@;
        let rs2 = store.reservations@;
        assert forall|i: int, j: int| 0 <= i < j < rs2.len() implies (#[trigger] rs2[i]).id != (
        #[trigger] rs2[j]).id by {
            if j < rs1.len() {
                assert(rs2[i] == rs1[i] && rs2[j] == rs1[j]);
            } else {
                assert(rs2[i] == rs1[i]);
            }
        }
        assert forall|i: int| 0 <= i < rs2.len() implies 1 <= (#[trigger] rs2[i]).id
            < store.next_reservation_id by {
            if i < rs1.len() {
                assert(rs2[i] == rs1[i]);
            }
        }
        assert forall|i: int| 0 <= i < rs2.len() implies {
            let r = #[trigger] rs2[i];
            r.check_in_date.wf() && r.check_out_date.wf() && r.check_in_date.days
                < r.check_out_date.days && valid_status(r.status@)
        } by {
            if i < rs1.len() {
                assert(rs2[i] == rs1[i]);
            }
        }
        assert forall|i: int, j: int|
            0 <= i < j < rs2.len() && (#[trigger] rs2[i]).room_id == (
            #[trigger] rs2[j]).room_id implies !crate::overlap::ranges_overlap(
            rs2[i].check_in_date,
            rs2[i].check_out_date,
            rs2[j].check_in_date,
            rs2[j].check_out_date,
        ) by {
            if j < rs1.len() {
                assert(rs2[i] == rs1[i] && rs2[j] == rs1[j]);
            } else {
                assert(rs2[i] == rs1[i]);
                assert(!crate::overlap::conflicts_with(
                    rs1[i],
                    data.room_id,
                    data.check_in_date,
                    data.check_out_date,
                    None,
                ));
            }
        }
        let cs1 = pre.customer_contacts@;
        let cs2 = store.customer_contacts@;
        assert forall|i: int, j: int| 0 <= i < j < cs2.len() implies (#[trigger] cs2[i]).id != (
        #[trigger] cs2[j]).id by {
            if j < cs1.len() {
                assert(cs2[i] == cs1[i] && cs2[j] == cs1[j]);
            } else {
                assert(cs2[i] == cs1[i]);
            }
        }
        assert forall|i: int| 0 <= i < cs2.len() implies 1 <= (#[trigger] cs2[i]).id
            < store.next_customer_contact_id by {
            if i < cs1.len() {
                assert(cs2[i] == cs1[i]);
            }
        }
    }
    Ok(())
}

/// Rewrites an existing stay.  Within one atomic step: rejects a malformed
/// request, loads the reservation, resolves the room's nightly price, and
/// rejects dates that overlap any reservation for the room other than this
/// one; then rewrites the linked customer contact and the reservation
/// together.  On any failure the store is exactly as it was.
pub fn update_reservation_by_id(
    store: &mut Store,
    reservation_id: i32,
    data: &CreateOrUpdateReservationRequest,
    staff_id: i32,
    now: i64,
) -> (r: Result<(), AppError>)
    requires
        old(store).wf(),
        data.dates_wf(),
    ensures
        final(store).wf(),
        r is Err ==> *final(store) == *old(store),
        r is Ok <==> request_valid(*data) && spec_find_reservation(
            old(store).reservations@,
            reservation_id,
        ) is Some && spec_room_rate(*old(store), data.room_id) is Some && !spec_overlap_exists(
            old(store).reservations@,
            data.room_id,
            data.check_in_date,
            data.check_out_date,
            Some(reservation_id),
        ),
        r matches Err(e) ==> (e.is_validation_error() <==> !request_valid(*data)),
        r matches Err(e) ==> (request_valid(*data) ==> (e.is_not_found() <==> (
        spec_find_reservation(old(store).reservations@, reservation_id) is None
            || spec_room_rate(*old(store), data.room_id) is None))),
        r matches Err(e) ==> (request_valid(*data) && spec_find_reservation(
            old(store).reservations@,
            reservation_id,
        ) is Some && spec_room_rate(*old(store), data.room_id) is Some ==> e.is_conflict()),
        r is Ok ==> update_effects(
            *old(store),
            *final(store),
            reservation_id,
            *data,
            staff_id,
            now,
        ),
{
    if !validate_request(data) {
        return Err(
            AppError::ValidationError(
                "Unknown status, or check-out not after check-in.".to_owned(),
            ),
        );
    }
    let idx = match store.find_reservation_index(reservation_id) {
        Some(i) => i,
        None => {
            return Err(AppError::NotFound("Reservation not found.".to_owned()));
        },
    };
    let room = match store.find_room_with_type(data.room_id) {
        Some(room) => room,
        None => {
            return Err(AppError::NotFound("Room or room type not found.".to_owned()));
        },
    };
    if has_overlap(
        store,
        data.room_id,
        data.check_in_date,
        data.check_out_date,
        Some(reservation_id),
    ) {
        return Err(AppError::Conflict("Dates overlap with an existing reservation.".to_owned()));
    }
    let total_price = price(data.check_in_date, data.check_out_date, room.price_per_night);
    let is_confirmed = status_matches(&data.status, "confirmed");
    let is_cancelled = status_matches(&data.status, "cancelled");

    let contact_id = store.reservations[idx].customer_contact_id;
    match store.find_contact_index(contact_id) {
        Some(k) => {
            let old_c_id = store.customer_contacts[k].id;
            let old_c_created_at = store.customer_contacts[k].created_at;
            let new_c = CustomerContact {
                id: old_c_id,
                full_name: data.full_name.clone(),
                email: data.email.clone(),
                phone_number: data.phone_number.clone(),
                created_at: old_c_created_at,
                updated_at: now,
            };
            store.customer_contacts.set(k, new_c);
        },
        None => {},
    }

    let old_r = store.reservations[idx].clone();
    let new_r = Reservation {
        id: old_r.id,
        room_id: data.room_id,
        customer_contact_id: old_r.customer_contact_id,
        check_in_date: data.check_in_date,
        check_out_date: data.check_out_date,
        total_price,
        status: data.status.clone(),
        created_by: old_r.created_by,
        created_at: old_r.created_at,
        updated_by: Some(staff_id),
        updated_at: now,
        confirmed_by: if is_confirmed {
            Some(staff_id)
        } else {
            old_r.confirmed_by
        },
        confirmed_at: if is_confirmed {
            Some(now)
        } else {
            old_r.confirmed_at
        },
        cancelled_by: if is_cancelled {
            Some(staff_id)
        } else {
            old_r.cancelled_by
        },
        cancelled_at: if is_cancelled {
            Some(now)
        } else {
            old_r.cancelled_at
        },
    };
    store.reservations.set(idx, new_r);

    proof {
        let pre = *old(store);
        let rs1 = pre.reservations@;
        let rs2 = store.reservations@;
        assert forall|i: int, j: int| 0 <= i < j < rs2.len() implies (#[trigger] rs2[i]).id != (
        #[trigger] rs2[j]).id by {
            assert(rs2[i].id == rs1[i].id && rs2[j].id == rs1[j].id);
        }
        assert forall|i: int| 0 <= i < rs2.len() implies 1 <= (#[trigger] rs2[i]).id
            < store.next_reservation_id by {
            assert(rs2[i].id == rs1[i].id);
        }
        assert forall|i: int| 0 <= i < rs2.len() implies {
            let r = #[trigger] rs2[i];
            r.check_in_date.wf() && r.check_out_date.wf() && r.check_in_date.days
                < r.check_out_date.days && valid_status(r.status@)
        } by {
            if i != idx as int {
                assert(rs2[i] == rs1[i]);
            }
        }
        assert forall|i: int, j: int|
            0 <= i < j < rs2.len() && (#[trigger] rs2[i]).room_id == (
            #[trigger] rs2[j]).room_id implies !crate::overlap::ranges_overlap(
            rs2[i].check_in_date,
            rs2[i].check_out_date,
            rs2[j].check_in_date,
            rs2[j].check_out_date,
        ) by {
            if i != idx as int && j != idx as int {
                assert(rs2[i] == rs1[i] && rs2[j] == rs1[j]);
            } else if i == idx as int {
                assert(rs2[j] == rs1[j]);
                assert(rs1[j].id != reservation_id);
                assert(!crate::overlap::conflicts_with(
                    rs1[j],
                    data.room_id,
                    data.check_in_date,
                    data.check_out_date,
                    Some(reservation_id),
                ));
            } else {
                assert(rs2[i] == rs1[i]);
                assert(rs1[i].id != reservation_id);
                assert(!crate::overlap::conflicts_with(
                    rs1[i],
                    data.room_id,
                    data.check_in_date,
                    data.check_out_date,
                    Some(reservation_id),
                ));
            }
        }
        let cs1 = pre.customer_contacts@;
        let cs2 = store.customer_contacts@;
        assert forall|i: int, j: int| 0 <= i < j < cs2.len() implies (#[trigger] cs2[i]).id != (
        #[trigger] cs2[j]).id by {
            assert(cs2[i].id == cs1[i].id && cs2[j].id == cs1[j].id);
        }
        assert forall|i: int| 0 <= i < cs2.len() implies 1 <= (#[trigger] cs2[i]).id
            < store.next_customer_contact_id by {
            assert(cs2[i].id == cs1[i].id);
        }
    }
    Ok(())
}


/// How many pages `total` rows split into at `page_size` rows a page: the
/// quotient, rounded up.
pub open spec fn spec_ceil_div(total: int, page_size: int) -> int {
    (total + page_size - 1) / page_size
}

/// How many rows page `page` holds when `total` rows are split into pages of
/// `page_size`: a full page, the remainder on the last page, and nothing at
/// all beyond the end.
pub open spec fn spec_page_len(total: int, page: int, page_size: int) -> int {
    let offset = (page - 1) * page_size;
    if offset >= total {
        0
    } else if total - offset < page_size {
        total - offset
    } else {
        page_size
    }
}

/// `row` is the listing row for the reservation at position `i`: the
/// reservation itself, left-joined with its room, with that room's type, and
/// with its customer contact, each `None` when the referenced record is not
/// there (and the room type also `None` when the room itself is gone or has
/// no type).
pub open spec fn spec_join_row(store: Store, i: int, row: ReservationWithJoin) -> bool {
    let resv = store.reservations@[i];
    &&& row.reservation == resv
    &&& row.room == spec_find_room(store.rooms@, resv.room_id)
    &&& row.room_type == (match spec_find_room(store.rooms@, resv.room_id) {
        Some(room) => match room.type_id {
            Some(t) => spec_find_room_type(store.room_types@, t),
            None => None,
        },
        None => None,
    })
    &&& row.customer_contact == spec_find_contact(store.customer_contacts@, resv.customer_contact_id)
}

/// Rounding up a positive quotient is one more than rounding down the
/// quotient of its predecessor.
pub proof fn lemma_ceil_div_step(total: int, page_size: int)
    requires
        total >= 1,
        page_size >= 1,
    ensures
        spec_ceil_div(total, page_size) == (total - 1) / page_size + 1,
{
    lemma_fundamental_div_mod(total - 1, page_size);
    lemma_mod_pos_bound(total - 1, page_size);
    let q = (total - 1) / page_size;
    let m = (total - 1) % page_size;
    assert((q + 1) * page_size == q * page_size + page_size) by (nonlinear_arith);
    assert(q * page_size == page_size * q) by (nonlinear_arith);
    assert(total + page_size - 1 == (q + 1) * page_size + m);
    lemma_fundamental_div_mod_converse(total + page_size - 1, page_size, q + 1, m);
}

/// One page of the reservation listing, each row joined with its room, room
/// type and customer contact, together with the pagination metadata: the
/// total row count, the page count it implies, and the page asked for.
/// Rows come in storage order; pages beyond the end come back empty.
pub fn get_reservations_with_pagination(store: &Store, page: i64, page_size: i64) -> (r: (
    Vec<ReservationWithJoin>,
    PaginationMeta,
))
    requires
        store.wf(),
        1 <= page,
        1 <= page_size,
        page * page_size <= i64::MAX,
    ensures
        r.1 == (PaginationMeta {
            total_items: store.reservations@.len() as i64,
            total_pages: spec_ceil_div(store.reservations@.len() as int, page_size as int) as i64,
            current_page: page,
            page_size,
        }),
        r.0@.len() == spec_page_len(
            store.reservations@.len() as int,
            page as int,
            page_size as int,
        ),
        forall|k: int|
            0 <= k < r.0@.len() ==> spec_join_row(
                *store,
                (page - 1) * page_size + k,
                #[trigger] r.0@[k],
            ),
{
    let total_usize = store.reservations.len();
    proof {
        assert(store.reservations@.len() < 0x8000_0000int);
    }
    let total = total_usize as i64;
    let total_pages: i64 = if total == 0 {
        0
    } else {
        (total - 1) / page_size + 1
    };
    proof {
        if total > 0 {
            lemma_ceil_div_step(total as int, page_size as int);
            assert((total - 1) as int / page_size as int <= total - 1) by (nonlinear_arith)
                requires
                    total >= 1,
                    page_size >= 1,
            ;
            assert((total - 1) as int / page_size as int >= 0) by (nonlinear_arith)
                requires
                    total >= 1,
                    page_size >= 1,
            ;
        } else {
            assert(spec_ceil_div(0, page_size as int) == 0) by (nonlinear_arith)
                requires
                    page_size >= 1,
            ;
        }
        assert((page - 1) * page_size == page * page_size - page_size) by (nonlinear_arith);
        assert((page - 1) * page_size >= 0) by (nonlinear_arith)
            requires
                page >= 1,
                page_size >= 1,
        ;
    }
    let offset = (page - 1) * page_size;
    let mut rows: Vec<ReservationWithJoin> = Vec::new();
    if offset < total {
        let start = offset as usize;
        let remaining: i64 = total - offset;
        let count_i64: i64 = if remaining < page_size {
            remaining
        } else {
            page_size
        };
        let count: usize = count_i64 as usize;
        let mut i: usize = 0;
        while i < count
            invariant
                store.wf(),
                i <= count,
                rows@.len() == i,
                total_usize == store.reservations@.len(),
                start + count <= total_usize,
                start == (page - 1) * page_size,
                forall|k: int|
                    0 <= k < i ==> spec_join_row(*store, start + k, #[trigger] rows@[k]),
            decreases count - i,
        {
            let idx = start + i;
            let resv = store.reservations[idx].clone();
            let room = match store.find_room_index(resv.room_id) {
                Some(j) => Some(store.rooms[j].clone()),
                None => None,
            };
            let room_type = match &room {
                Some(rm) => match rm.type_id {
                    Some(t) => match store.find_room_type_index(t) {
                        Some(k) => Some(store.room_types[k].clone()),
                        None => None,
                    },
                    None => None,
                },
                None => None,
            };
            let customer_contact = match store.find_contact_index(resv.customer_contact_id) {
                Some(k) => Some(store.customer_contacts[k].clone()),
                None => None,
            };
            rows.push(ReservationWithJoin { reservation: resv, room, room_type, customer_contact });
            i = i + 1;
        }
    }
    let meta = PaginationMeta { total_items: total, total_pages, current_page: page, page_size };
    (rows, meta)
}


/// Moving a reservation onto its own room and dates never conflicts: once
/// that reservation itself is excluded from the comparison set, a
/// double-booking-free store holds no other reservation that overlaps its
/// range.  An update that re-submits a reservation's current room and stay
/// therefore never fails the overlap check.
pub proof fn lemma_update_own_dates_no_conflict(store: Store, i: int)
    requires
        store.wf(),
        0 <= i < store.reservations@.len(),
    ensures
        !spec_overlap_exists(
            store.reservations@,
            store.reservations@[i].room_id,
            store.reservations@[i].check_in_date,
            store.reservations@[i].check_out_date,
            Some(store.reservations@[i].id),
        ),
{
    let rs = store.reservations@;
    let target = rs[i];
    assert forall|j: int| 0 <= j < rs.len() implies !crate::overlap::conflicts_with(
        #[trigger] rs[j],
        target.room_id,
        target.check_in_date,
        target.check_out_date,
        Some(target.id),
    ) by {
        if j != i && rs[j].room_id == target.room_id {
            if j < i {
                assert(!crate::overlap::ranges_overlap(
                    rs[j].check_in_date,
                    rs[j].check_out_date,
                    target.check_in_date,
                    target.check_out_date,
                ));
            } else {
                assert(!crate::overlap::ranges_overlap(
                    target.check_in_date,
                    target.check_out_date,
                    rs[j].check_in_date,
                    rs[j].check_out_date,
                ));
            }
        }
    }
}

} // verus!
