use hotel_reservations::common::AppError;
use hotel_reservations::dates::Date;
use hotel_reservations::models::{
    CreateOrUpdateReservationRequest, CreateOrUpdateRoomTypesRequest, CreateRoomRequest,
};
use hotel_reservations::overlap::has_overlap;
use hotel_reservations::reservation_service::{
    create_reservation, get_reservations_with_pagination, update_reservation_by_id,
};
use hotel_reservations::room_service::{create_room, create_room_type};
use hotel_reservations::store::Store;

const STAFF: i32 = 7;
const NOW: i64 = 1_700_000_000;

fn ymd(y: i32, m: u32, d: u32) -> Date {
    Date::from_ymd(y, m, d).unwrap()
}

/// A store with room type 1 (nightly rate 100) and room 1 on that type.
fn store_with_room() -> Store {
    let mut store = Store::new();
    create_room_type(
        &mut store,
        &CreateOrUpdateRoomTypesRequest {
            name: "Standard".to_string(),
            description: None,
            price_per_night: 100,
            room_ids: None,
        },
        STAFF,
        NOW,
    )
    .unwrap();
    create_room(
        &mut store,
        &CreateRoomRequest {
            room_name: "101".to_string(),
            type_id: Some(1),
            capacity: 2,
            is_available: true,
        },
        STAFF,
        NOW,
    )
    .unwrap();
    store
}

fn request(room_id: i32, check_in: Date, check_out: Date, status: &str) -> CreateOrUpdateReservationRequest {
    CreateOrUpdateReservationRequest {
        room_id,
        check_in_date: check_in,
        check_out_date: check_out,
        status: status.to_string(),
        full_name: "Ada Guest".to_string(),
        email: "ada@example.com".to_string(),
        phone_number: "555-0101".to_string(),
    }
}

#[test]
fn create_then_conflicting_and_touching_and_disjoint() {
    let mut store = store_with_room();
    let r1 = create_reservation(
        &mut store,
        &request(1, ymd(2024, 3, 10), ymd(2024, 3, 12), "pending"),
        STAFF,
        NOW,
    );
    assert!(r1.is_ok());

    let r2 = create_reservation(
        &mut store,
        &request(1, ymd(2024, 3, 11), ymd(2024, 3, 13), "pending"),
        STAFF,
        NOW,
    );
    assert!(matches!(r2, Err(AppError::Conflict(_))));

    let r3 = create_reservation(
        &mut store,
        &request(1, ymd(2024, 3, 12), ymd(2024, 3, 14), "pending"),
        STAFF,
        NOW,
    );
    assert!(matches!(r3, Err(AppError::Conflict(_))));

    let r4 = create_reservation(
        &mut store,
        &request(1, ymd(2024, 3, 13), ymd(2024, 3, 15), "pending"),
        STAFF,
        NOW,
    );
    assert!(r4.is_ok());
    assert_eq!(store.reservations.len(), 2);
}

#[test]
fn overlap_checker_inclusive_bounds() {
    let mut store = store_with_room();
    create_reservation(
        &mut store,
        &request(1, ymd(2024, 3, 10), ymd(2024, 3, 12), "pending"),
        STAFF,
        NOW,
    )
    .unwrap();

    // Contained, straddling, and endpoint-touching ranges all overlap.
    assert!(has_overlap(&store, 1, ymd(2024, 3, 11), ymd(2024, 3, 11), None));
    assert!(has_overlap(&store, 1, ymd(2024, 3, 1), ymd(2024, 3, 31), None));
    assert!(has_overlap(&store, 1, ymd(2024, 3, 12), ymd(2024, 3, 14), None));
    assert!(has_overlap(&store, 1, ymd(2024, 3, 8), ymd(2024, 3, 10), None));

    // Fully disjoint ranges, even adjacent ones, do not.
    assert!(!has_overlap(&store, 1, ymd(2024, 3, 13), ymd(2024, 3, 15), None));
    assert!(!has_overlap(&store, 1, ymd(2024, 3, 1), ymd(2024, 3, 9), None));

    // Another room is never blocked.
    assert!(!has_overlap(&store, 2, ymd(2024, 3, 10), ymd(2024, 3, 12), None));

    // Excluding the one booked reservation frees its dates.
    assert!(!has_overlap(&store, 1, ymd(2024, 3, 10), ymd(2024, 3, 12), Some(1)));
}

#[test]
fn create_computes_price_and_links_contact() {
    let mut store = store_with_room();
    create_reservation(
        &mut store,
        &request(1, ymd(2024, 3, 10), ymd(2024, 3, 12), "pending"),
        STAFF,
        NOW,
    )
    .unwrap();
    let r = &store.reservations[0];
    assert_eq!(r.id, 1);
    assert_eq!(r.room_id, 1);
    assert_eq!(r.total_price, 200);
    assert_eq!(r.status, "pending");
    assert_eq!(r.created_by, Some(STAFF));
    assert_eq!(r.updated_by, Some(STAFF));
    assert_eq!(r.created_at, NOW);
    let c = &store.customer_contacts[0];
    assert_eq!(c.id, r.customer_contact_id);
    assert_eq!(c.full_name, "Ada Guest");
    assert_eq!(c.email, "ada@example.com");
    assert_eq!(c.phone_number, "555-0101");
}

#[test]
fn update_to_own_dates_succeeds() {
    let mut store = store_with_room();
    create_reservation(
        &mut store,
        &request(1, ymd(2024, 3, 10), ymd(2024, 3, 12), "pending"),
        STAFF,
        NOW,
    )
    .unwrap();
    // The new range equals the reservation's own current range; excluding
    // itself from the comparison set makes this succeed.
    let r = update_reservation_by_id(
        &mut store,
        1,
        &request(1, ymd(2024, 3, 10), ymd(2024, 3, 12), "pending"),
        STAFF,
        NOW + 10,
    );
    assert!(r.is_ok());
    assert_eq!(store.reservations[0].updated_at, NOW + 10);
}

#[test]
fn confirmed_status_stamps_confirmation() {
    let mut store = store_with_room();
    create_reservation(
        &mut store,
        &request(1, ymd(2024, 3, 10), ymd(2024, 3, 12), "confirmed"),
        STAFF,
        NOW,
    )
    .unwrap();
    let r = &store.reservations[0];
    assert_eq!(r.confirmed_by, Some(STAFF));
    assert_eq!(r.confirmed_at, Some(NOW));
    assert_eq!(r.cancelled_by, None);
    assert_eq!(r.cancelled_at, None);
}

#[test]
fn pending_status_stamps_neither() {
    let mut store = store_with_room();
    create_reservation(
        &mut store,
        &request(1, ymd(2024, 3, 10), ymd(2024, 3, 12), "pending"),
        STAFF,
        NOW,
    )
    .unwrap();
    let r = &store.reservations[0];
    assert_eq!(r.confirmed_by, None);
    assert_eq!(r.confirmed_at, None);
    assert_eq!(r.cancelled_by, None);
    assert_eq!(r.cancelled_at, None);
}

#[test]
fn update_statuses_stamp_and_never_clear() {
    let mut store = store_with_room();
    create_reservation(
        &mut store,
        &request(1, ymd(2024, 3, 10), ymd(2024, 3, 12), "pending"),
        STAFF,
        NOW,
    )
    .unwrap();

    let other_staff = 9;
    update_reservation_by_id(
        &mut store,
        1,
        &request(1, ymd(2024, 3, 10), ymd(2024, 3, 12), "cancelled"),
        other_staff,
        NOW + 1,
    )
    .unwrap();
    assert_eq!(store.reservations[0].cancelled_by, Some(other_staff));
    assert_eq!(store.reservations[0].cancelled_at, Some(NOW + 1));
    assert_eq!(store.reservations[0].confirmed_by, None);

    update_reservation_by_id(
        &mut store,
        1,
        &request(1, ymd(2024, 3, 10), ymd(2024, 3, 12), "confirmed"),
        STAFF,
        NOW + 2,
    )
    .unwrap();
    // Confirmation is stamped; the earlier cancellation stamp stays.
    assert_eq!(store.reservations[0].confirmed_by, Some(STAFF));
    assert_eq!(store.reservations[0].confirmed_at, Some(NOW + 2));
    assert_eq!(store.reservations[0].cancelled_by, Some(other_staff));
    assert_eq!(store.reservations[0].cancelled_at, Some(NOW + 1));

    update_reservation_by_id(
        &mut store,
        1,
        &request(1, ymd(2024, 3, 10), ymd(2024, 3, 12), "pending"),
        STAFF,
        NOW + 3,
    )
    .unwrap();
    // Any other status touches neither audit pair.
    assert_eq!(store.reservations[0].confirmed_by, Some(STAFF));
    assert_eq!(store.reservations[0].cancelled_by, Some(other_staff));
}

#[test]
fn failed_create_leaves_no_contact_row() {
    let mut store = store_with_room();
    create_reservation(
        &mut store,
        &request(1, ymd(2024, 3, 10), ymd(2024, 3, 12), "pending"),
        STAFF,
        NOW,
    )
    .unwrap();
    assert_eq!(store.customer_contacts.len(), 1);
    assert_eq!(store.reservations.len(), 1);

    let r = create_reservation(
        &mut store,
        &request(1, ymd(2024, 3, 11), ymd(2024, 3, 13), "pending"),
        STAFF,
        NOW,
    );
    assert!(matches!(r, Err(AppError::Conflict(_))));
    // Atomicity: the refused booking persisted nothing.
    assert_eq!(store.customer_contacts.len(), 1);
    assert_eq!(store.reservations.len(), 1);
    assert_eq!(store.next_customer_contact_id, 2);
}

#[test]
fn create_rejects_unknown_status() {
    let mut store = store_with_room();
    let r = create_reservation(
        &mut store,
        &request(1, ymd(2024, 3, 10), ymd(2024, 3, 12), "booked"),
        STAFF,
        NOW,
    );
    assert!(matches!(r, Err(AppError::ValidationError(_))));
    assert_eq!(store.reservations.len(), 0);
}

#[test]
fn create_rejects_non_positive_stay() {
    let mut store = store_with_room();
    let r = create_reservation(
        &mut store,
        &request(1, ymd(2024, 3, 12), ymd(2024, 3, 12), "pending"),
        STAFF,
        NOW,
    );
    assert!(matches!(r, Err(AppError::ValidationError(_))));
    let r2 = create_reservation(
        &mut store,
        &request(1, ymd(2024, 3, 12), ymd(2024, 3, 10), "pending"),
        STAFF,
        NOW,
    );
    assert!(matches!(r2, Err(AppError::ValidationError(_))));
}

#[test]
fn create_missing_room_is_not_found() {
    let mut store = store_with_room();
    let r = create_reservation(
        &mut store,
        &request(99, ymd(2024, 3, 10), ymd(2024, 3, 12), "pending"),
        STAFF,
        NOW,
    );
    assert!(matches!(r, Err(AppError::NotFound(_))));
}

#[test]
fn create_room_without_type_is_not_found() {
    let mut store = store_with_room();
    create_room(
        &mut store,
        &CreateRoomRequest {
            room_name: "102".to_string(),
            type_id: None,
            capacity: 2,
            is_available: true,
        },
        STAFF,
        NOW,
    )
    .unwrap();
    let r = create_reservation(
        &mut store,
        &request(2, ymd(2024, 3, 10), ymd(2024, 3, 12), "pending"),
        STAFF,
        NOW,
    );
    assert!(matches!(r, Err(AppError::NotFound(_))));
}

#[test]
fn update_missing_reservation_is_not_found() {
    let mut store = store_with_room();
    let r = update_reservation_by_id(
        &mut store,
        42,
        &request(1, ymd(2024, 3, 10), ymd(2024, 3, 12), "pending"),
        STAFF,
        NOW,
    );
    assert!(matches!(r, Err(AppError::NotFound(_))));
}

#[test]
fn create_exhausted_id_space_is_storage_failure() {
    let mut store = store_with_room();
    store.next_reservation_id = i32::MAX;
    let r = create_reservation(
        &mut store,
        &request(1, ymd(2024, 3, 10), ymd(2024, 3, 12), "pending"),
        STAFF,
        NOW,
    );
    assert!(matches!(r, Err(AppError::StorageFailure(_))));
    assert_eq!(store.reservations.len(), 0);
    assert_eq!(store.customer_contacts.len(), 0);
}

#[test]
fn listing_pages_over_25_reservations() {
    let mut store = store_with_room();
    let base = ymd(2024, 1, 1);
    for i in 0..25 {
        let check_in = Date { days: base.days + 2 * i };
        let check_out = Date { days: base.days + 2 * i + 1 };
        create_reservation(
            &mut store,
            &request(1, check_in, check_out, "pending"),
            STAFF,
            NOW,
        )
        .unwrap();
    }
    let (rows, meta) = get_reservations_with_pagination(&store, 2, 10);
    assert_eq!(rows.len(), 10);
    assert_eq!(meta.total_items, 25);
    assert_eq!(meta.total_pages, 3);
    assert_eq!(meta.current_page, 2);
    assert_eq!(meta.page_size, 10);
    // Storage order: page 2 starts at the eleventh reservation.
    assert_eq!(rows[0].reservation.id, 11);
    assert_eq!(rows[9].reservation.id, 20);

    let (rows3, meta3) = get_reservations_with_pagination(&store, 3, 10);
    assert_eq!(rows3.len(), 5);
    assert_eq!(meta3.total_pages, 3);

    let (rows4, _) = get_reservations_with_pagination(&store, 4, 10);
    assert_eq!(rows4.len(), 0);
}

#[test]
fn listing_joins_room_type_and_contact() {
    let mut store = store_with_room();
    create_reservation(
        &mut store,
        &request(1, ymd(2024, 3, 10), ymd(2024, 3, 12), "pending"),
        STAFF,
        NOW,
    )
    .unwrap();
    let (rows, meta) = get_reservations_with_pagination(&store, 1, 10);
    assert_eq!(meta.total_items, 1);
    assert_eq!(rows.len(), 1);
    let row = &rows[0];
    assert_eq!(row.room.as_ref().unwrap().room_name, "101");
    assert_eq!(row.room_type.as_ref().unwrap().price_per_night, 100);
    assert_eq!(row.customer_contact.as_ref().unwrap().full_name, "Ada Guest");
}

#[test]
fn listing_left_join_tolerates_missing_room() {
    let mut store = store_with_room();
    create_reservation(
        &mut store,
        &request(1, ymd(2024, 3, 10), ymd(2024, 3, 12), "pending"),
        STAFF,
        NOW,
    )
    .unwrap();
    // Tear the room out from under the reservation; the row still lists,
    // with its joined fields absent.
    store.rooms.clear();
    let (rows, _) = get_reservations_with_pagination(&store, 1, 10);
    assert_eq!(rows.len(), 1);
    assert!(rows[0].room.is_none());
    assert!(rows[0].room_type.is_none());
    assert!(rows[0].customer_contact.is_some());
}

#[test]
fn cancelled_reservation_still_blocks_dates() {
    let mut store = store_with_room();
    create_reservation(
        &mut store,
        &request(1, ymd(2024, 3, 10), ymd(2024, 3, 12), "pending"),
        STAFF,
        NOW,
    )
    .unwrap();
    update_reservation_by_id(
        &mut store,
        1,
        &request(1, ymd(2024, 3, 10), ymd(2024, 3, 12), "cancelled"),
        STAFF,
        NOW + 1,
    )
    .unwrap();
    // The overlap check applies no status filter: even a cancelled
    // reservation keeps blocking its dates.
    let r = create_reservation(
        &mut store,
        &request(1, ymd(2024, 3, 11), ymd(2024, 3, 13), "pending"),
        STAFF,
        NOW + 2,
    );
    assert!(matches!(r, Err(AppError::Conflict(_))));
}

#[test]
fn update_onto_occupied_room_is_conflict() {
    let mut store = store_with_room();
    create_room(
        &mut store,
        &CreateRoomRequest {
            room_name: "102".to_string(),
            type_id: Some(1),
            capacity: 2,
            is_available: true,
        },
        STAFF,
        NOW,
    )
    .unwrap();
    create_reservation(
        &mut store,
        &request(1, ymd(2024, 3, 10), ymd(2024, 3, 12), "pending"),
        STAFF,
        NOW,
    )
    .unwrap();
    create_reservation(
        &mut store,
        &request(2, ymd(2024, 3, 10), ymd(2024, 3, 12), "pending"),
        STAFF,
        NOW,
    )
    .unwrap();
    // Moving reservation 2 onto room 1 over the same dates clashes with
    // reservation 1; moving it to free dates on room 1 succeeds.
    let clash = update_reservation_by_id(
        &mut store,
        2,
        &request(1, ymd(2024, 3, 10), ymd(2024, 3, 12), "pending"),
        STAFF,
        NOW + 1,
    );
    assert!(matches!(clash, Err(AppError::Conflict(_))));
    assert_eq!(store.reservations[1].room_id, 2);
    let moved = update_reservation_by_id(
        &mut store,
        2,
        &request(1, ymd(2024, 3, 13), ymd(2024, 3, 15), "pending"),
        STAFF,
        NOW + 2,
    );
    assert!(moved.is_ok());
    assert_eq!(store.reservations[1].room_id, 1);
}
