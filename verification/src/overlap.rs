use crate::dates::Date;
use crate::models::Reservation;
use crate::store::Store;
use vstd::prelude::*;

verus! {

/// `d` is a calendar day of the closed range [`lo`, `hi`].
pub open spec fn day_in_range(d: int, lo: Date, hi: Date) -> bool {
    lo.days <= d <= hi.days
}

/// The inclusive-boundary overlap test on two stays: the ranges conflict as
/// soon as an endpoint of one falls within the other, so a stay ending on
/// some day and another beginning on that same day are already in conflict.
pub open spec fn ranges_overlap(a_in: Date, a_out: Date, b_in: Date, b_out: Date) -> bool {
    ||| day_in_range(b_in.days as int, a_in, a_out)
    ||| day_in_range(b_out.days as int, a_in, a_out)
    ||| day_in_range(a_in.days as int, b_in, b_out)
    ||| day_in_range(a_out.days as int, b_in, b_out)
}

/// Reservation `r` blocks a stay on `room_id` over [`check_in`, `check_out`]:
/// it sits on the same room, it is not the one reservation excluded from the
/// comparison, and its range overlaps the proposed one.  Its status plays no
/// part: a cancelled reservation still blocks its dates.
pub open spec fn conflicts_with(
    r: Reservation,
    room_id: i32,
    check_in: Date,
    check_out: Date,
    exclude: Option<i32>,
) -> bool {
    &&& r.room_id == room_id
    &&& (match exclude {
        Some(id) => r.id != id,
        None => true,
    })
    &&& ranges_overlap(r.check_in_date, r.check_out_date, check_in, check_out)
}

/// Some reservation of `rs` conflicts with the proposed stay.
pub open spec fn spec_overlap_exists(
    rs: Seq<Reservation>,
    room_id: i32,
    check_in: Date,
    check_out: Date,
    exclude: Option<i32>,
) -> bool {
    exists|i: int|
        0 <= i < rs.len() && conflicts_with(#[trigger] rs[i], room_id, check_in, check_out, exclude)
}

/// Whether any existing reservation for `room_id` intersects the proposed
/// range, endpoints included.  When `exclude_reservation_id` is given (the
/// update path), that one reservation is left out of the comparison set.
pub fn has_overlap(
    store: &Store,
    room_id: i32,
    check_in: Date,
    check_out: Date,
    exclude_reservation_id: Option<i32>,
) -> (r: bool)
    ensures
        r == spec_overlap_exists(
            store.reservations@,
            room_id,
            check_in,
            check_out,
            exclude_reservation_id,
        ),
{
    let n = store.reservations.len();
    let mut i: usize = 0;
    while i < n
        invariant
            i <= n,
            n == store.reservations@.len(),
            forall|j: int|
                0 <= j < i ==> !conflicts_with(
                    #[trigger] store.reservations@[j],
                    room_id,
                    check_in,
                    check_out,
                    exclude_reservation_id,
                ),
        decreases n - i,
    {
        let r = &store.reservations[i];
        let excluded = match exclude_reservation_id {
            Some(id) => r.id == id,
            None => false,
        };
        if r.room_id == room_id && !excluded {
            let overlap = (r.check_in_date.days <= check_in.days && check_in.days
                <= r.check_out_date.days) || (r.check_in_date.days <= check_out.days
                && check_out.days <= r.check_out_date.days) || (check_in.days
                <= r.check_in_date.days && r.check_in_date.days <= check_out.days) || (check_in.days
                <= r.check_out_date.days && r.check_out_date.days <= check_out.days);
            if overlap {
                return true;
            }
        }
        i = i + 1;
    }
    false
}

/// Two well-formed closed date ranges overlap exactly when they share at
/// least one calendar day, endpoints included.
pub proof fn lemma_overlap_iff_shares_day(a_in: Date, a_out: Date, b_in: Date, b_out: Date)
    requires
        a_in.days <= a_out.days,
        b_in.days <= b_out.days,
    ensures
        ranges_overlap(a_in, a_out, b_in, b_out) <==> exists|d: int|
            day_in_range(d, a_in, a_out) && day_in_range(d, b_in, b_out),
{
    if ranges_overlap(a_in, a_out, b_in, b_out) {
        if day_in_range(b_in.days as int, a_in, a_out) {
            assert(day_in_range(b_in.days as int, a_in, a_out) && day_in_range(b_in.days as int, b_in, b_out));
        } else if day_in_range(b_out.days as int, a_in, a_out) {
            assert(day_in_range(b_out.days as int, a_in, a_out) && day_in_range(b_out.days as int, b_in, b_out));
        } else if day_in_range(a_in.days as int, b_in, b_out) {
            assert(day_in_range(a_in.days as int, a_in, a_out) && day_in_range(a_in.days as int, b_in, b_out));
        } else {
            assert(day_in_range(a_out.days as int, a_in, a_out) && day_in_range(a_out.days as int, b_in, b_out));
        }
    }
    if exists|d: int| day_in_range(d, a_in, a_out) && day_in_range(d, b_in, b_out) {
        let d = choose|d: int| day_in_range(d, a_in, a_out) && day_in_range(d, b_in, b_out);
        if a_in.days <= b_in.days {
            assert(day_in_range(b_in.days as int, a_in, a_out));
        } else {
            assert(day_in_range(a_in.days as int, b_in, b_out));
        }
    }
}


/// One half of the overlap law: when a stored reservation sits on the room
/// and its closed date range shares the calendar day `d` with the proposed
/// closed range, the overlap check finds a conflict.
pub proof fn lemma_overlap_found_when_intervals_intersect(
    store: Store,
    i: int,
    b_in: Date,
    b_out: Date,
    d: int,
)
    requires
        0 <= i < store.reservations@.len(),
        day_in_range(
            d,
            store.reservations@[i].check_in_date,
            store.reservations@[i].check_out_date,
        ),
        day_in_range(d, b_in, b_out),
    ensures
        spec_overlap_exists(
            store.reservations@,
            store.reservations@[i].room_id,
            b_in,
            b_out,
            None,
        ),
{
    let r = store.reservations@[i];
    if r.check_in_date.days <= b_in.days {
        assert(day_in_range(b_in.days as int, r.check_in_date, r.check_out_date));
    } else {
        assert(day_in_range(r.check_in_date.days as int, b_in, b_out));
    }
    assert(conflicts_with(store.reservations@[i], r.room_id, b_in, b_out, None));
}

/// The other half of the overlap law: when every reservation for the room is
/// fully disjoint from the proposed range — its whole stay ends before the
/// range begins or starts after it ends, sharing not even a boundary day —
/// the overlap check finds nothing.
pub proof fn lemma_no_overlap_when_intervals_disjoint(
    store: Store,
    room_id: i32,
    b_in: Date,
    b_out: Date,
)
    requires
        store.wf(),
        b_in.days <= b_out.days,
        forall|i: int|
            0 <= i < store.reservations@.len() && (#[trigger] store.reservations@[i]).room_id
                == room_id ==> (store.reservations@[i].check_out_date.days < b_in.days
                || b_out.days < store.reservations@[i].check_in_date.days),
    ensures
        !spec_overlap_exists(store.reservations@, room_id, b_in, b_out, None),
{
    assert forall|i: int| 0 <= i < store.reservations@.len() implies !conflicts_with(
        #[trigger] store.reservations@[i],
        room_id,
        b_in,
        b_out,
        None,
    ) by {
        let r = store.reservations@[i];
        if r.room_id == room_id {
            assert(r.check_in_date.days <= r.check_out_date.days);
        }
    }
}

} // verus!
