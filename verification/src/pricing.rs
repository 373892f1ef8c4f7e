use crate::dates::{spec_nights, Date, MAX_DATE_DAYS};
use vstd::prelude::*;

verus! {

/// Total price of a stay: the number of whole days from `check_in` to
/// `check_out` — the nights slept — times the nightly rate.  A pure
/// function; callers reject a stay whose check-out does not fall strictly
/// after its check-in before pricing it.
pub fn price(check_in: Date, check_out: Date, nightly_rate: i32) -> (r: i64)
    requires
        check_in.wf(),
        check_out.wf(),
        check_in.days < check_out.days,
    ensures
        r == spec_nights(check_in, check_out) * nightly_rate,
{
    let nights: i64 = check_out.days - check_in.days;
    proof {
        assert(nights * nightly_rate <= 2 * MAX_DATE_DAYS * 0x8000_0000i64 && nights * nightly_rate
            >= -(2 * MAX_DATE_DAYS * 0x8000_0000i64)) by (nonlinear_arith)
            requires
                0 < nights <= 2 * MAX_DATE_DAYS,
                -0x8000_0000 <= nightly_rate < 0x8000_0000,
        ;
    }
    nights * (nightly_rate as i64)
}

} // verus!
