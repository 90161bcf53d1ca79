//! The stop watch shown while working on a task.

use vstd::prelude::*;

verus! {

/// A number of seconds as hours, minutes and seconds, for the
/// "hh:mm:ss" display.
pub open spec fn spec_split_clock(total: int) -> (int, int, int) {
    (total / 3600, (total % 3600) / 60, total % 60)
}

/// The elapsed time, in whole seconds, as hours, minutes and seconds.
pub fn split_clock(total_seconds: i64) -> (hms: (i64, i64, i64))
    requires
        total_seconds >= 0,
    ensures
        hms.0 == spec_split_clock(total_seconds as int).0,
        hms.1 == spec_split_clock(total_seconds as int).1,
        hms.2 == spec_split_clock(total_seconds as int).2,
{
    let hours = total_seconds / 3600;
    let minutes = (total_seconds % 3600) / 60;
    let seconds = total_seconds % 60;
    (hours, minutes, seconds)
}

/// The seconds elapsed between the start and now, whichever way round the
/// two were measured.
pub fn elapsed_seconds(signed_seconds: i64) -> (total: i64)
    requires
        signed_seconds > i64::MIN,
    ensures
        total == if signed_seconds < 0 {
            -signed_seconds
        } else {
            signed_seconds as int
        },
{
    if signed_seconds < 0 {
        -signed_seconds
    } else {
        signed_seconds
    }
}

/// The clock shows the whole elapsed time: hours, minutes and seconds add up
/// to it, with minutes and seconds below sixty.
pub proof fn lemma_split_clock(total: int)
    requires
        total >= 0,
    ensures
        spec_split_clock(total).0 * 3600 + spec_split_clock(total).1 * 60 + spec_split_clock(
            total,
        ).2 == total,
        0 <= spec_split_clock(total).1 < 60,
        0 <= spec_split_clock(total).2 < 60,
{
    let h = total / 3600;
    let r = total % 3600;
    let m = r / 60;
    let s = total % 60;
    vstd::arithmetic::div_mod::lemma_fundamental_div_mod(total, 3600);
    vstd::arithmetic::div_mod::lemma_fundamental_div_mod(r, 60);
    assert(0 <= r < 3600);
    assert(r % 60 == s) by {
        vstd::arithmetic::div_mod::lemma_mod_mod(total, 60, 60);
        assert(total == h * 3600 + r);
        vstd::arithmetic::div_mod::lemma_mod_multiples_vanish(h * 60, r, 60);
        assert(h * 3600 == (h * 60) * 60) by (nonlinear_arith);
    }
    assert(0 <= m < 60);
}

} // verus!
