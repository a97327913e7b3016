//! Uptime: whole seconds elapsed since process start, and its
//! human-readable rendering.
use vstd::prelude::*;

use crate::numfmt::append_dec_signed;
use crate::numfmt::spec_dec_signed;
use crate::valid_second;

verus! {

/// Whole seconds elapsed from `start` to `now`; negative if the clock
/// moved backwards past the start instant.
pub open spec fn spec_uptime_seconds(start: i64, now: i64) -> int {
    now - start
}

/// Division truncating toward zero, as machine integer division does.
pub open spec fn spec_trunc_div(v: int, d: int) -> int {
    if v >= 0 {
        v / d
    } else {
        -((-v) / d)
    }
}

/// The human-readable uptime line. Hours are the whole elapsed hours and
/// minutes the whole elapsed minutes: the minutes deliberately count the
/// full duration rather than the remainder past the hour, so 3725 seconds
/// reads "1 hours, 62 minutes".
pub open spec fn spec_uptime_human(u: int) -> Seq<char> {
    spec_dec_signed(spec_trunc_div(u, 3600)) + " hours, "@ + spec_dec_signed(spec_trunc_div(u, 60))
        + " minutes"@
}

/// Uptime in whole seconds between a start instant and the current instant.
pub fn uptime_seconds(start: i64, now: i64) -> (r: i64)
    requires
        valid_second(start),
        valid_second(now),
    ensures
        r == spec_uptime_seconds(start, now),
{
    now - start
}

/// The magnitude of a machine integer, as the unsigned type that can hold
/// all of them.
fn magnitude(v: i64) -> (m: u64)
    ensures
        m == if v >= 0 {
            v as int
        } else {
            -(v as int)
        },
{
    if v >= 0 {
        v as u64
    } else {
        ((-(v + 1)) as u64) + 1
    }
}

/// Renders an uptime in seconds as its human-readable line.
pub fn uptime_human(uptime: i64) -> (r: String)
    ensures
        r@ == spec_uptime_human(uptime as int),
{
    let neg = uptime < 0;
    let m = magnitude(uptime);
    let mut s = String::new();
    append_dec_signed(&mut s, neg, m / 3600);
    s.append(" hours, ");
    append_dec_signed(&mut s, neg, m / 60);
    s.append(" minutes");
    proof {
        assert(s@ =~= spec_uptime_human(uptime as int));
    }
    s
}

/// Liveness never regresses: with the same start instant, a later clock
/// reading never yields a smaller uptime, so repeated health reports are
/// monotonically non-decreasing with wall-clock time.
pub proof fn lemma_uptime_monotone(start: i64, now1: i64, now2: i64)
    requires
        now1 <= now2,
    ensures
        spec_uptime_seconds(start, now1) <= spec_uptime_seconds(start, now2),
{
}

} // verus!
