use vstd::prelude::*;

verus! {

/// Nanoseconds in one second.
pub const NANOS_PER_SECOND: u32 = 1_000_000_000;

/// Seconds in one day.
pub const SECONDS_PER_DAY: i64 = 86400;

/// A UTC instant as whole seconds since the Unix epoch and the nanoseconds
/// past that second (a leap second may carry the nanoseconds past 10^9).
#[derive(Clone, Copy, Debug, PartialEq, Eq)]
pub struct UtcInstant {
    pub secs: i64,
    pub nanos: u32,
}

/// The instant in nanoseconds since the epoch.
pub open spec fn total_nanos(t: UtcInstant) -> int {
    t.secs * 1_000_000_000 + t.nanos
}

/// Whole seconds from `earlier` to `later`, truncated toward zero
/// (negative when `later` comes first).
pub open spec fn whole_seconds_between(later: UtcInstant, earlier: UtcInstant) -> int {
    let d = total_nanos(later) - total_nanos(earlier);
    if d >= 0 {
        d / 1_000_000_000
    } else {
        -((-d) / 1_000_000_000)
    }
}

/// Whole seconds from `earlier` to `later`, truncated toward zero.
pub fn seconds_between(later: &UtcInstant, earlier: &UtcInstant) -> (s: i128)
    ensures
        s as int == whole_seconds_between(*later, *earlier),
{
    let ns: i128 = NANOS_PER_SECOND as i128;
    let a: i128 = later.secs as i128 * ns + later.nanos as i128;
    let b: i128 = earlier.secs as i128 * ns + earlier.nanos as i128;
    let d: i128 = a - b;
    if d >= 0 {
        let m: u128 = d as u128;
        (m / NANOS_PER_SECOND as u128) as i128
    } else {
        let m: u128 = (-d) as u128;
        -((m / NANOS_PER_SECOND as u128) as i128)
    }
}

/// The same clock time one day (86400 s) earlier.
pub open spec fn one_day_before(t: UtcInstant) -> UtcInstant {
    UtcInstant { secs: (t.secs - 86400) as i64, nanos: t.nanos }
}

/// The instant one day before `t`.
pub fn day_before(t: UtcInstant) -> (r: UtcInstant)
    requires
        t.secs >= i64::MIN + 86400,
    ensures
        r == one_day_before(t),
        r.secs == t.secs - 86400,
        r.nanos == t.nanos,
{
    UtcInstant { secs: t.secs - SECONDS_PER_DAY, nanos: t.nanos }
}

/// The whole seconds between two instants are their elapsed time in
/// seconds, truncated toward zero: with `d` the nanoseconds from `earlier` to
/// `later`, a result `w` has `w * 10^9 <= d < (w + 1) * 10^9` when `d >= 0`
/// and `(w - 1) * 10^9 < d <= w * 10^9` when `d < 0`.
pub proof fn law_whole_seconds_truncate_elapsed_time(later: UtcInstant, earlier: UtcInstant)
    ensures
        ({
            let d = (later.secs - earlier.secs) * 1_000_000_000 + later.nanos - earlier.nanos;
            let w = whole_seconds_between(later, earlier);
            &&& d >= 0 ==> w * 1_000_000_000 <= d < w * 1_000_000_000 + 1_000_000_000
            &&& d < 0 ==> w * 1_000_000_000 - 1_000_000_000 < d <= w * 1_000_000_000
        }),
{
    let d = (later.secs - earlier.secs) * 1_000_000_000 + later.nanos - earlier.nanos;
    assert(d == total_nanos(later) - total_nanos(earlier));
    if d >= 0 {
        let q = d / 1_000_000_000;
        assert(q * 1_000_000_000 <= d < q * 1_000_000_000 + 1_000_000_000) by (nonlinear_arith)
            requires
                q == d / 1_000_000_000,
                d >= 0,
        ;
    } else {
        let q = (-d) / 1_000_000_000;
        assert(q * 1_000_000_000 <= -d < q * 1_000_000_000 + 1_000_000_000) by (nonlinear_arith)
            requires
                q == (-d) / 1_000_000_000,
                -d > 0,
        ;
    }
}

/// An instant `k` whole seconds (same nanoseconds) after another is `k`
/// seconds after it, and the other is `k` seconds before it.
pub proof fn law_shifted_instant_seconds(t: UtcInstant, k: int)
    requires
        i64::MIN <= t.secs + k <= i64::MAX,
    ensures
        whole_seconds_between(UtcInstant { secs: (t.secs + k) as i64, nanos: t.nanos }, t) == k,
        whole_seconds_between(t, UtcInstant { secs: (t.secs + k) as i64, nanos: t.nanos }) == -k,
{
    let later = UtcInstant { secs: (t.secs + k) as i64, nanos: t.nanos };
    assert(total_nanos(later) - total_nanos(t) == k * 1_000_000_000) by (nonlinear_arith)
        requires
            later.secs == t.secs + k,
            later.nanos == t.nanos,
    ;
    if k >= 0 {
        assert((k * 1_000_000_000) / 1_000_000_000 == k) by (nonlinear_arith);
    } else {
        assert(((-k) * 1_000_000_000) / 1_000_000_000 == -k) by (nonlinear_arith);
        assert(-(k * 1_000_000_000) == (-k) * 1_000_000_000) by (nonlinear_arith);
    }
    assert(total_nanos(t) - total_nanos(later) == (-k) * 1_000_000_000) by (nonlinear_arith)
        requires
            total_nanos(later) - total_nanos(t) == k * 1_000_000_000,
    ;
}

} // verus!
