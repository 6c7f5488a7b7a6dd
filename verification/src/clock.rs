//! Timestamps made of a UTC day and a time of day.

use vstd::prelude::*;

verus! {

/// The first second of the UTC day that holds the second `now`.
pub open spec fn day_start(now: int) -> int {
    now - now % 86_400
}

/// A time of day on the 24-hour clock.
pub open spec fn valid_time_of_day(hour: int, min: int, sec: int) -> bool {
    0 <= hour < 24 && 0 <= min < 60 && 0 <= sec < 60
}

/// The second of the day at which the clock shows `hour:min:sec`.
pub open spec fn second_of_day(hour: int, min: int, sec: int) -> int {
    hour * 3600 + min * 60 + sec
}

/// The second at which the clock shows `hour:min:sec` on the UTC day of
/// `now`; `None` where that is no time of day, or the second is outside `i64`.
pub open spec fn timestamp_on_day(now: int, hour: int, min: int, sec: int) -> Option<i64> {
    let ts = day_start(now) + second_of_day(hour, min, sec);
    if valid_time_of_day(hour, min, sec) && i64::MIN <= ts <= i64::MAX {
        Some(ts as i64)
    } else {
        None
    }
}

/// Replaces the time of day of `now` by `hour:min:sec` and keeps its UTC day.
pub fn with_time_of_day(now: i64, hour: u32, min: u32, sec: u32) -> (r: Option<i64>)
    ensures
        r == timestamp_on_day(now as int, hour as int, min as int, sec as int),
{
    if hour >= 24 || min >= 60 || sec >= 60 {
        return None;
    }
    let wide: i128 = now as i128;
    let into_day: i128 = if wide >= 0 {
        wide % 86_400
    } else {
        let back: i128 = (-wide) % 86_400;
        if back == 0 {
            0
        } else {
            86_400 - back
        }
    };
    assert(into_day == (now as int) % 86_400);
    let ts: i128 = wide - into_day + (hour as i128) * 3600 + (min as i128) * 60 + (sec as i128);
    if ts < i64::MIN as i128 || ts > i64::MAX as i128 {
        None
    } else {
        Some(ts as i64)
    }
}

/// A timestamp rebuilt from a valid time of day lies on the UTC day of `now`
/// and shows that time of day; and it exists wherever `now` is at least a
/// day away from the ends of `i64`.
pub proof fn time_of_day_is_kept(now: int, hour: int, min: int, sec: int)
    requires
        valid_time_of_day(hour, min, sec),
    ensures
        i64::MIN + 86_400 <= now <= i64::MAX - 86_400 ==> timestamp_on_day(
            now,
            hour,
            min,
            sec,
        ) is Some,
        timestamp_on_day(now, hour, min, sec) matches Some(ts) ==> {
            &&& ts / 86_400 == now / 86_400
            &&& ts % 86_400 == second_of_day(hour, min, sec)
            &&& (ts % 86_400) / 3600 == hour
            &&& (ts % 3600) / 60 == min
            &&& ts % 60 == sec
        },
{
    let day = now / 86_400;
    let ts = day_start(now) + second_of_day(hour, min, sec);
    assert(day_start(now) == 86_400 * day);
    assert(0 <= second_of_day(hour, min, sec) < 86_400);
    lemma_split(ts, 86_400, day, second_of_day(hour, min, sec));
    lemma_split(second_of_day(hour, min, sec), 3600, hour, min * 60 + sec);
    lemma_split(ts, 3600, day * 24 + hour, min * 60 + sec);
    lemma_split(min * 60 + sec, 60, min, sec);
    lemma_split(ts, 60, day * 1440 + hour * 60 + min, sec);
}

/// A number written as `d * q + r` with `0 <= r < d` has quotient `q` and remainder `r`.
proof fn lemma_split(x: int, d: int, q: int, r: int)
    by (nonlinear_arith)
    requires
        d > 0,
        0 <= r < d,
        x == d * q + r,
    ensures
        x / d == q,
        x % d == r,
{
    vstd::arithmetic::div_mod::lemma_fundamental_div_mod_converse(x, d, q, r);
}

/// A time of day that the 24-hour clock does not have gives no timestamp.
pub proof fn invalid_time_of_day_is_rejected(now: int, hour: int, min: int, sec: int)
    requires
        !valid_time_of_day(hour, min, sec),
    ensures
        timestamp_on_day(now, hour, min, sec) is None,
{
}

} // verus!
