//! When the bar repaints on its own: at the turn of each minute for the
//! clock, and of each second while a panel shows seconds.

use vstd::prelude::*;

verus! {

pub const CLOCK_TICK_SECONDS: u64 = 60;

pub const NANOS_PER_SECOND: u64 = 1_000_000_000;

/// Whole seconds to the next minute, given the seconds since the Unix
/// epoch (`None` for a clock set before it): a full minute then, and never
/// less than one second.
pub open spec fn secs_until_next_minute_spec(since_epoch: Option<u64>) -> u64 {
    match since_epoch {
        Some(secs) => (CLOCK_TICK_SECONDS - secs % CLOCK_TICK_SECONDS) as u64,
        None => CLOCK_TICK_SECONDS,
    }
}

pub fn secs_until_next_minute(since_epoch: Option<u64>) -> (r: u64)
    ensures
        r == secs_until_next_minute_spec(since_epoch),
        1 <= r <= CLOCK_TICK_SECONDS,
{
    match since_epoch {
        Some(secs) => {
            let left = CLOCK_TICK_SECONDS - secs % CLOCK_TICK_SECONDS;
            if left < 1 { 1 } else { left }
        },
        None => CLOCK_TICK_SECONDS,
    }
}

/// Nanoseconds to the next second, given the nanoseconds past the current
/// one (`None` for a clock set before the epoch): a full second then, and
/// never less than one nanosecond.
pub open spec fn nanos_until_next_second_spec(subsec_nanos: Option<u32>) -> u64 {
    match subsec_nanos {
        Some(n) => if n >= NANOS_PER_SECOND { 1 } else { (NANOS_PER_SECOND - n) as u64 },
        None => NANOS_PER_SECOND,
    }
}

pub fn nanos_until_next_second(subsec_nanos: Option<u32>) -> (r: u64)
    ensures
        r == nanos_until_next_second_spec(subsec_nanos),
        1 <= r <= NANOS_PER_SECOND,
{
    match subsec_nanos {
        Some(n) => {
            let n = n as u64;
            if n >= NANOS_PER_SECOND {
                1
            } else {
                NANOS_PER_SECOND - n
            }
        },
        None => NANOS_PER_SECOND,
    }
}

/// Waking after the wait lands on the turn of a minute.
pub proof fn lemma_next_minute_lands_on_turn(secs: u64)
    requires
        secs <= u64::MAX - CLOCK_TICK_SECONDS,
    ensures
        (secs + secs_until_next_minute_spec(Some(secs))) % (CLOCK_TICK_SECONDS as int) == 0,
{
}

} // verus!
