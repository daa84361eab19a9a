//! Arithmetic of the tick counter that paces the main loop.
//!
//! The counter advances once every ten milliseconds. Reading and advancing it
//! is the caller's business; this module decides how long a delay lasts.

use vstd::prelude::*;

verus! {

/// Milliseconds between two ticks.
pub const MILLIS_PER_TICK: u32 = 10;

/// The counter value at which a delay of `millis` milliseconds that starts at
/// `now` is over: `now` plus the whole ticks in `millis`.
pub open spec fn delay_end(now: u32, millis: u128) -> int {
    now + millis / 10
}

/// The counter value to wait for, or `None` where that value does not fit the
/// counter.
pub fn delay_target(now: u32, millis: u128) -> (r: Option<u32>)
    ensures
        r == (if delay_end(now, millis) <= u32::MAX {
            Some(delay_end(now, millis) as u32)
        } else {
            None
        }),
{
    let units: u128 = millis / 10;
    if units > 0xFFFF_FFFF {
        return None;
    }
    let ticks: u32 = units as u32;
    now.checked_add(ticks)
}

/// Whether a delay that waits for `target` is over at counter value `now`.
pub fn delay_done(now: u32, target: u32) -> (r: bool)
    ensures
        r == (now >= target),
{
    !(now < target)
}

} // verus!
