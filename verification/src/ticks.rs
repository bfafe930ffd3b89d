use vstd::prelude::*;

verus! {

/// Half the horizon of the millisecond counter.  A timestamp counts as
/// lying after another when the forward modular distance from the other
/// is nonzero and no more than this bound.
pub const HALF_HORIZON: u32 = 0x7fff_ffff;

/// Milliseconds elapsed from `then` to `now` on the wrapping monotonic
/// counter: unsigned modular subtraction, safe across the wraparound.
pub open spec fn ticks_elapsed(now: u32, then: u32) -> u32 {
    vstd::wrapping::u32_specs::wrapping_sub(now, then)
}

/// Whether `now` lies strictly after `t` in the wraparound-safe order on
/// timestamps.
pub open spec fn time_after(now: u32, t: u32) -> bool {
    now != t && ticks_elapsed(now, t) <= HALF_HORIZON
}

pub fn elapsed_ms(now: u32, then: u32) -> (d: u32)
    ensures
        d == ticks_elapsed(now, then),
{
    now.wrapping_sub(then)
}

pub fn is_after(now: u32, t: u32) -> (r: bool)
    ensures
        r == time_after(now, t),
{
    now != t && now.wrapping_sub(t) <= HALF_HORIZON
}

} // verus!
