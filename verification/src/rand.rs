use vstd::prelude::*;

verus! {

/// One advance of an effect's pseudo-random generator: a linear
/// congruential step with the current millisecond tick mixed in, so the
/// stream also depends on when the effect last ran.  All arithmetic wraps.
pub open spec fn lcg_step(state: u32, now: u32) -> u32 {
    vstd::wrapping::u32_specs::wrapping_add(
        vstd::wrapping::u32_specs::wrapping_add(
            vstd::wrapping::u32_specs::wrapping_mul(state, 1664525),
            1013904223,
        ),
        now,
    )
}

pub fn next_random(state: u32, now: u32) -> (r: u32)
    ensures
        r == lcg_step(state, now),
{
    state.wrapping_mul(1664525).wrapping_add(1013904223).wrapping_add(now)
}

} // verus!
