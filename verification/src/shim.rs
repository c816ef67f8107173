use vstd::prelude::*;

verus! {

/// The allocator's break-growth alignment factor.
pub const BRK_MULTIPLIER: usize = 1;

/// The factor between a requested fresh segment and the acquired one.
pub const FRESH_MULTIPLIER: usize = 2;

/// The smallest number of extra bytes a fresh allocation asks for.
pub const MIN_EXTRA: usize = 64;

/// The largest number of extra bytes a fresh allocation asks for.
pub const MAX_EXTRA: usize = 1024;

/// Handler invoked when the allocator runs out of memory; this core leaves
/// the reaction to the machine-level panic path.
pub fn default_oom_handler() {
}

/// How many more bytes than requested a break growth should take, so the
/// break stays aligned to the growth multiplier. With the multiplier of
/// one, nothing extra is ever needed.
pub fn extra_brk(size: usize) -> (r: usize)
    requires
        size < usize::MAX,
    ensures
        r == 0,
{
    (size + BRK_MULTIPLIER - 1) / BRK_MULTIPLIER * BRK_MULTIPLIER - size
}

/// How much more space than requested a fresh allocation asks for: twice
/// the request, clamped between the fixed minimum and maximum.
pub fn extra_fresh(size: usize) -> (r: usize)
    requires
        size <= usize::MAX / 2,
    ensures
        r == if FRESH_MULTIPLIER * size < MIN_EXTRA {
            MIN_EXTRA as int
        } else if FRESH_MULTIPLIER * size > MAX_EXTRA {
            MAX_EXTRA as int
        } else {
            FRESH_MULTIPLIER * size
        },
{
    let doubled = FRESH_MULTIPLIER * size;
    let capped = if doubled < MAX_EXTRA {
        doubled
    } else {
        MAX_EXTRA
    };
    if MIN_EXTRA > capped {
        MIN_EXTRA
    } else {
        capped
    }
}

} // verus!
