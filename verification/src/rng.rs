//! Randomness for spawning, drawn from the game engine's generator.
use vstd::prelude::*;

verus! {

/// Relies on `macroquad::rand::gen_range::<u32>`, which computes
/// `lo + (hi - lo) * rand() / 2^32` in `f64` and truncates. The result
/// is always at least `lo`; it stays strictly below `hi` only where the
/// rounding of that sum cannot reach `hi` — which holds when `lo` is
/// zero (the product of exact doubles below `hi` rounds short of it by
/// at least `hi / 2^32`, far above a half-ulp) or when `hi` is at most
/// a million (the sum falls short of `hi` by at least `2^-33`, a full
/// ulp there). For a large `lo` under a tiny span the sum can round to
/// exactly `hi`, so such inputs are excluded.
#[verifier::external_body]
pub(crate) fn rand_in_range(lo: u32, hi: u32) -> (r: u32)
    requires
        lo < hi,
        lo == 0 || hi <= 1_000_000,
    ensures
        lo <= r < hi,
{
    macroquad::rand::gen_range(lo, hi)
}

} // verus!
