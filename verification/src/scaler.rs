//! Resolution-independent scaling: a uniform scale factor and centering
//! offsets between the fixed virtual playfield and the physical
//! viewport, plus the pointer conversion into virtual space.
use vstd::prelude::*;
use crate::game::{VIRTUAL_H, VIRTUAL_W};

verus! {

/// Physical viewport dimensions and pointer coordinates are bounded by
/// this, in thousandths of a pixel.
pub const SCREEN_LIMIT: i64 = 1_000_000_000;

/// The uniform scale factor (in thousandths) and the two centering
/// offsets (in thousandths of a pixel) for one frame's viewport.
#[derive(Clone, Copy, PartialEq, Eq, Structural, Debug)]
pub struct Scaling {
    pub scale: i64,
    pub offset_x: i64,
    pub offset_y: i64,
}

/// The uniform scale factor: the smaller of the two per-axis ratios,
/// in thousandths.
pub open spec fn scale_of(screen_w: int, screen_h: int) -> int {
    let sx = screen_w * 1000 / VIRTUAL_W as int;
    let sy = screen_h * 1000 / VIRTUAL_H as int;
    if sx <= sy {
        sx
    } else {
        sy
    }
}

/// The offset centering a scaled virtual dimension within a physical one.
pub open spec fn offset_of(screen: int, virt: int, scale: int) -> int {
    (screen - virt * scale / 1000) / 2
}

/// A physical coordinate taken into virtual space: `(p - offset) / scale`,
/// in thousandths, rounded toward zero.
pub open spec fn to_virtual_spec(p: int, offset: int, scale: int) -> int {
    if p >= offset {
        (p - offset) * 1000 / scale
    } else {
        -((offset - p) * 1000 / scale)
    }
}

/// A virtual coordinate taken into physical space for drawing:
/// `offset + v * scale / 1000`, rounded toward zero.
pub open spec fn to_physical_spec(v: int, offset: int, scale: int) -> int {
    if v >= 0 {
        offset + v * scale / 1000
    } else {
        offset - (-v) * scale / 1000
    }
}

/// Compute the frame's scaling from the physical viewport dimensions.
pub fn get_scaling(screen_w: i64, screen_h: i64) -> (s: Scaling)
    requires
        VIRTUAL_W / 1000 <= screen_w <= SCREEN_LIMIT,
        VIRTUAL_H / 1000 <= screen_h <= SCREEN_LIMIT,
    ensures
        s.scale == scale_of(screen_w as int, screen_h as int),
        s.offset_x == offset_of(screen_w as int, VIRTUAL_W as int, s.scale as int),
        s.offset_y == offset_of(screen_h as int, VIRTUAL_H as int, s.scale as int),
        1 <= s.scale <= 1_250_000,
        0 <= s.offset_x <= screen_w,
        0 <= s.offset_y <= screen_h,
{
    let sx: i64 = ((screen_w as u64) * 1000 / (VIRTUAL_W as u64)) as i64;
    let sy: i64 = ((screen_h as u64) * 1000 / (VIRTUAL_H as u64)) as i64;
    let scale: i64 = if sx <= sy { sx } else { sy };
    let used_w: i64 = ((VIRTUAL_W as u64) * (scale as u64) / 1000) as i64;
    let used_h: i64 = ((VIRTUAL_H as u64) * (scale as u64) / 1000) as i64;
    let offset_x: i64 = (((screen_w - used_w) as u64) / 2) as i64;
    let offset_y: i64 = (((screen_h - used_h) as u64) / 2) as i64;
    Scaling { scale, offset_x, offset_y }
}

/// Take a virtual coordinate into physical space for drawing.
pub fn to_physical(v: i64, offset: i64, scale: i64) -> (p: i64)
    requires
        -2_000_000_000_000_000 <= v <= 2_000_000_000_000_000,
        0 <= offset <= SCREEN_LIMIT,
        1 <= scale <= 1_250_000,
    ensures
        p == to_physical_spec(v as int, offset as int, scale as int),
{
    let mag: u64 = if v >= 0 {
        v as u64
    } else {
        (-v) as u64
    };
    proof {
        assert((mag as int) * (scale as int) <= 2_000_000_000_000_000int * 1_250_000int)
            by (nonlinear_arith)
            requires
                mag <= 2_000_000_000_000_000u64,
                1 <= scale <= 1_250_000i64,
        ;
    }
    let m: i64 = (((mag as u128) * (scale as u128)) / 1000) as i64;
    if v >= 0 {
        offset + m
    } else {
        offset - m
    }
}

/// Take a physical pointer coordinate into virtual space.
pub fn to_virtual(p: i64, offset: i64, scale: i64) -> (v: i64)
    requires
        -SCREEN_LIMIT <= p <= SCREEN_LIMIT,
        0 <= offset <= SCREEN_LIMIT,
        1 <= scale,
    ensures
        v == to_virtual_spec(p as int, offset as int, scale as int),
        -2_000_000_000_000 <= v <= 2_000_000_000_000,
{
    if p >= offset {
        let num: u64 = ((p - offset) as u64) * 1000;
        proof {
            vstd::arithmetic::div_mod::lemma_div_nonincreasing(num as int, scale as int);
            vstd::arithmetic::div_mod::lemma_div_pos_is_pos(num as int, scale as int);
        }
        (num / (scale as u64)) as i64
    } else {
        let num: u64 = ((offset - p) as u64) * 1000;
        proof {
            vstd::arithmetic::div_mod::lemma_div_nonincreasing(num as int, scale as int);
            vstd::arithmetic::div_mod::lemma_div_pos_is_pos(num as int, scale as int);
        }
        -((num / (scale as u64)) as i64)
    }
}

} // verus!
