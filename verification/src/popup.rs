//! A pursuing target: spawn ranges, pulsing phase, greedy pointer
//! pursuit, and the two geometric tests (contact and blast distance).
use vstd::prelude::*;
use crate::geom::{
    clamp_i64, clamp_spec, dist_sq, is_sqrt_floor, isqrt, lemma_sqrt_floor_is, rect_dist_sq,
    sqrt_floor,
};
use crate::rng::rand_in_range;

verus! {

/// Smallest spawned side length, in thousandths of a unit.
pub const MIN_POPUP_SIZE: i64 = 40_000;
/// Spawned side lengths lie strictly below this, in thousandths of a unit.
pub const MAX_POPUP_SIZE: i64 = 60_000;
/// Smallest spawned speed, in thousandths of a unit per second.
pub const MIN_POPUP_SPEED: u32 = 40_000;
/// Spawned speeds lie strictly below this, in thousandths of a unit per second.
pub const MAX_POPUP_SPEED: u32 = 110_000;
/// One full turn of the pulsing phase, in thousandths of a radian.
pub const TWO_PI_MILLI: u64 = 6_283;
/// Pursuit stops once the distance to the pointer is at most this
/// (1.0 virtual unit, in thousandths).
pub const PURSUIT_EPSILON: u64 = 1_000;
/// Pointer coordinates handed to the pursuit are bounded by this.
pub const TARGET_LIMIT: i64 = 4_000_000_000_000;
/// A popup's center always stays within this bound on both axes.
pub const CENTER_LIMIT: i64 = 1_000_000_000_000_000;

/// Magnitude of one axis component of a pursuit step:
/// `a * speed * dt / (dist * 1000)`, rounded toward zero.
fn step_mag(a: u64, speed: u32, dt: u32, dist: u64) -> (m: u64)
    requires
        1 <= dist,
        a <= dist,
        speed <= MAX_POPUP_SPEED,
    ensures
        m == (a as int) * (speed as int) * (dt as int) / ((dist as int) * 1000),
        m <= 500_000_000_000,
{
    proof {
        assert((a as int) * (speed as int) <= 0x1_0000_0000_0000_0000_0000_0000
            && (a as int) * (speed as int) * (dt as int)
                <= 0x1_0000_0000_0000_0000_0000_0000_0000_0000 - 1) by (nonlinear_arith)
            requires
                a <= 0xffff_ffff_ffff_ffffu64,
                speed <= 0xffff_ffffu32,
                dt <= 0xffff_ffffu32,
        ;
    }
    let num: u128 = (a as u128) * (speed as u128) * (dt as u128);
    let den: u128 = (dist as u128) * 1000;
    let m128: u128 = num / den;
    proof {
        vstd::arithmetic::div_mod::lemma_fundamental_div_mod(num as int, den as int);
        assert(num as int <= (dist as int) * ((speed as int) * (dt as int))) by (nonlinear_arith)
            requires
                a <= dist,
                num as int == (a as int) * (speed as int) * (dt as int),
        ;
        assert(m128 as int <= 500_000_000_000) by (nonlinear_arith)
            requires
                (den as int) * (m128 as int) + (num as int) % (den as int) == num as int,
                0 <= (num as int) % (den as int),
                num as int <= (dist as int) * ((speed as int) * (dt as int)),
                den as int == (dist as int) * 1000,
                1 <= dist,
                speed <= 110_000u32,
                dt <= 0xffff_ffffu32,
        ;
    }
    m128 as u64
}

#[derive(Clone, Copy, PartialEq, Eq, Structural, Debug)]
pub struct Popup {
    pub x: i64,
    pub y: i64,
    pub w: i64,
    pub h: i64,
    pub speed: u32,
    pub char_index: usize,
    pub scale_timer: u64,
}

impl Popup {
    /// Well-formedness: a square of spawnable size, a spawnable speed,
    /// and a center within the coordinate bound.
    pub open spec fn wf(self) -> bool {
        &&& MIN_POPUP_SIZE <= self.w <= MAX_POPUP_SIZE
        &&& self.h == self.w
        &&& MIN_POPUP_SPEED <= self.speed <= MAX_POPUP_SPEED
        &&& -CENTER_LIMIT <= self.x + self.w as int / 2 <= CENTER_LIMIT
        &&& -CENTER_LIMIT <= self.y + self.h as int / 2 <= CENTER_LIMIT
    }

    pub open spec fn center_x(self) -> int {
        self.x + self.w as int / 2
    }

    pub open spec fn center_y(self) -> int {
        self.y + self.h as int / 2
    }

    /// The pointer lies in the popup's (un-pulsed) bounding box:
    /// `x <= px < x + w` and `y <= py < y + h`.
    pub open spec fn contains_pt(self, px: int, py: int) -> bool {
        &&& self.x <= px < self.x + self.w
        &&& self.y <= py < self.y + self.h
    }

    /// Squared distance from a point to the popup's bounding rectangle.
    pub open spec fn blast_dist_sq(self, px: int, py: int) -> int {
        rect_dist_sq(px, py, self.x as int, self.y as int, self.w as int, self.h as int)
    }

    /// One signed axis component of a pursuit step: the axis displacement
    /// scaled by `speed * dt / (dist * 1000)`, rounded toward zero.
    pub open spec fn axis_step(d: int, speed: int, dt: int, dist: int) -> int {
        if d >= 0 {
            d * speed * dt / (dist * 1000)
        } else {
            -((-d) * speed * dt / (dist * 1000))
        }
    }

    /// The popup after one pursuit step toward `(tx, ty)` over `dt`
    /// milliseconds: no movement within `PURSUIT_EPSILON` of the pointer,
    /// otherwise a move along the displacement vector.
    pub open spec fn followed(self, tx: int, ty: int, dt: int) -> Popup {
        let dx = tx - self.center_x();
        let dy = ty - self.center_y();
        let dist = sqrt_floor(dx * dx + dy * dy);
        if dist <= PURSUIT_EPSILON {
            self
        } else {
            Popup {
                x: (self.x + Self::axis_step(dx, self.speed as int, dt, dist)) as i64,
                y: (self.y + Self::axis_step(dy, self.speed as int, dt, dist)) as i64,
                ..self
            }
        }
    }

    /// The popup after its pulsing phase advanced by `dt` milliseconds.
    pub open spec fn phase_stepped(self, dt: u32) -> Popup {
        Popup { scale_timer: self.scale_timer.saturating_add(dt as u64), ..self }
    }

    /// Advance the cosmetic pulsing phase; it accumulates without bound
    /// and saturates only at the far end of `u64`.
    pub fn update(&mut self, dt: u32)
        ensures
            *final(self) == old(self).phase_stepped(dt),
    {
        self.scale_timer = self.scale_timer.saturating_add(dt as u64);
    }

    /// The ranges every freshly spawned popup satisfies: a square fully
    /// inside the `max_w` by `max_h` playfield, spawnable speed and
    /// phase, and a visual-identity index below `num_chars`.
    pub open spec fn spawn_ranges(self, max_w: int, max_h: int, num_chars: int) -> bool {
        &&& MIN_POPUP_SIZE <= self.w < MAX_POPUP_SIZE
        &&& self.h == self.w
        &&& 0 <= self.x < max_w - self.w
        &&& 0 <= self.y < max_h - self.h
        &&& MIN_POPUP_SPEED <= self.speed < MAX_POPUP_SPEED
        &&& self.char_index < num_chars
        &&& self.scale_timer < TWO_PI_MILLI
    }

    /// Spawn a popup with uniformly drawn size, position, speed,
    /// identity index and pulsing phase; only the ranges of the draws
    /// are promised.
    pub fn new(max_w: i64, max_h: i64, num_chars: usize) -> (p: Popup)
        requires
            MAX_POPUP_SIZE <= max_w <= 1_000_000_000,
            MAX_POPUP_SIZE <= max_h <= 1_000_000_000,
            1 <= num_chars <= u32::MAX,
        ensures
            p.spawn_ranges(max_w as int, max_h as int, num_chars as int),
            p.wf(),
    {
        let size: u32 = rand_in_range(MIN_POPUP_SIZE as u32, MAX_POPUP_SIZE as u32);
        let x: u32 = rand_in_range(0, (max_w - size as i64) as u32);
        let y: u32 = rand_in_range(0, (max_h - size as i64) as u32);
        let speed: u32 = rand_in_range(MIN_POPUP_SPEED, MAX_POPUP_SPEED);
        let char_index: usize = rand_in_range(0, num_chars as u32) as usize;
        let phase: u32 = rand_in_range(0, TWO_PI_MILLI as u32);
        Popup {
            x: x as i64,
            y: y as i64,
            w: size as i64,
            h: size as i64,
            speed,
            char_index,
            scale_timer: phase as u64,
        }
    }

    /// Greedy single-step pursuit: move toward `(tx, ty)` by
    /// `speed * dt` along the normalized displacement, unless already
    /// within `PURSUIT_EPSILON` of the pointer.
    pub fn follow(&mut self, tx: i64, ty: i64, dt: u32)
        requires
            old(self).wf(),
            -TARGET_LIMIT <= tx <= TARGET_LIMIT,
            -TARGET_LIMIT <= ty <= TARGET_LIMIT,
        ensures
            *final(self) == old(self).followed(tx as int, ty as int, dt as int),
            final(self).wf(),
    {
        let half_w: i64 = (self.w as u64 / 2) as i64;
        let half_h: i64 = (self.h as u64 / 2) as i64;
        let cx: i64 = self.x + half_w;
        let cy: i64 = self.y + half_h;
        let dx: i64 = tx - cx;
        let dy: i64 = ty - cy;
        let adx: u64 = if dx >= 0 { dx as u64 } else { (-dx) as u64 };
        let ady: u64 = if dy >= 0 { dy as u64 } else { (-dy) as u64 };
        proof {
            assert((adx as int) * (adx as int) == (dx as int) * (dx as int)) by (nonlinear_arith)
                requires
                    adx == if dx >= 0 { dx as int } else { -(dx as int) },
            ;
            assert((ady as int) * (ady as int) == (dy as int) * (dy as int)) by (nonlinear_arith)
                requires
                    ady == if dy >= 0 { dy as int } else { -(dy as int) },
            ;
            assert((adx as int) * (adx as int) <= 0x4000_0000_0000_0000_0000_0000_0000_0000)
                by (nonlinear_arith)
                requires
                    adx < 0x8000_0000_0000_0000u64,
            ;
            assert((ady as int) * (ady as int) <= 0x4000_0000_0000_0000_0000_0000_0000_0000)
                by (nonlinear_arith)
                requires
                    ady < 0x8000_0000_0000_0000u64,
            ;
        }
        let d2: u128 = (adx as u128) * (adx as u128) + (ady as u128) * (ady as u128);
        let dist: u64 = isqrt(d2);
        if dist > PURSUIT_EPSILON {
            proof {
                assert(adx <= dist && ady <= dist) by (nonlinear_arith)
                    requires
                        (adx as int) * (adx as int) <= d2 as int,
                        (ady as int) * (ady as int) <= d2 as int,
                        is_sqrt_floor(d2 as int, dist as int),
                ;
            }
            let mx: u64 = step_mag(adx, self.speed, dt, dist);
            let my: u64 = step_mag(ady, self.speed, dt, dist);
            let sx: i64 = if dx >= 0 { mx as i64 } else { -(mx as i64) };
            let sy: i64 = if dy >= 0 { my as i64 } else { -(my as i64) };
            self.x = self.x + sx;
            self.y = self.y + sy;
        }
    }

    /// Contact test against the current bounding box.
    pub fn hit(&self, mx: i64, my: i64) -> (r: bool)
        requires
            self.wf(),
        ensures
            r == self.contains_pt(mx as int, my as int),
    {
        mx >= self.x && mx < self.x + self.w && my >= self.y && my < self.y + self.h
    }

    /// Squared distance from `(px, py)` to the nearest point of the
    /// popup's bounding rectangle, clamping each coordinate to the
    /// rectangle's extent.
    pub fn distance_to_clamped_point(&self, px: i64, py: i64) -> (d: u128)
        requires
            self.wf(),
            -TARGET_LIMIT <= px <= TARGET_LIMIT,
            -TARGET_LIMIT <= py <= TARGET_LIMIT,
        ensures
            d == self.blast_dist_sq(px as int, py as int),
    {
        let cx: i64 = clamp_i64(px, self.x, self.x + self.w);
        let cy: i64 = clamp_i64(py, self.y, self.y + self.h);
        let dx: i64 = px - cx;
        let dy: i64 = py - cy;
        let adx: u64 = if dx >= 0 { dx as u64 } else { (-dx) as u64 };
        let ady: u64 = if dy >= 0 { dy as u64 } else { (-dy) as u64 };
        proof {
            assert((adx as int) * (adx as int) == (dx as int) * (dx as int)) by (nonlinear_arith)
                requires
                    adx == if dx >= 0 { dx as int } else { -(dx as int) },
            ;
            assert((ady as int) * (ady as int) == (dy as int) * (dy as int)) by (nonlinear_arith)
                requires
                    ady == if dy >= 0 { dy as int } else { -(dy as int) },
            ;
            assert((adx as int) * (adx as int) <= 0x4000_0000_0000_0000_0000_0000_0000_0000)
                by (nonlinear_arith)
                requires
                    adx < 0x8000_0000_0000_0000u64,
            ;
            assert((ady as int) * (ady as int) <= 0x4000_0000_0000_0000_0000_0000_0000_0000)
                by (nonlinear_arith)
                requires
                    ady < 0x8000_0000_0000_0000u64,
            ;
        }
        (adx as u128) * (adx as u128) + (ady as u128) * (ady as u128)
    }
}

} // verus!
