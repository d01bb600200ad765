//! Transient visual artifacts: explosion rings, particle-burst records
//! and cursor-trail samples, each with an age and a fixed lifetime.
use vstd::prelude::*;

verus! {

/// Rings are dropped once this old, in milliseconds.
pub const RING_LIFETIME_MS: u64 = 200;
/// Trail samples are dropped once this old, in milliseconds.
pub const TRAIL_WINDOW_MS: u64 = 300;
/// Burst records are dropped once this old, in milliseconds.
pub const BURST_LIFETIME_MS: u64 = 400;

/// An expanding ring drawn after a detonation, in physical coordinates.
#[derive(Clone, Copy, PartialEq, Eq, Structural, Debug)]
pub struct ExplosionCircle {
    pub x: i64,
    pub y: i64,
    pub radius: i64,
    pub timer: u64,
}

/// A particle burst handed to the particle engine, tracked only until
/// its own lifetime has elapsed.
#[derive(Clone, Copy, PartialEq, Eq, Structural, Debug)]
pub struct BurstRecord {
    pub x: i64,
    pub y: i64,
    pub age: u64,
}

/// One prior pointer position, in physical coordinates, with its age.
#[derive(Clone, Copy, PartialEq, Eq, Structural, Debug)]
pub struct TrailPoint {
    pub x: i64,
    pub y: i64,
    pub age: u64,
}

/// The rings after one frame: every age advanced by `dt`, those at or
/// past the ring lifetime dropped, order kept.
pub open spec fn rings_aged(s: Seq<ExplosionCircle>, dt: u32) -> Seq<ExplosionCircle>
    decreases s.len(),
{
    if s.len() == 0 {
        Seq::empty()
    } else {
        let e = s.last();
        let aged = ExplosionCircle { timer: e.timer.saturating_add(dt as u64), ..e };
        if aged.timer < RING_LIFETIME_MS {
            rings_aged(s.drop_last(), dt).push(aged)
        } else {
            rings_aged(s.drop_last(), dt)
        }
    }
}

/// The burst records after one frame, aged and pruned like the rings.
pub open spec fn bursts_aged(s: Seq<BurstRecord>, dt: u32) -> Seq<BurstRecord>
    decreases s.len(),
{
    if s.len() == 0 {
        Seq::empty()
    } else {
        let b = s.last();
        let aged = BurstRecord { age: b.age.saturating_add(dt as u64), ..b };
        if aged.age < BURST_LIFETIME_MS {
            bursts_aged(s.drop_last(), dt).push(aged)
        } else {
            bursts_aged(s.drop_last(), dt)
        }
    }
}

/// The trail samples after one frame, aged and pruned at the trail window.
pub open spec fn trail_aged(s: Seq<TrailPoint>, dt: u32) -> Seq<TrailPoint>
    decreases s.len(),
{
    if s.len() == 0 {
        Seq::empty()
    } else {
        let t = s.last();
        let aged = TrailPoint { age: t.age.saturating_add(dt as u64), ..t };
        if aged.age < TRAIL_WINDOW_MS {
            trail_aged(s.drop_last(), dt).push(aged)
        } else {
            trail_aged(s.drop_last(), dt)
        }
    }
}

/// The trail after one frame: the current pointer position appended with
/// age zero, then every sample aged by `dt` and the stale ones dropped.
pub open spec fn trail_stepped(s: Seq<TrailPoint>, mx: i64, my: i64, dt: u32) -> Seq<TrailPoint> {
    trail_aged(s.push(TrailPoint { x: mx, y: my, age: 0 }), dt)
}

/// Age every ring by `dt` and drop the expired ones.
pub fn age_and_prune_rings(rings: &mut Vec<ExplosionCircle>, dt: u32)
    ensures
        final(rings)@ == rings_aged(old(rings)@, dt),
{
    let n: usize = rings.len();
    let mut out: Vec<ExplosionCircle> = Vec::new();
    let mut i: usize = 0;
    while i < n
        invariant
            i <= n,
            n == rings@.len(),
            rings@ == old(rings)@,
            out@ == rings_aged(rings@.take(i as int), dt),
        decreases n - i,
    {
        let e: ExplosionCircle = rings[i];
        let aged = ExplosionCircle { timer: e.timer.saturating_add(dt as u64), ..e };
        if aged.timer < RING_LIFETIME_MS {
            out.push(aged);
        }
        proof {
            assert(rings@.take(i + 1).drop_last() =~= rings@.take(i as int));
            assert(rings@.take(i + 1).last() == rings@[i as int]);
        }
        i = i + 1;
    }
    proof {
        assert(rings@.take(n as int) =~= rings@);
    }
    *rings = out;
}

/// Age every burst record by `dt` and drop the completed ones.
pub fn age_and_prune_bursts(bursts: &mut Vec<BurstRecord>, dt: u32)
    ensures
        final(bursts)@ == bursts_aged(old(bursts)@, dt),
{
    let n: usize = bursts.len();
    let mut out: Vec<BurstRecord> = Vec::new();
    let mut i: usize = 0;
    while i < n
        invariant
            i <= n,
            n == bursts@.len(),
            bursts@ == old(bursts)@,
            out@ == bursts_aged(bursts@.take(i as int), dt),
        decreases n - i,
    {
        let b: BurstRecord = bursts[i];
        let aged = BurstRecord { age: b.age.saturating_add(dt as u64), ..b };
        if aged.age < BURST_LIFETIME_MS {
            out.push(aged);
        }
        proof {
            assert(bursts@.take(i + 1).drop_last() =~= bursts@.take(i as int));
            assert(bursts@.take(i + 1).last() == bursts@[i as int]);
        }
        i = i + 1;
    }
    proof {
        assert(bursts@.take(n as int) =~= bursts@);
    }
    *bursts = out;
}

/// Append the current pointer sample, then age every sample by `dt` and
/// drop those outside the trail window.
pub fn advance_trail(trail: &mut Vec<TrailPoint>, mx: i64, my: i64, dt: u32)
    ensures
        final(trail)@ == trail_stepped(old(trail)@, mx, my, dt),
{
    trail.push(TrailPoint { x: mx, y: my, age: 0 });
    let n: usize = trail.len();
    let mut out: Vec<TrailPoint> = Vec::new();
    let mut i: usize = 0;
    while i < n
        invariant
            i <= n,
            n == trail@.len(),
            trail@ == old(trail)@.push(TrailPoint { x: mx, y: my, age: 0 }),
            out@ == trail_aged(trail@.take(i as int), dt),
        decreases n - i,
    {
        let t: TrailPoint = trail[i];
        let aged = TrailPoint { age: t.age.saturating_add(dt as u64), ..t };
        if aged.age < TRAIL_WINDOW_MS {
            out.push(aged);
        }
        proof {
            assert(trail@.take(i + 1).drop_last() =~= trail@.take(i as int));
            assert(trail@.take(i + 1).last() == trail@[i as int]);
        }
        i = i + 1;
    }
    proof {
        assert(trail@.take(n as int) =~= trail@);
    }
    *trail = out;
}

} // verus!
