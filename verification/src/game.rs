//! The simulation loop: session state, resource meters, spawning,
//! damage, detonation and the per-frame transition.
use vstd::prelude::*;
use crate::effects::{
    bursts_aged, rings_aged, trail_stepped, BurstRecord, ExplosionCircle, TrailPoint,
};
use crate::popup::{Popup, TARGET_LIMIT};
use crate::scaler::{
    get_scaling, offset_of, scale_of, to_virtual, to_virtual_spec, Scaling, SCREEN_LIMIT,
};

verus! {

/// Virtual playfield width, in thousandths of a unit.
pub const VIRTUAL_W: i64 = 800_000;
/// Virtual playfield height, in thousandths of a unit.
pub const VIRTUAL_H: i64 = 600_000;
/// One popup spawns each time this much cumulative time passes, in
/// milliseconds.
pub const SPAWN_INTERVAL: u64 = 1_200;
/// Detonation radius around the pointer, in thousandths of a unit.
pub const EXPLOSION_RADIUS: i64 = 90_000;
/// Energy consumed by one detonation, in millionths.
pub const ENERGY_COST: u32 = 200_000;
/// Energy regained per millisecond, in millionths.
pub const ENERGY_REGEN: u32 = 100;
/// Health lost per millisecond per contacting popup, in millionths.
pub const DAMAGE_RATE: u32 = 150;
/// Both meters are full at this value (1.0), in millionths.
pub const METER_MAX: u32 = 1_000_000;
/// The start cue fires once this many frames have elapsed.
pub const START_CUE_FRAMES: u64 = 10;
/// Full opacity of the direction indicator, in thousandths.
pub const ARROW_ALPHA_MAX: u32 = 1_000;
/// The facing direction updates when the squared pointer displacement
/// exceeds this, in thousandths of a pixel squared (0.1 px).
pub const DIR_THRESHOLD_SQ: i64 = 10_000;
/// The indicator aims at full opacity when the squared displacement
/// exceeds this, in thousandths of a pixel squared (1.0 px).
pub const ALPHA_THRESHOLD_SQ: i64 = 1_000_000;

/// Everything the simulation reads from outside in one frame: pointer
/// position and viewport in thousandths of a pixel, the two edge-input
/// flags, and the count of available popup appearances.
#[derive(Clone, Copy, PartialEq, Eq, Structural, Debug)]
pub struct FrameInput {
    pub mouse_x: i64,
    pub mouse_y: i64,
    pub screen_w: i64,
    pub screen_h: i64,
    pub detonate_pressed: bool,
    pub restart_pressed: bool,
    pub num_variants: usize,
}

impl FrameInput {
    /// Machine bounds on one frame's input: pointer and viewport within
    /// the coordinate limit, a viewport of at least one playfield
    /// thousandth per axis, and an index-sized variant count.
    pub open spec fn wf(self) -> bool {
        &&& -SCREEN_LIMIT <= self.mouse_x <= SCREEN_LIMIT
        &&& -SCREEN_LIMIT <= self.mouse_y <= SCREEN_LIMIT
        &&& VIRTUAL_W / 1000 <= self.screen_w <= SCREEN_LIMIT
        &&& VIRTUAL_H / 1000 <= self.screen_h <= SCREEN_LIMIT
        &&& 1 <= self.num_variants <= u32::MAX
    }
}

/// The sounds to play and bursts to start after one frame; the burst
/// positions are the centers of the popups a detonation destroyed.
#[derive(Clone, Debug)]
pub struct FrameEvents {
    pub play_start: bool,
    pub play_detonate: bool,
    pub play_game_over: bool,
    pub bursts: Vec<(i64, i64)>,
}

/// The mathematical value of a `FrameEvents`.
#[verifier::ext_equal]
pub ghost struct EventsModel {
    pub play_start: bool,
    pub play_detonate: bool,
    pub play_game_over: bool,
    pub bursts: Seq<(i64, i64)>,
}

impl View for FrameEvents {
    type V = EventsModel;

    open spec fn view(&self) -> EventsModel {
        EventsModel {
            play_start: self.play_start,
            play_detonate: self.play_detonate,
            play_game_over: self.play_game_over,
            bursts: self.bursts@,
        }
    }
}

/// The whole session: entities, effects, meters, timers, one-shot cue
/// flags and pointer-tracking state.
#[derive(Clone, Debug)]
pub struct GameState {
    pub popups: Vec<Popup>,
    pub explosions: Vec<ExplosionCircle>,
    pub bursts: Vec<BurstRecord>,
    pub cursor_trail: Vec<TrailPoint>,
    pub spawn_timer: u64,
    pub score: u32,
    pub health: u32,
    pub energy: u32,
    pub game_over_sound_played: bool,
    pub start_sound_played: bool,
    pub frames_since_start: u64,
    pub pulse_timer: u64,
    pub last_mouse_x: i64,
    pub last_mouse_y: i64,
    pub arrow_alpha: u32,
    pub move_dir_x: i64,
    pub move_dir_y: i64,
}

/// The mathematical value of a `GameState`.
#[verifier::ext_equal]
pub ghost struct GameModel {
    pub popups: Seq<Popup>,
    pub explosions: Seq<ExplosionCircle>,
    pub bursts: Seq<BurstRecord>,
    pub cursor_trail: Seq<TrailPoint>,
    pub spawn_timer: u64,
    pub score: u32,
    pub health: u32,
    pub energy: u32,
    pub game_over_sound_played: bool,
    pub start_sound_played: bool,
    pub frames_since_start: u64,
    pub pulse_timer: u64,
    pub last_mouse_x: i64,
    pub last_mouse_y: i64,
    pub arrow_alpha: u32,
    pub move_dir_x: i64,
    pub move_dir_y: i64,
}

impl View for GameState {
    type V = GameModel;

    open spec fn view(&self) -> GameModel {
        GameModel {
            popups: self.popups@,
            explosions: self.explosions@,
            bursts: self.bursts@,
            cursor_trail: self.cursor_trail@,
            spawn_timer: self.spawn_timer,
            score: self.score,
            health: self.health,
            energy: self.energy,
            game_over_sound_played: self.game_over_sound_played,
            start_sound_played: self.start_sound_played,
            frames_since_start: self.frames_since_start,
            pulse_timer: self.pulse_timer,
            last_mouse_x: self.last_mouse_x,
            last_mouse_y: self.last_mouse_y,
            arrow_alpha: self.arrow_alpha,
            move_dir_x: self.move_dir_x,
            move_dir_y: self.move_dir_y,
        }
    }
}

impl GameModel {
    /// Session invariant: both meters within `[0, METER_MAX]`, the spawn
    /// timer below its interval, every popup well formed, the indicator
    /// opacity within range, and the remembered pointer within bounds.
    pub open spec fn wf(self) -> bool {
        &&& self.health <= METER_MAX
        &&& self.energy <= METER_MAX
        &&& self.spawn_timer < SPAWN_INTERVAL
        &&& forall|i: int| 0 <= i < self.popups.len() ==> (#[trigger] self.popups[i]).wf()
        &&& self.arrow_alpha <= ARROW_ALPHA_MAX
        &&& -SCREEN_LIMIT <= self.last_mouse_x <= SCREEN_LIMIT
        &&& -SCREEN_LIMIT <= self.last_mouse_y <= SCREEN_LIMIT
    }
}

/// The state a fresh session starts from: full meters, no entities or
/// effects, nothing played, every timer at zero.
pub open spec fn initial_model() -> GameModel {
    GameModel {
        popups: Seq::empty(),
        explosions: Seq::empty(),
        bursts: Seq::empty(),
        cursor_trail: Seq::empty(),
        spawn_timer: 0,
        score: 0,
        health: METER_MAX,
        energy: METER_MAX,
        game_over_sound_played: false,
        start_sound_played: false,
        frames_since_start: 0,
        pulse_timer: 0,
        last_mouse_x: 0,
        last_mouse_y: 0,
        arrow_alpha: ARROW_ALPHA_MAX,
        move_dir_x: 0,
        move_dir_y: 0,
    }
}

/// What `reset` leaves behind: the initial state, except that the
/// session-spanning start-cue flag and frame counter carry over.
pub open spec fn reset_model(m: GameModel) -> GameModel {
    GameModel {
        start_sound_played: m.start_sound_played,
        frames_since_start: m.frames_since_start,
        ..initial_model()
    }
}

/// Every popup after one frame: pulsing phase advanced, then one
/// pursuit step toward the pointer's virtual position.
pub open spec fn popups_advanced(s: Seq<Popup>, mx: int, my: int, dt: u32) -> Seq<Popup> {
    s.map_values(|p: Popup| p.phase_stepped(dt).followed(mx, my, dt as int))
}

/// How many popups contain the pointer; each contributes one helping of
/// contact damage per frame.
pub open spec fn count_hits(s: Seq<Popup>, mx: int, my: int) -> int
    decreases s.len(),
{
    if s.len() == 0 {
        0
    } else {
        count_hits(s.drop_last(), mx, my) + if s.last().contains_pt(mx, my) {
            1int
        } else {
            0int
        }
    }
}

pub proof fn lemma_count_hits_bounds(s: Seq<Popup>, mx: int, my: int)
    ensures
        0 <= count_hits(s, mx, my) <= s.len(),
    decreases s.len(),
{
    if s.len() > 0 {
        lemma_count_hits_bounds(s.drop_last(), mx, my);
    }
}

/// A popup is caught by a detonation at the pointer when its rectangle
/// comes within the detonation radius.
pub open spec fn in_blast(p: Popup, mx: int, my: int) -> bool {
    p.blast_dist_sq(mx, my) <= EXPLOSION_RADIUS as int * EXPLOSION_RADIUS as int
}

/// The popups a detonation at the pointer leaves alive, in order.
pub open spec fn survivors(s: Seq<Popup>, mx: int, my: int) -> Seq<Popup>
    decreases s.len(),
{
    if s.len() == 0 {
        Seq::empty()
    } else if in_blast(s.last(), mx, my) {
        survivors(s.drop_last(), mx, my)
    } else {
        survivors(s.drop_last(), mx, my).push(s.last())
    }
}

/// The centers of the popups a detonation destroys, in order; each
/// becomes a particle burst.
pub open spec fn killed_centers(s: Seq<Popup>, mx: int, my: int) -> Seq<(i64, i64)>
    decreases s.len(),
{
    if s.len() == 0 {
        Seq::empty()
    } else if in_blast(s.last(), mx, my) {
        killed_centers(s.drop_last(), mx, my).push(
            ((s.last().center_x()) as i64, (s.last().center_y()) as i64),
        )
    } else {
        killed_centers(s.drop_last(), mx, my)
    }
}

/// Energy after one frame's continuous regeneration, capped at full.
pub open spec fn regen_spec(e: u32, dt: u32) -> u32 {
    if e + ENERGY_REGEN * dt > METER_MAX {
        METER_MAX
    } else {
        (e + ENERGY_REGEN * dt) as u32
    }
}

/// Health after this frame's contact damage: `DAMAGE_RATE * dt` per
/// contacting popup, clamped at zero.
pub open spec fn drained(health: u32, dt: u32, hits: int) -> u32 {
    if DAMAGE_RATE * dt * hits >= health {
        0u32
    } else {
        (health - DAMAGE_RATE * dt * hits) as u32
    }
}

/// The indicator opacity moved toward its target by the fraction
/// `min(3 * dt, 1000) / 1000`, never overshooting within a frame.
pub open spec fn arrow_stepped(alpha: u32, target: u32, dt: u32) -> u32 {
    let k = if 3 * dt > 1000 {
        1000int
    } else {
        3 * dt as int
    };
    if target >= alpha {
        (alpha + (target - alpha) * k / 1000) as u32
    } else {
        (alpha - (alpha - target) * k / 1000) as u32
    }
}

/// The frame counter advanced and the one-shot start cue latched.
pub open spec fn bootstrapped(m: GameModel) -> GameModel {
    let frames1 = m.frames_since_start.saturating_add(1);
    GameModel {
        frames_since_start: frames1,
        start_sound_played: m.start_sound_played || frames1 > START_CUE_FRAMES,
        ..m
    }
}

/// Whether this frame fires the one-shot start cue.
pub open spec fn start_fired(m: GameModel) -> bool {
    !m.start_sound_played && m.frames_since_start.saturating_add(1) > START_CUE_FRAMES
}

/// One simulated frame past the bootstrap step, for a live session.
/// `sp` is the popup the spawn timer adds this frame; it is ignored when
/// the timer does not fire. `fired` says whether the start cue fired.
pub open spec fn sim_spec(
    m: GameModel,
    dt: u32,
    inp: FrameInput,
    sp: Popup,
    fired: bool,
) -> (GameModel, EventsModel) {
    let e1 = regen_spec(m.energy, dt);
    let pulse1 = m.pulse_timer.saturating_add(dt as u64);
    let trail1 = trail_stepped(m.cursor_trail, inp.mouse_x, inp.mouse_y, dt);
    let dxm = inp.mouse_x - m.last_mouse_x;
    let dym = inp.mouse_y - m.last_mouse_y;
    let d2m = dxm * dxm + dym * dym;
    let dirx = if d2m > DIR_THRESHOLD_SQ {
        dxm as i64
    } else {
        m.move_dir_x
    };
    let diry = if d2m > DIR_THRESHOLD_SQ {
        dym as i64
    } else {
        m.move_dir_y
    };
    let target_alpha: u32 = if d2m > ALPHA_THRESHOLD_SQ {
        ARROW_ALPHA_MAX
    } else {
        0u32
    };
    let alpha1 = arrow_stepped(m.arrow_alpha, target_alpha, dt);
    let sc = scale_of(inp.screen_w as int, inp.screen_h as int);
    let offx = offset_of(inp.screen_w as int, VIRTUAL_W as int, sc);
    let offy = offset_of(inp.screen_h as int, VIRTUAL_H as int, sc);
    let mx = to_virtual_spec(inp.mouse_x as int, offx, sc);
    let my = to_virtual_spec(inp.mouse_y as int, offy, sc);
    let t1 = m.spawn_timer + dt;
    let fires = t1 >= SPAWN_INTERVAL;
    let timer1: u64 = if fires {
        0u64
    } else {
        t1 as u64
    };
    let popups1 = if fires {
        m.popups.push(sp)
    } else {
        m.popups
    };
    let moved = popups_advanced(popups1, mx, my, dt);
    let hits = count_hits(moved, mx, my);
    let health1 = drained(m.health, dt, hits);
    let rings1 = rings_aged(m.explosions, dt);
    let bursts1 = bursts_aged(m.bursts, dt);
    let granted = inp.detonate_pressed && e1 >= ENERGY_COST;
    let e2: u32 = if granted {
        (e1 - ENERGY_COST) as u32
    } else {
        e1
    };
    let keep = if granted {
        survivors(moved, mx, my)
    } else {
        moved
    };
    let kc = if granted {
        killed_centers(moved, mx, my)
    } else {
        Seq::empty()
    };
    let score1: u32 = if m.score + kc.len() > u32::MAX {
        u32::MAX
    } else {
        (m.score + kc.len()) as u32
    };
    let rings2 = if granted {
        rings1.push(
            ExplosionCircle {
                x: inp.mouse_x,
                y: inp.mouse_y,
                radius: (EXPLOSION_RADIUS as int * sc / 1000) as i64,
                timer: 0,
            },
        )
    } else {
        rings1
    };
    let bursts2 = bursts1 + kc.map_values(|c: (i64, i64)| BurstRecord { x: c.0, y: c.1, age: 0 });
    let go = health1 == 0 && !m.game_over_sound_played;
    (
        GameModel {
            popups: keep,
            explosions: rings2,
            bursts: bursts2,
            cursor_trail: trail1,
            spawn_timer: timer1,
            score: score1,
            health: health1,
            energy: e2,
            game_over_sound_played: m.game_over_sound_played || go,
            start_sound_played: m.start_sound_played,
            frames_since_start: m.frames_since_start,
            pulse_timer: pulse1,
            last_mouse_x: inp.mouse_x,
            last_mouse_y: inp.mouse_y,
            arrow_alpha: alpha1,
            move_dir_x: dirx,
            move_dir_y: diry,
        },
        EventsModel {
            play_start: fired,
            play_detonate: granted,
            play_game_over: go,
            bursts: kc,
        },
    )
}

/// The whole frame transition: bootstrap, then either the terminal
/// gate (with its restart) or one simulated frame.
pub open spec fn update_spec(
    pre: GameModel,
    dt: u32,
    inp: FrameInput,
    sp: Popup,
) -> (GameModel, EventsModel) {
    let m1 = bootstrapped(pre);
    let fired = start_fired(pre);
    if pre.health == 0 {
        if inp.restart_pressed {
            (
                reset_model(m1),
                EventsModel {
                    play_start: true,
                    play_detonate: false,
                    play_game_over: false,
                    bursts: Seq::empty(),
                },
            )
        } else {
            (
                m1,
                EventsModel {
                    play_start: fired,
                    play_detonate: false,
                    play_game_over: false,
                    bursts: Seq::empty(),
                },
            )
        }
    } else {
        sim_spec(m1, dt, inp, sp, fired)
    }
}

/// Whether the spawn timer fires this frame.
pub open spec fn spawn_fires(pre: GameModel, dt: u32) -> bool {
    pre.spawn_timer + dt >= SPAWN_INTERVAL
}

/// The pointer's virtual x coordinate for one frame's input.
pub open spec fn pointer_virtual_x(inp: FrameInput) -> int {
    let sc = scale_of(inp.screen_w as int, inp.screen_h as int);
    to_virtual_spec(inp.mouse_x as int, offset_of(inp.screen_w as int, VIRTUAL_W as int, sc), sc)
}

/// The pointer's virtual y coordinate for one frame's input.
pub open spec fn pointer_virtual_y(inp: FrameInput) -> int {
    let sc = scale_of(inp.screen_w as int, inp.screen_h as int);
    to_virtual_spec(inp.mouse_y as int, offset_of(inp.screen_h as int, VIRTUAL_H as int, sc), sc)
}

/// The popups of one simulated frame after spawning and movement, the
/// sequence whose contacts drain health and whose members a detonation
/// tests; `sp` is the popup added if the spawn timer fires.
pub open spec fn moved_popups(pre: GameModel, dt: u32, inp: FrameInput, sp: Popup) -> Seq<Popup> {
    let popups1 = if spawn_fires(pre, dt) {
        pre.popups.push(sp)
    } else {
        pre.popups
    };
    popups_advanced(popups1, pointer_virtual_x(inp), pointer_virtual_y(inp), dt)
}

pub proof fn lemma_count_hits_zero(s: Seq<Popup>, mx: int, my: int)
    requires
        forall|i: int| 0 <= i < s.len() ==> !(#[trigger] s[i]).contains_pt(mx, my),
    ensures
        count_hits(s, mx, my) == 0,
    decreases s.len(),
{
    if s.len() > 0 {
        lemma_count_hits_zero(s.drop_last(), mx, my);
    }
}

/// Both meters stay within `[0, METER_MAX]` across every frame: with a
/// non-negative damage total, health only falls toward zero, and energy
/// is capped before any cost is charged.
pub proof fn lemma_meters_bounded(pre: GameModel, dt: u32, inp: FrameInput, sp: Popup)
    requires
        pre.wf(),
    ensures
        update_spec(pre, dt, inp, sp).0.health <= METER_MAX,
        update_spec(pre, dt, inp, sp).0.energy <= METER_MAX,
{
    if pre.health != 0 {
        let m1 = bootstrapped(pre);
        let mx = pointer_virtual_x(inp);
        let my = pointer_virtual_y(inp);
        let moved = moved_popups(pre, dt, inp, sp);
        let hits = count_hits(moved, mx, my);
        lemma_count_hits_bounds(moved, mx, my);
        assert(DAMAGE_RATE * dt * hits >= 0) by (nonlinear_arith)
            requires
                hits >= 0,
                dt >= 0,
                DAMAGE_RATE == 150u32,
        ;
        assert(drained(pre.health, dt, hits) <= pre.health);
    }
}

/// Health never rises during play: every frame of a live session leaves
/// health at most where it was.
pub proof fn lemma_health_never_rises(pre: GameModel, dt: u32, inp: FrameInput, sp: Popup)
    requires
        pre.wf(),
        pre.health > 0,
    ensures
        update_spec(pre, dt, inp, sp).0.health <= pre.health,
{
    let mx = pointer_virtual_x(inp);
    let my = pointer_virtual_y(inp);
    let moved = moved_popups(pre, dt, inp, sp);
    let hits = count_hits(moved, mx, my);
    lemma_count_hits_bounds(moved, mx, my);
    assert(DAMAGE_RATE * dt * hits >= 0) by (nonlinear_arith)
        requires
            hits >= 0,
            dt >= 0,
            DAMAGE_RATE == 150u32,
    ;
    assert(drained(pre.health, dt, hits) <= pre.health);
}

/// When no popup overlaps the pointer after this frame's movement,
/// health is exactly unchanged.
pub proof fn lemma_no_overlap_no_drain(pre: GameModel, dt: u32, inp: FrameInput, sp: Popup)
    requires
        pre.wf(),
        pre.health > 0,
        forall|i: int|
            0 <= i < moved_popups(pre, dt, inp, sp).len() ==> !(#[trigger] moved_popups(
                pre,
                dt,
                inp,
                sp,
            )[i]).contains_pt(pointer_virtual_x(inp), pointer_virtual_y(inp)),
    ensures
        update_spec(pre, dt, inp, sp).0.health == pre.health,
{
    let mx = pointer_virtual_x(inp);
    let my = pointer_virtual_y(inp);
    let moved = moved_popups(pre, dt, inp, sp);
    lemma_count_hits_zero(moved, mx, my);
    assert(DAMAGE_RATE * dt * 0 == 0) by (nonlinear_arith);
    assert(drained(pre.health, dt, 0) == pre.health);
}

/// Detonation economics: a request with enough energy costs exactly
/// `ENERGY_COST` off the regenerated meter; one without enough energy is
/// silently dropped — the frame ends exactly as if nothing was pressed.
pub proof fn lemma_detonation_energy(pre: GameModel, dt: u32, inp: FrameInput, sp: Popup)
    requires
        pre.wf(),
        pre.health > 0,
    ensures
        inp.detonate_pressed && regen_spec(pre.energy, dt) >= ENERGY_COST ==> update_spec(
            pre,
            dt,
            inp,
            sp,
        ).0.energy == regen_spec(pre.energy, dt) - ENERGY_COST,
        !(inp.detonate_pressed && regen_spec(pre.energy, dt) >= ENERGY_COST) ==> update_spec(
            pre,
            dt,
            inp,
            sp,
        ).0.energy == regen_spec(pre.energy, dt),
        inp.detonate_pressed && regen_spec(pre.energy, dt) < ENERGY_COST ==> update_spec(
            pre,
            dt,
            inp,
            sp,
        ) == update_spec(pre, dt, FrameInput { detonate_pressed: false, ..inp }, sp),
{
    let inp2 = FrameInput { detonate_pressed: false, ..inp };
    if inp.detonate_pressed && regen_spec(pre.energy, dt) < ENERGY_COST {
        assert(update_spec(pre, dt, inp, sp).0 =~= update_spec(pre, dt, inp2, sp).0);
        assert(update_spec(pre, dt, inp, sp).1 =~= update_spec(pre, dt, inp2, sp).1);
    }
}

/// Spawn discipline: a firing timer resets to zero (no remainder) and,
/// absent a granted detonation, leaves exactly one more popup; a timer
/// that does not fire accumulates `dt` exactly.
pub proof fn lemma_spawn_step(pre: GameModel, dt: u32, inp: FrameInput, sp: Popup)
    requires
        pre.wf(),
        pre.health > 0,
    ensures
        spawn_fires(pre, dt) ==> update_spec(pre, dt, inp, sp).0.spawn_timer == 0,
        !spawn_fires(pre, dt) ==> update_spec(pre, dt, inp, sp).0.spawn_timer == pre.spawn_timer
            + dt,
        spawn_fires(pre, dt) && !(inp.detonate_pressed && regen_spec(pre.energy, dt)
            >= ENERGY_COST) ==> update_spec(pre, dt, inp, sp).0.popups.len() == pre.popups.len()
            + 1,
{
}

/// Advance every popup one frame (phase, then pursuit) and count how
/// many contain the pointer afterward.
fn advance_and_count(popups: &mut Vec<Popup>, mx: i64, my: i64, dt: u32) -> (hits: usize)
    requires
        forall|i: int| 0 <= i < old(popups)@.len() ==> (#[trigger] old(popups)@[i]).wf(),
        -TARGET_LIMIT <= mx <= TARGET_LIMIT,
        -TARGET_LIMIT <= my <= TARGET_LIMIT,
    ensures
        final(popups)@ == popups_advanced(old(popups)@, mx as int, my as int, dt),
        hits == count_hits(final(popups)@, mx as int, my as int),
        forall|i: int| 0 <= i < final(popups)@.len() ==> (#[trigger] final(popups)@[i]).wf(),
{
    let ghost f = |p: Popup| p.phase_stepped(dt).followed(mx as int, my as int, dt as int);
    let n: usize = popups.len();
    let mut out: Vec<Popup> = Vec::new();
    let mut hits: usize = 0;
    let mut i: usize = 0;
    while i < n
        invariant
            i <= n,
            n == popups@.len(),
            popups@ == old(popups)@,
            forall|j: int| 0 <= j < popups@.len() ==> (#[trigger] popups@[j]).wf(),
            -TARGET_LIMIT <= mx <= TARGET_LIMIT,
            -TARGET_LIMIT <= my <= TARGET_LIMIT,
            out@ == popups_advanced(popups@.take(i as int), mx as int, my as int, dt),
            hits <= i,
            hits == count_hits(out@, mx as int, my as int),
            forall|j: int| 0 <= j < out@.len() ==> (#[trigger] out@[j]).wf(),
        decreases n - i,
    {
        let mut q: Popup = popups[i];
        q.update(dt);
        q.follow(mx, my, dt);
        let touches: bool = q.hit(mx, my);
        if touches {
            hits = hits + 1;
        }
        let ghost prev = out@;
        out.push(q);
        proof {
            assert(popups@.take(i + 1).drop_last() =~= popups@.take(i as int));
            assert(popups@.take(i + 1).last() == popups@[i as int]);
            assert(out@ =~= popups_advanced(popups@.take(i + 1), mx as int, my as int, dt)) by {
                assert(popups@.take(i + 1).map_values(f) =~= popups@.take(i as int).map_values(
                    f,
                ).push(f(popups@[i as int])));
            }
            assert(out@.drop_last() =~= prev);
        }
        i = i + 1;
    }
    proof {
        assert(popups@.take(n as int) =~= popups@);
    }
    *popups = out;
    hits
}

/// Resolve one granted detonation: drop every popup within the blast
/// radius of the pointer and collect the centers of the destroyed ones.
fn detonate_filter(popups: &mut Vec<Popup>, mx: i64, my: i64) -> (kc: Vec<(i64, i64)>)
    requires
        forall|i: int| 0 <= i < old(popups)@.len() ==> (#[trigger] old(popups)@[i]).wf(),
        -TARGET_LIMIT <= mx <= TARGET_LIMIT,
        -TARGET_LIMIT <= my <= TARGET_LIMIT,
    ensures
        final(popups)@ == survivors(old(popups)@, mx as int, my as int),
        kc@ == killed_centers(old(popups)@, mx as int, my as int),
        forall|i: int| 0 <= i < final(popups)@.len() ==> (#[trigger] final(popups)@[i]).wf(),
{
    let n: usize = popups.len();
    let mut keep: Vec<Popup> = Vec::new();
    let mut kc: Vec<(i64, i64)> = Vec::new();
    let mut i: usize = 0;
    while i < n
        invariant
            i <= n,
            n == popups@.len(),
            popups@ == old(popups)@,
            forall|j: int| 0 <= j < popups@.len() ==> (#[trigger] popups@[j]).wf(),
            -TARGET_LIMIT <= mx <= TARGET_LIMIT,
            -TARGET_LIMIT <= my <= TARGET_LIMIT,
            keep@ == survivors(popups@.take(i as int), mx as int, my as int),
            kc@ == killed_centers(popups@.take(i as int), mx as int, my as int),
            forall|j: int| 0 <= j < keep@.len() ==> (#[trigger] keep@[j]).wf(),
        decreases n - i,
    {
        let p: Popup = popups[i];
        let d: u128 = p.distance_to_clamped_point(mx, my);
        let r2: u128 = 8_100_000_000;
        proof {
            assert(r2 as int == EXPLOSION_RADIUS as int * EXPLOSION_RADIUS as int)
                by (nonlinear_arith)
                requires
                    r2 == 8_100_000_000u128,
                    EXPLOSION_RADIUS == 90_000i64,
            ;
        }
        if d <= r2 {
            let cx: i64 = p.x + (p.w as u64 / 2) as i64;
            let cy: i64 = p.y + (p.h as u64 / 2) as i64;
            kc.push((cx, cy));
        } else {
            keep.push(p);
        }
        proof {
            assert(popups@.take(i + 1).drop_last() =~= popups@.take(i as int));
            assert(popups@.take(i + 1).last() == popups@[i as int]);
        }
        i = i + 1;
    }
    proof {
        assert(popups@.take(n as int) =~= popups@);
    }
    *popups = keep;
    kc
}

/// Append one fresh burst record per destroyed-popup center, in order.
fn append_burst_records(bursts: &mut Vec<BurstRecord>, centers: &Vec<(i64, i64)>)
    ensures
        final(bursts)@ == old(bursts)@ + centers@.map_values(
            |c: (i64, i64)| BurstRecord { x: c.0, y: c.1, age: 0 },
        ),
{
    let ghost before = bursts@;
    let n: usize = centers.len();
    let mut j: usize = 0;
    while j < n
        invariant
            j <= n,
            n == centers@.len(),
            bursts@ == before + centers@.take(j as int).map_values(
                |c: (i64, i64)| BurstRecord { x: c.0, y: c.1, age: 0 },
            ),
        decreases n - j,
    {
        let c: (i64, i64) = centers[j];
        bursts.push(BurstRecord { x: c.0, y: c.1, age: 0 });
        proof {
            let f = |c: (i64, i64)| BurstRecord { x: c.0, y: c.1, age: 0 };
            assert(centers@.take(j + 1).map_values(f) =~= centers@.take(j as int).map_values(
                f,
            ).push(f(centers@[j as int])));
            assert(bursts@ =~= before + centers@.take(j + 1).map_values(f));
        }
        j = j + 1;
    }
    proof {
        assert(centers@.take(n as int) =~= centers@);
    }
}

impl GameState {
    /// A fresh session.
    pub fn new() -> (s: GameState)
        ensures
            s@ == initial_model(),
            s@.wf(),
    {
        let s = GameState {
            popups: Vec::new(),
            explosions: Vec::new(),
            bursts: Vec::new(),
            cursor_trail: Vec::new(),
            spawn_timer: 0,
            score: 0,
            health: METER_MAX,
            energy: METER_MAX,
            game_over_sound_played: false,
            start_sound_played: false,
            frames_since_start: 0,
            pulse_timer: 0,
            last_mouse_x: 0,
            last_mouse_y: 0,
            arrow_alpha: ARROW_ALPHA_MAX,
            move_dir_x: 0,
            move_dir_y: 0,
        };
        proof {
            assert(s@ =~= initial_model());
        }
        s
    }

    /// Advance the session by one frame of `dt` milliseconds under the
    /// frame's input. Everything deterministic is pinned exactly by
    /// `update_spec`; the one existential is the randomly drawn popup a
    /// firing spawn timer adds, known to lie in its spawn ranges.
    #[verifier::rlimit(80)]
    pub fn update(&mut self, dt: u32, input: &FrameInput) -> (ev: FrameEvents)
        requires
            old(self)@.wf(),
            input.wf(),
        ensures
            final(self)@.wf(),
            exists|sp: Popup|
                {
                    &&& sp.wf()
                    &&& sp.spawn_ranges(
                        VIRTUAL_W as int,
                        VIRTUAL_H as int,
                        input.num_variants as int,
                    )
                    &&& (#[trigger] update_spec(old(self)@, dt, *input, sp)).0 == final(self)@
                    &&& update_spec(old(self)@, dt, *input, sp).1 == ev@
                },
            old(self)@.health > 0 ==> final(self)@.health <= old(self)@.health,
    {
        let ghost pre = self@;
        let ghost dummy = Popup {
            x: 0,
            y: 0,
            w: 40_000,
            h: 40_000,
            speed: 40_000,
            char_index: 0,
            scale_timer: 0,
        };
        let ghost mut spw: Popup = dummy;

        // Session bootstrap: frame counter and the one-shot start cue.
        self.frames_since_start = self.frames_since_start.saturating_add(1);
        let mut fired: bool = false;
        if !self.start_sound_played && self.frames_since_start > START_CUE_FRAMES {
            self.start_sound_played = true;
            fired = true;
        }
        proof {
            assert(self@ =~= bootstrapped(pre));
            assert(fired == start_fired(pre));
        }
        let ghost m1 = self@;

        // Terminal-state gate: only a restart advances anything.
        if self.health == 0 {
            let ev: FrameEvents;
            if input.restart_pressed {
                self.reset();
                ev = FrameEvents {
                    play_start: true,
                    play_detonate: false,
                    play_game_over: false,
                    bursts: Vec::new(),
                };
            } else {
                ev = FrameEvents {
                    play_start: fired,
                    play_detonate: false,
                    play_game_over: false,
                    bursts: Vec::new(),
                };
            }
            proof {
                assert(update_spec(pre, dt, *input, dummy).0 =~= self@);
                assert(update_spec(pre, dt, *input, dummy).1 =~= ev@);
            }
            return ev;
        }

        // Energy regeneration.
        proof {
            assert(ENERGY_REGEN as u64 * (dt as u64) <= 100u64 * 0xffff_ffffu64)
                by (nonlinear_arith)
                requires
                    ENERGY_REGEN == 100u32,
                    dt <= 0xffff_ffffu32,
            ;
        }
        let e64: u64 = self.energy as u64 + (ENERGY_REGEN as u64) * (dt as u64);
        self.energy = if e64 > METER_MAX as u64 {
            METER_MAX
        } else {
            e64 as u32
        };

        // Pulse timer for the cursor glow.
        self.pulse_timer = self.pulse_timer.saturating_add(dt as u64);

        // Cursor-trail bookkeeping.
        crate::effects::advance_trail(&mut self.cursor_trail, input.mouse_x, input.mouse_y, dt);

        // Movement-direction tracking and indicator-opacity smoothing.
        let dxm: i64 = input.mouse_x - self.last_mouse_x;
        let dym: i64 = input.mouse_y - self.last_mouse_y;
        proof {
            assert(dxm * dxm <= 4_000_000_000_000_000_000 && dxm * dxm >= 0) by (nonlinear_arith)
                requires
                    -2_000_000_000 <= dxm <= 2_000_000_000,
            ;
            assert(dym * dym <= 4_000_000_000_000_000_000 && dym * dym >= 0) by (nonlinear_arith)
                requires
                    -2_000_000_000 <= dym <= 2_000_000_000,
            ;
        }
        let d2m: i64 = dxm * dxm + dym * dym;
        if d2m > DIR_THRESHOLD_SQ {
            self.move_dir_x = dxm;
            self.move_dir_y = dym;
        }
        let target_alpha: u32 = if d2m > ALPHA_THRESHOLD_SQ {
            ARROW_ALPHA_MAX
        } else {
            0
        };
        let k64: u64 = 3 * (dt as u64);
        let k: u32 = if k64 > 1000 {
            1000
        } else {
            k64 as u32
        };
        if target_alpha >= self.arrow_alpha {
            let diff: u32 = target_alpha - self.arrow_alpha;
            proof {
                assert(diff * k <= diff * 1000 && diff * k <= 1_000_000) by (nonlinear_arith)
                    requires
                        diff <= 1000,
                        k <= 1000,
                ;
                assert(diff * k / 1000 <= diff * 1000 / 1000);
            }
            self.arrow_alpha = self.arrow_alpha + diff * k / 1000;
        } else {
            let diff: u32 = self.arrow_alpha - target_alpha;
            proof {
                assert(diff * k <= diff * 1000 && diff * k <= 1_000_000) by (nonlinear_arith)
                    requires
                        diff <= 1000,
                        k <= 1000,
                ;
                assert(diff * k / 1000 <= diff * 1000 / 1000);
            }
            self.arrow_alpha = self.arrow_alpha - diff * k / 1000;
        }
        self.last_mouse_x = input.mouse_x;
        self.last_mouse_y = input.mouse_y;

        // The pointer in virtual-playfield space.
        let s: Scaling = get_scaling(input.screen_w, input.screen_h);
        let mx: i64 = to_virtual(input.mouse_x, s.offset_x, s.scale);
        let my: i64 = to_virtual(input.mouse_y, s.offset_y, s.scale);

        // Spawn system.
        let t1: u64 = self.spawn_timer + dt as u64;
        let fires: bool = t1 >= SPAWN_INTERVAL;
        if fires {
            let p: Popup = Popup::new(VIRTUAL_W, VIRTUAL_H, input.num_variants);
            self.popups.push(p);
            self.spawn_timer = 0;
            proof {
                spw = p;
            }
        } else {
            self.spawn_timer = t1;
        }

        // Per-popup update: pulse phase, pursuit, and contact damage.
        let hits: usize = advance_and_count(&mut self.popups, mx, my, dt);
        let per_ms: u64 = (DAMAGE_RATE as u64) * (dt as u64);
        let total: u64 = match per_ms.checked_mul(hits as u64) {
            Some(t) => t,
            None => u64::MAX,
        };
        if total >= self.health as u64 {
            self.health = 0;
        } else {
            self.health = self.health - total as u32;
        }

        // Explosion-ring and burst-record aging.
        crate::effects::age_and_prune_rings(&mut self.explosions, dt);
        crate::effects::age_and_prune_bursts(&mut self.bursts, dt);

        // Detonation resolution.
        let granted: bool = input.detonate_pressed && self.energy >= ENERGY_COST;
        let mut ev_bursts: Vec<(i64, i64)> = Vec::new();
        if granted {
            self.energy = self.energy - ENERGY_COST;
            ev_bursts = detonate_filter(&mut self.popups, mx, my);
            let kills: usize = ev_bursts.len();
            let s64: u64 = (self.score as u64).saturating_add(kills as u64);
            self.score = if s64 > u32::MAX as u64 {
                u32::MAX
            } else {
                s64 as u32
            };
            let rad: i64 = (((EXPLOSION_RADIUS as u64) * (s.scale as u64)) / 1000) as i64;
            self.explosions.push(
                ExplosionCircle { x: input.mouse_x, y: input.mouse_y, radius: rad, timer: 0 },
            );
            append_burst_records(&mut self.bursts, &ev_bursts);
        }

        // Game-over edge.
        let go: bool = self.health == 0 && !self.game_over_sound_played;
        if go {
            self.game_over_sound_played = true;
        }
        let ev = FrameEvents {
            play_start: fired,
            play_detonate: granted,
            play_game_over: go,
            bursts: ev_bursts,
        };
        proof {
            let kc0 = ev_bursts@;
            let f = |c: (i64, i64)| BurstRecord { x: c.0, y: c.1, age: 0 };
            if !granted {
                assert(self.bursts@ =~= bursts_aged(m1.bursts, dt) + kc0.map_values(f));
            }
            let ms = sim_spec(m1, dt, *input, spw, fired);
            let sc = scale_of(input.screen_w as int, input.screen_h as int);
            let offx = offset_of(input.screen_w as int, VIRTUAL_W as int, sc);
            let offy = offset_of(input.screen_h as int, VIRTUAL_H as int, sc);
            let mxs = to_virtual_spec(input.mouse_x as int, offx, sc);
            let mys = to_virtual_spec(input.mouse_y as int, offy, sc);
            assert(mxs == mx as int && mys == my as int);
            let fires_s = m1.spawn_timer + dt >= SPAWN_INTERVAL;
            assert(fires_s == fires);
            let popups1 = if fires_s {
                m1.popups.push(spw)
            } else {
                m1.popups
            };
            let moved = popups_advanced(popups1, mxs, mys, dt);
            let e1 = regen_spec(m1.energy, dt);
            let granted_s = input.detonate_pressed && e1 >= ENERGY_COST;
            assert(granted_s == granted);
            let keep = if granted_s {
                survivors(moved, mxs, mys)
            } else {
                moved
            };
            if granted {
                assert(self@.popups == survivors(moved, mxs, mys));
            } else {
                assert(self@.popups == moved);
            }
            assert(self@.popups == keep);
            assert(self@.popups =~= ms.0.popups);
            assert(self@.explosions =~= ms.0.explosions);
            assert(self@.bursts =~= ms.0.bursts);
            assert(self@.cursor_trail =~= ms.0.cursor_trail);
            assert(self@.health == ms.0.health);
            assert(self@.energy == ms.0.energy);
            assert(self@.score == ms.0.score);
            assert(self@.spawn_timer == ms.0.spawn_timer);
            assert(self@.arrow_alpha == ms.0.arrow_alpha);
            assert(self@ =~= ms.0);
            assert(ev@ =~= ms.1);
            assert(update_spec(pre, dt, *input, spw).0 =~= self@);
            assert(update_spec(pre, dt, *input, spw).1 =~= ev@);
        }
        ev
    }

    /// Return every field to its initial value, keeping only the
    /// session-spanning start-cue flag and frame counter.
    pub fn reset(&mut self)
        ensures
            final(self)@ == reset_model(old(self)@),
            final(self)@.wf(),
    {
        self.health = METER_MAX;
        self.energy = METER_MAX;
        self.score = 0;
        self.game_over_sound_played = false;
        self.popups = Vec::new();
        self.explosions = Vec::new();
        self.bursts = Vec::new();
        self.cursor_trail = Vec::new();
        self.spawn_timer = 0;
        self.pulse_timer = 0;
        self.last_mouse_x = 0;
        self.last_mouse_y = 0;
        self.arrow_alpha = ARROW_ALPHA_MAX;
        self.move_dir_x = 0;
        self.move_dir_y = 0;
        proof {
            assert(self@ =~= reset_model(old(self)@));
        }
    }
}

} // verus!
