//! Frame-loop scenarios: spawning, damage, detonation, reset.
use cursor_crisis::game::{FrameInput, GameState};
use cursor_crisis::popup::Popup;

/// An 800 by 600 pixel viewport, in thousandths of a pixel: scale 1.000
/// and zero offsets, so virtual coordinates equal physical ones.
fn plain_input(mouse_x: i64, mouse_y: i64) -> FrameInput {
    FrameInput {
        mouse_x,
        mouse_y,
        screen_w: 800_000,
        screen_h: 600_000,
        detonate_pressed: false,
        restart_pressed: false,
        num_variants: 12,
    }
}

/// A popup whose center sits exactly on `(cx, cy)`: it neither moves
/// (distance zero) nor misses the contact test.
fn popup_at(cx: i64, cy: i64, w: i64, speed: u32) -> Popup {
    Popup {
        x: cx - w / 2,
        y: cy - w / 2,
        w,
        h: w,
        speed,
        char_index: 0,
        scale_timer: 0,
    }
}

#[test]
fn fresh_session_starts_full() {
    let g = GameState::new();
    assert_eq!(g.health, 1_000_000);
    assert_eq!(g.energy, 1_000_000);
    assert_eq!(g.score, 0);
    assert!(g.popups.is_empty());
    assert!(g.explosions.is_empty());
    assert!(g.bursts.is_empty());
    assert_eq!(g.spawn_timer, 0);
}

#[test]
fn one_long_frame_spawns_exactly_one_target() {
    let mut g = GameState::new();
    let inp = plain_input(400_000, 300_000);
    g.update(1_200, &inp);
    assert_eq!(g.popups.len(), 1);
    assert_eq!(g.spawn_timer, 0);
    assert_eq!(g.energy, 1_000_000);
}

#[test]
fn spawn_accumulates_across_frames() {
    let mut g = GameState::new();
    let inp = plain_input(0, 0);
    g.update(600, &inp);
    assert_eq!(g.popups.len(), 0);
    assert_eq!(g.spawn_timer, 600);
    g.update(600, &inp);
    assert_eq!(g.popups.len(), 1);
    assert_eq!(g.spawn_timer, 0);
}

#[test]
fn spawned_targets_stay_in_ranges() {
    let mut g = GameState::new();
    // pursuit of a central pointer keeps every popup inside the field
    let inp = plain_input(400_000, 300_000);
    for _ in 0..5 {
        g.update(1_200, &inp);
    }
    assert_eq!(g.popups.len(), 5);
    for p in g.popups.iter() {
        assert!(40_000 <= p.w && p.w < 60_000);
        assert_eq!(p.h, p.w);
        assert!(0 <= p.x && p.x + p.w < 800_000);
        assert!(0 <= p.y && p.y + p.h < 600_000);
        assert!(40_000 <= p.speed && p.speed < 110_000);
        assert!(p.char_index < 12);
        assert!(p.scale_timer >= 1_200);
    }
}

#[test]
fn overlapping_target_drains_health_exactly() {
    let mut g = GameState::new();
    g.popups.push(popup_at(400_000, 300_000, 50_000, 40_000));
    let inp = plain_input(400_000, 300_000);
    g.update(1_000, &inp);
    // damage_rate 0.15 for one full second: health 1.0 - 0.15 = 0.85
    assert_eq!(g.health, 850_000);
    assert_eq!(g.popups.len(), 1);
}

#[test]
fn no_overlap_leaves_health_unchanged() {
    let mut g = GameState::new();
    g.popups.push(popup_at(100_000, 100_000, 50_000, 40_000));
    let inp = plain_input(700_000, 500_000);
    g.update(100, &inp);
    assert_eq!(g.health, 1_000_000);
}

#[test]
fn two_overlapping_targets_stack_damage() {
    let mut g = GameState::new();
    g.popups.push(popup_at(400_000, 300_000, 50_000, 40_000));
    g.popups.push(popup_at(400_000, 300_000, 44_000, 40_000));
    let inp = plain_input(400_000, 300_000);
    g.update(1_000, &inp);
    assert_eq!(g.health, 700_000);
}

#[test]
fn detonation_with_no_targets_still_costs_and_rings() {
    let mut g = GameState::new();
    let mut inp = plain_input(400_000, 300_000);
    inp.detonate_pressed = true;
    let ev = g.update(16, &inp);
    assert!(ev.play_detonate);
    assert_eq!(ev.bursts.len(), 0);
    assert_eq!(g.energy, 800_000);
    assert_eq!(g.explosions.len(), 1);
    assert_eq!(g.explosions[0].radius, 90_000);
    assert_eq!(g.explosions[0].timer, 0);
    assert_eq!(g.score, 0);
    assert!(g.bursts.is_empty());
}

#[test]
fn detonation_destroys_targets_in_radius_and_scores() {
    let mut g = GameState::new();
    // center on the pointer: inside any positive radius
    g.popups.push(popup_at(400_000, 300_000, 50_000, 40_000));
    // far corner: out of reach of a 90-unit radius
    g.popups.push(popup_at(100_000, 100_000, 50_000, 40_000));
    let mut inp = plain_input(400_000, 300_000);
    inp.detonate_pressed = true;
    let ev = g.update(0, &inp);
    assert!(ev.play_detonate);
    assert_eq!(ev.bursts.len(), 1);
    assert_eq!(ev.bursts[0], (400_000, 300_000));
    assert_eq!(g.score, 1);
    assert_eq!(g.popups.len(), 1);
    assert_eq!(g.bursts.len(), 1);
    assert_eq!(g.bursts[0].x, 400_000);
    assert_eq!(g.bursts[0].y, 300_000);
    assert_eq!(g.energy, 800_000);
}

#[test]
fn detonation_without_energy_is_a_no_op() {
    let mut g = GameState::new();
    g.energy = 100_000;
    g.popups.push(popup_at(400_000, 300_000, 50_000, 40_000));
    let mut inp = plain_input(400_000, 300_000);
    inp.detonate_pressed = true;
    let ev = g.update(0, &inp);
    assert!(!ev.play_detonate);
    assert_eq!(ev.bursts.len(), 0);
    assert_eq!(g.energy, 100_000);
    assert_eq!(g.popups.len(), 1);
    assert!(g.explosions.is_empty());
    assert_eq!(g.score, 0);
}

#[test]
fn energy_regenerates_toward_full() {
    let mut g = GameState::new();
    g.energy = 500_000;
    let inp = plain_input(0, 0);
    g.update(1_000, &inp);
    // 0.1 per second of regeneration
    assert_eq!(g.energy, 600_000);
    g.update(1_000, &inp);
    g.update(1_000, &inp);
    g.update(1_000, &inp);
    g.update(1_000, &inp);
    assert_eq!(g.energy, 1_000_000);
    g.update(1_000, &inp);
    assert_eq!(g.energy, 1_000_000);
}

#[test]
fn meters_stay_in_range_over_many_frames() {
    let mut g = GameState::new();
    let mut inp = plain_input(400_000, 300_000);
    for i in 0..200 {
        inp.detonate_pressed = i % 3 == 0;
        inp.mouse_x = (i * 7_919) % 800_000;
        inp.mouse_y = (i * 104_729) % 600_000;
        g.update((i % 50) as u32 * 20, &inp);
        assert!(g.health <= 1_000_000);
        assert!(g.energy <= 1_000_000);
    }
}

#[test]
fn game_over_fires_cue_once_and_halts() {
    let mut g = GameState::new();
    g.popups.push(popup_at(400_000, 300_000, 50_000, 40_000));
    let inp = plain_input(400_000, 300_000);
    // 1.0 / 0.15 per second: dead within 7 seconds
    let ev = g.update(7_000, &inp);
    assert_eq!(g.health, 0);
    assert!(ev.play_game_over);
    assert!(g.game_over_sound_played);
    let popups_then = g.popups.len();
    let ev2 = g.update(1_000, &inp);
    assert!(!ev2.play_game_over);
    assert_eq!(g.popups.len(), popups_then);
    assert_eq!(g.health, 0);
}

#[test]
fn restart_resets_everything_but_session_marks() {
    let mut g = GameState::new();
    // let the start cue fire first
    let quiet = plain_input(0, 0);
    for _ in 0..11 {
        g.update(1, &quiet);
    }
    assert!(g.start_sound_played);
    g.popups.push(popup_at(400_000, 300_000, 50_000, 40_000));
    let hit = plain_input(400_000, 300_000);
    g.update(7_000, &hit);
    assert_eq!(g.health, 0);
    let frames_then = g.frames_since_start;
    let mut restart = plain_input(0, 0);
    restart.restart_pressed = true;
    let ev = g.update(16, &restart);
    assert!(ev.play_start);
    assert_eq!(g.health, 1_000_000);
    assert_eq!(g.energy, 1_000_000);
    assert_eq!(g.score, 0);
    assert!(g.popups.is_empty());
    assert!(g.explosions.is_empty());
    assert!(g.bursts.is_empty());
    assert!(g.cursor_trail.is_empty());
    assert!(!g.game_over_sound_played);
    // session-spanning marks survive the restart
    assert!(g.start_sound_played);
    assert_eq!(g.frames_since_start, frames_then + 1);
}

#[test]
fn start_cue_fires_once_after_ten_frames() {
    let mut g = GameState::new();
    let inp = plain_input(0, 0);
    let mut fired = 0;
    for _ in 0..30 {
        let ev = g.update(1, &inp);
        if ev.play_start {
            fired += 1;
        }
    }
    assert_eq!(fired, 1);
    assert!(g.start_sound_played);
}

#[test]
fn trail_keeps_only_recent_samples() {
    let mut g = GameState::new();
    let inp = plain_input(123_000, 45_000);
    for _ in 0..10 {
        g.update(100, &inp);
    }
    // ages after a frame are 100..=300; those at 300 and older drop
    assert_eq!(g.cursor_trail.len(), 2);
    assert_eq!(g.cursor_trail[0].age, 200);
    assert_eq!(g.cursor_trail[1].age, 100);
    assert_eq!(g.cursor_trail[1].x, 123_000);
}

#[test]
fn rings_expire_after_their_lifetime() {
    let mut g = GameState::new();
    let mut det = plain_input(400_000, 300_000);
    det.detonate_pressed = true;
    g.update(0, &det);
    assert_eq!(g.explosions.len(), 1);
    let inp = plain_input(400_000, 300_000);
    g.update(100, &inp);
    assert_eq!(g.explosions.len(), 1);
    assert_eq!(g.explosions[0].timer, 100);
    g.update(100, &inp);
    assert!(g.explosions.is_empty());
}

#[test]
fn burst_records_expire_after_their_lifetime() {
    let mut g = GameState::new();
    g.popups.push(popup_at(400_000, 300_000, 50_000, 40_000));
    let mut det = plain_input(400_000, 300_000);
    det.detonate_pressed = true;
    g.update(0, &det);
    assert_eq!(g.bursts.len(), 1);
    let inp = plain_input(400_000, 300_000);
    g.update(399, &inp);
    assert_eq!(g.bursts.len(), 1);
    g.update(1, &inp);
    assert!(g.bursts.is_empty());
}

#[test]
fn scaled_viewport_converts_pointer_and_ring_radius() {
    let mut g = GameState::new();
    // a 1600 by 1200 pixel viewport: scale 2.000, zero offsets
    let mut inp = plain_input(800_000, 600_000);
    inp.screen_w = 1_600_000;
    inp.screen_h = 1_200_000;
    inp.detonate_pressed = true;
    // physical (800, 600) px is virtual (400, 300)
    g.popups.push(popup_at(400_000, 300_000, 50_000, 40_000));
    let ev = g.update(0, &inp);
    assert_eq!(ev.bursts.len(), 1);
    assert_eq!(g.score, 1);
    assert_eq!(g.explosions[0].radius, 180_000);
    assert_eq!(g.explosions[0].x, 800_000);
}
