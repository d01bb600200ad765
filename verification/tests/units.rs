//! Unit checks of the geometric primitives, the coordinate scaler, the
//! pursuit step and the WAV container.
use cursor_crisis::geom::{clamp_i64, isqrt};
use cursor_crisis::popup::Popup;
use cursor_crisis::scaler::{get_scaling, to_physical, to_virtual};
use cursor_crisis::wav::WavGenerator;

fn square_at(x: i64, y: i64, w: i64, speed: u32) -> Popup {
    Popup {
        x,
        y,
        w,
        h: w,
        speed,
        char_index: 0,
        scale_timer: 0,
    }
}

#[test]
fn isqrt_exact_and_floor() {
    assert_eq!(isqrt(0), 0);
    assert_eq!(isqrt(1), 1);
    assert_eq!(isqrt(3), 1);
    assert_eq!(isqrt(4), 2);
    assert_eq!(isqrt(15), 3);
    assert_eq!(isqrt(16), 4);
    assert_eq!(isqrt(1_000_000_000_000), 1_000_000);
    assert_eq!(isqrt(2_500_000_000_000_000_000_000_000_000_000), 1_581_138_830_084_189);
}

#[test]
fn clamp_picks_nearest_bound() {
    assert_eq!(clamp_i64(5, 0, 10), 5);
    assert_eq!(clamp_i64(-5, 0, 10), 0);
    assert_eq!(clamp_i64(15, 0, 10), 10);
}

#[test]
fn nearest_point_distance_zero_inside_rectangle() {
    // a target centered at (100, 100), 50 by 50 units
    let p = square_at(75_000, 75_000, 50_000, 40_000);
    // the pointer at the center is within any positive radius
    assert_eq!(p.distance_to_clamped_point(100_000, 100_000), 0);
    // on the edge still counts as distance zero
    assert_eq!(p.distance_to_clamped_point(75_000, 100_000), 0);
    assert_eq!(p.distance_to_clamped_point(125_000, 125_000), 0);
}

#[test]
fn nearest_point_distance_reaches_edges_and_corners() {
    let p = square_at(75_000, 75_000, 50_000, 40_000);
    // straight left of the rectangle: plain horizontal distance
    assert_eq!(p.distance_to_clamped_point(50_000, 100_000), 25_000u128 * 25_000);
    // beyond the far corner: distance to the corner
    let d = p.distance_to_clamped_point(500_000, 500_000);
    assert_eq!(d, 375_000u128 * 375_000 * 2);
    // a pointer at (500, 500) never matches a 90-unit radius
    assert!(d > 90_000u128 * 90_000);
}

#[test]
fn contact_test_uses_half_open_box() {
    let p = square_at(100_000, 100_000, 50_000, 40_000);
    assert!(p.hit(100_000, 100_000));
    assert!(p.hit(149_999, 149_999));
    assert!(!p.hit(150_000, 100_000));
    assert!(!p.hit(100_000, 150_000));
    assert!(!p.hit(99_999, 100_000));
}

#[test]
fn pursuit_moves_along_the_axis() {
    // center (20, 20), pointer (120, 20): pure horizontal chase
    let mut p = square_at(0, 0, 40_000, 100_000);
    p.follow(120_000, 20_000, 1_000);
    // one second at speed 100 covers the whole 100-unit gap
    assert_eq!(p.x, 100_000);
    assert_eq!(p.y, 0);
}

#[test]
fn pursuit_splits_diagonal_by_similar_triangles() {
    // center (20, 20), displacement (30, 40): distance 50
    let mut p = square_at(0, 0, 40_000, 50_000);
    p.follow(50_000, 60_000, 1_000);
    assert_eq!(p.x, 30_000);
    assert_eq!(p.y, 40_000);
}

#[test]
fn pursuit_stops_within_one_unit() {
    let mut p = square_at(0, 0, 40_000, 100_000);
    // the pointer half a unit from the center: no movement at all
    p.follow(20_500, 20_000, 1_000);
    assert_eq!(p.x, 0);
    assert_eq!(p.y, 0);
}

#[test]
fn phase_accumulates_by_elapsed_time() {
    let mut p = square_at(0, 0, 40_000, 100_000);
    p.update(250);
    p.update(250);
    assert_eq!(p.scale_timer, 500);
}

#[test]
fn scaling_is_identity_on_the_native_viewport() {
    let s = get_scaling(800_000, 600_000);
    assert_eq!(s.scale, 1_000);
    assert_eq!(s.offset_x, 0);
    assert_eq!(s.offset_y, 0);
}

#[test]
fn scaling_centers_a_wide_viewport() {
    // 1600 by 600 pixels: height limits the scale, width gets margins
    let s = get_scaling(1_600_000, 600_000);
    assert_eq!(s.scale, 1_000);
    assert_eq!(s.offset_x, 400_000);
    assert_eq!(s.offset_y, 0);
}

#[test]
fn scaling_shrinks_a_small_viewport() {
    // 400 by 300 pixels: everything at half size
    let s = get_scaling(400_000, 300_000);
    assert_eq!(s.scale, 500);
    assert_eq!(s.offset_x, 0);
    assert_eq!(s.offset_y, 0);
}

#[test]
fn pointer_conversion_undoes_offset_and_scale() {
    let s = get_scaling(1_600_000, 600_000);
    // physical (1000, 300) px on the centered field is virtual (600, 300)
    assert_eq!(to_virtual(1_000_000, s.offset_x, s.scale), 600_000);
    assert_eq!(to_virtual(300_000, s.offset_y, s.scale), 300_000);
    // left of the field: negative virtual coordinates
    assert_eq!(to_virtual(100_000, s.offset_x, s.scale), -300_000);
}

#[test]
fn drawing_conversion_applies_offset_and_scale() {
    let s = get_scaling(1_600_000, 600_000);
    // virtual (600, 300) lands at physical (1000, 300) px
    assert_eq!(to_physical(600_000, s.offset_x, s.scale), 1_000_000);
    assert_eq!(to_physical(300_000, s.offset_y, s.scale), 300_000);
    // a target that left the field draws left of it
    assert_eq!(to_physical(-300_000, s.offset_x, s.scale), 100_000);
    // half-size viewport: virtual distances shrink by two
    let half = get_scaling(400_000, 300_000);
    assert_eq!(to_physical(600_000, half.offset_x, half.scale), 300_000);
}

#[test]
fn conversions_invert_each_other_on_grid_points() {
    let s = get_scaling(1_600_000, 900_000);
    for v in [0i64, 1_000, 123_000, 400_000, 799_000] {
        let p = to_physical(v, s.offset_x, s.scale);
        assert_eq!(to_virtual(p, s.offset_x, s.scale), v);
    }
}

#[test]
fn wav_has_exact_riff_layout() {
    let wav = WavGenerator::create_wav_from_samples(&[0, 1, -1], 44_100);
    let expected: Vec<u8> = vec![
        b'R', b'I', b'F', b'F', 42, 0, 0, 0, b'W', b'A', b'V', b'E', b'f', b'm', b't', b' ', 16,
        0, 0, 0, 1, 0, 1, 0, 0x44, 0xAC, 0, 0, 0x88, 0x58, 1, 0, 2, 0, 16, 0, b'd', b'a', b't',
        b'a', 6, 0, 0, 0, 0, 0, 1, 0, 0xFF, 0xFF,
    ];
    assert_eq!(wav, expected);
}

#[test]
fn wav_of_no_samples_is_a_bare_header() {
    let wav = WavGenerator::create_wav_from_samples(&[], 8_000);
    assert_eq!(wav.len(), 44);
    assert_eq!(&wav[0..4], b"RIFF");
    assert_eq!(wav[4], 36);
    assert_eq!(&wav[36..40], b"data");
    assert_eq!(wav[40], 0);
}

#[test]
fn wav_encodes_extreme_samples() {
    let wav = WavGenerator::create_wav_from_samples(&[i16::MIN, i16::MAX], 22_050);
    assert_eq!(&wav[44..48], &[0x00, 0x80, 0xFF, 0x7F]);
}
