use tank_sim::color::{tank_color, Rgb};
use tank_sim::fixed::{fp_div_pos, fp_mul, SCALE};
use tank_sim::motion::{heading_angle, sample_coord};
use tank_sim::vec3::Vec3;

#[test]
fn fp_mul_exact_products() {
    assert_eq!(fp_mul(2_000_000, 3_000_000), 6_000_000);
    assert_eq!(fp_mul(717_000, 20_000_000), 14_340_000);
    assert_eq!(fp_mul(800_000, 20_000_000), 16_000_000);
    assert_eq!(fp_mul(SCALE, 324_000), 324_000);
}

#[test]
fn fp_mul_rounds_toward_zero() {
    assert_eq!(fp_mul(-1_500_000, 500_000), -750_000);
    // Truncation, not flooring: a tiny negative product rounds up to zero.
    assert_eq!(fp_mul(-1, 999_999), 0);
    assert_eq!(fp_mul(1, 999_999), 0);
    assert_eq!(fp_mul(-1_000_001, 1_000_001), -1_000_002);
}

#[test]
fn fp_div_rounds_toward_zero() {
    assert_eq!(fp_div_pos(-25, 10), -2);
    assert_eq!(fp_div_pos(25, 10), 2);
    assert_eq!(fp_div_pos(-30, 10), -3);
}

#[test]
fn heading_spans_two_turns() {
    // Noise 0 maps to half the span: one full turn (2 pi).
    assert_eq!(heading_angle(0), 6_283_185);
    // Noise -0.5 maps to heading zero.
    assert_eq!(heading_angle(-500_000), 0);
    // Noise +0.5 maps to the full span of 4 pi.
    assert_eq!(heading_angle(500_000), 12_566_371);
}

#[test]
fn sample_coord_scales_down_by_ten() {
    let pos = Vec3::new(-25_000_000, 4_000_000, 7_000_000);
    let (sx, sz) = sample_coord(&pos);
    assert_eq!(sx, -2_500_000);
    assert_eq!(sz, 700_000);
}

#[test]
fn tank_colors_walk_the_hue_wheel() {
    // id 0 (the player's hue): pure red.
    assert_eq!(tank_color(0), Rgb { r: 1_000_000, g: 0, b: 0 });
    // id 1: hue 18, still in the red-to-yellow sector.
    assert_eq!(tank_color(1), Rgb { r: 1_000_000, g: 300_000, b: 0 });
    // id 5: hue 90, yellow-to-green sector.
    assert_eq!(tank_color(5), Rgb { r: 500_000, g: 1_000_000, b: 0 });
    // id 19: hue 342, magenta-to-red sector.
    assert_eq!(tank_color(19), Rgb { r: 1_000_000, g: 0, b: 300_000 });
    // ids repeat every twenty.
    assert_eq!(tank_color(23), tank_color(3));
}

#[test]
fn tank_color_channels_stay_in_range() {
    let mut id: u32 = 0;
    while id < 40 {
        let c = tank_color(id);
        assert!(0 <= c.r && c.r <= SCALE);
        assert!(0 <= c.g && c.g <= SCALE);
        assert!(0 <= c.b && c.b <= SCALE);
        id += 1;
    }
}
