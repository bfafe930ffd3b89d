use blade_lights::pallet::{adjust_temperature, get_color_bright, get_temperature, Colors};
use blade_lights::rgb::Rgb;

#[test]
fn round_trip_every_tint_and_level() {
    for tint in 0u8..=6 {
        for level in 0u8..=15 {
            let temp = get_temperature(tint, level);
            assert_eq!((temp & 0xf0) >> 4, tint);
            assert_eq!(temp & 0x0f, level);
        }
    }
}

#[test]
fn pack_clamps_silently() {
    // Tint above 6 clamps to 0 (off), level above 15 clamps to 15.
    assert_eq!(get_temperature(7, 20), 0x0f);
    assert_eq!(get_temperature(9, 3), 0x03);
    assert_eq!(get_temperature(3, 200), 0x3f);
    assert_eq!(get_temperature(255, 255), 0x0f);
}

#[test]
fn adjust_decays_to_floor_and_stays() {
    // Fifteen decay steps from level 15 reach the all-zero byte.
    let mut temp = get_temperature(4, 15);
    for expected_level in (0u8..15).rev() {
        temp = adjust_temperature(temp, -1);
        if expected_level >= 1 {
            assert_eq!(temp, get_temperature(4, expected_level));
        } else {
            assert_eq!(temp, 0);
        }
    }
    assert_eq!(temp, 0);
    // Further decay stays at the extinguished byte.
    assert_eq!(adjust_temperature(temp, -1), 0);
    assert_eq!(adjust_temperature(0, -1), 0);
}

#[test]
fn adjust_extinguishes_and_loses_tint() {
    // Level 1 minus 1 falls below 1: the whole byte goes to zero.
    assert_eq!(adjust_temperature(get_temperature(2, 1), -1), 0);
    // The tint is lost with it: raising the level again gives tint 0.
    assert_eq!(adjust_temperature(0, 3), get_temperature(0, 3));
}

#[test]
fn adjust_up_clamps_at_fifteen() {
    assert_eq!(adjust_temperature(get_temperature(2, 10), 10), get_temperature(2, 15));
    assert_eq!(adjust_temperature(get_temperature(6, 15), 1), get_temperature(6, 15));
}

#[test]
fn color_bright_pure_hues() {
    // Tint 1-3: one pure channel scaled by (level / 15) * brightness.
    assert_eq!(get_color_bright(0x1f, 150), Rgb::new(150, 0, 0));
    assert_eq!(get_color_bright(0x2f, 90), Rgb::new(0, 90, 0));
    assert_eq!(get_color_bright(0x3f, 100), Rgb::new(0, 0, 100));
    // Half the level halves the channel (integer division).
    assert_eq!(get_color_bright(0x17, 150), Rgb::new(70, 0, 0));
}

#[test]
fn color_bright_blends_at_half_intensity() {
    // Tint 4-6: two channels at half the scaled intensity.
    assert_eq!(get_color_bright(0x4a, 100), Rgb::new(33, 0, 33));
    assert_eq!(get_color_bright(0x5f, 120), Rgb::new(60, 60, 0));
    assert_eq!(get_color_bright(0x6f, 120), Rgb::new(0, 60, 60));
}

#[test]
fn color_bright_off_is_black() {
    // Tint 0 is off, and a zero level darkens any tint completely.
    assert_eq!(get_color_bright(0x0f, 255), Rgb::new(0, 0, 0));
    assert_eq!(get_color_bright(0x10, 255), Rgb::new(0, 0, 0));
    assert_eq!(get_color_bright(0x00, 255), Rgb::new(0, 0, 0));
}

#[test]
fn named_colors() {
    assert_eq!(Colors::Black.as_rgb(), Rgb::new(0x00, 0x00, 0x00));
    assert_eq!(Colors::Red.as_rgb(), Rgb::new(0x3f, 0x00, 0x00));
    assert_eq!(Colors::Orange.as_rgb(), Rgb::new(0x3f, 0x1f, 0x00));
    assert_eq!(Colors::Yellow.as_rgb(), Rgb::new(0x3f, 0x3f, 0x00));
    assert_eq!(Colors::Green.as_rgb(), Rgb::new(0x00, 0x3f, 0x00));
    assert_eq!(Colors::Cyan.as_rgb(), Rgb::new(0x00, 0x3f, 0x3f));
    assert_eq!(Colors::Blue.as_rgb(), Rgb::new(0x00, 0x00, 0x3f));
    assert_eq!(Colors::Magenta.as_rgb(), Rgb::new(0x3f, 0x00, 0x3f));
    assert_eq!(Colors::White.as_rgb(), Rgb::new(0x3f, 0x3f, 0x3f));
    assert_eq!(Colors::Off.as_rgb(), Rgb::new(0x00, 0x00, 0x00));
}
