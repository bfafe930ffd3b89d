use blade_lights::light_ports::LightPorts;
use blade_lights::rgb::Rgb;
use blade_lights::spiral::ShellSpiralEffect;

#[test]
fn new_spiral_starts_at_the_head_in_red() {
    let e = ShellSpiralEffect::new(80, 50);
    assert_eq!(e.spiral_index, 0);
    assert_eq!(e.brightness, 80);
    assert_eq!(e.delay_ms, 50);
    assert_eq!(e.cur_color, 0);
    assert_eq!(e.cur_band_cnt, 0);
    assert_eq!(e.color_band_size, 32);
    assert_eq!(e.last_color, None);
}

#[test]
fn spiral_update_is_throttled() {
    let mut e = ShellSpiralEffect::new(80, 50);
    let mut lights = LightPorts::new(0);
    assert!(!e.update(&mut lights, 49));
    assert_eq!(e.spiral_index, 0);
    assert_eq!(e.last_color, None);
    assert_eq!(lights.led_data, [Rgb::new(0, 0, 0); 32]);
}

#[test]
fn one_tick_emits_one_red_pixel() {
    let mut e = ShellSpiralEffect::new(80, 50);
    let mut lights = LightPorts::new(0);
    lights.set_blade(9, Rgb::new(4, 4, 4), false).unwrap();

    assert!(e.update(&mut lights, 50));
    assert_eq!(lights.led_data[0], Rgb::new(80, 0, 0));
    // Only the cursor blade was touched.
    assert_eq!(lights.led_data[9], Rgb::new(4, 4, 4));
    assert_eq!(lights.led_data[1], Rgb::new(0, 0, 0));
    assert_eq!(e.spiral_index, 1);
    assert_eq!(e.cur_band_cnt, 1);
    assert_eq!(e.cur_color, 0);
    assert_eq!(e.last_color, Some(Rgb::new(80, 0, 0)));
    assert_eq!(e.last_update, 50);
}

#[test]
fn hue_changes_once_per_full_revolution() {
    let mut e = ShellSpiralEffect::new(80, 50);
    let mut lights = LightPorts::new(0);

    let mut now: u32 = 0;
    // One full revolution paints the whole strip red.
    for i in 0..32usize {
        now += 50;
        assert!(e.update(&mut lights, now));
        assert_eq!(lights.led_data[i], Rgb::new(80, 0, 0));
    }
    assert_eq!(e.spiral_index, 0);
    assert_eq!(e.cur_color, 1);
    assert_eq!(e.cur_band_cnt, 0);

    // The next revolution turns it green, one blade per tick.
    now += 50;
    assert!(e.update(&mut lights, now));
    assert_eq!(lights.led_data[0], Rgb::new(0, 80, 0));
    assert_eq!(lights.led_data[1], Rgb::new(80, 0, 0));
}

#[test]
fn palette_cycles_through_six_hues() {
    let mut e = ShellSpiralEffect::new(10, 50);
    let mut lights = LightPorts::new(0);
    let palette = [
        Rgb::new(10, 0, 0),
        Rgb::new(0, 10, 0),
        Rgb::new(0, 0, 10),
        Rgb::new(10, 0, 10),
        Rgb::new(10, 10, 0),
        Rgb::new(0, 10, 10),
    ];

    let mut now: u32 = 0;
    for hue in 0..7usize {
        for _ in 0..32 {
            now += 50;
            assert!(e.update(&mut lights, now));
        }
        // A full revolution later, the strip wears this cycle's hue.
        assert_eq!(lights.led_data, [palette[hue % 6]; 32]);
    }
}
