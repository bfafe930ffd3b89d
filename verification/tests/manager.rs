use blade_lights::effects::{Effect, EffectManager};
use blade_lights::light_ports::LightPorts;
use blade_lights::rgb::Rgb;

#[test]
fn new_manager_runs_the_spark_fire() {
    let m = EffectManager::new(500);
    assert!(matches!(m.current_effect, Effect::ShellSparkFire(_)));
    assert_eq!(m.effect_index, 2);
    assert_eq!(m.effect_duration_sec, 60);
    assert_eq!(m.effect_start_time, 500);
}

#[test]
fn no_rotation_before_the_duration() {
    let mut m = EffectManager::new(0);
    let mut lights = LightPorts::new(0);
    // 59.999 seconds in: still the first effect.
    m.update(&mut lights, 59_999);
    assert!(matches!(m.current_effect, Effect::ShellSparkFire(_)));
    assert_eq!(m.effect_index, 2);
    assert_eq!(m.effect_start_time, 0);
}

#[test]
fn rotation_at_the_duration_clears_and_advances() {
    let mut m = EffectManager::new(0);
    let mut lights = LightPorts::new(0);
    lights.set_blade(4, Rgb::new(7, 7, 7), true).unwrap();

    // Exactly 60s in, and early enough (10ms on the tick counter reading)
    // that the fresh effect's own throttle has not elapsed: the buffer
    // shows the rotation's clear step untouched.
    m.effect_start_time = 10u32.wrapping_sub(60_000);
    let changed = m.update(&mut lights, 10);

    assert!(matches!(m.current_effect, Effect::ShellFire(_)));
    assert_eq!(m.effect_index, 0);
    assert_eq!(m.effect_start_time, 10);
    assert!(!changed);
    assert_eq!(lights.led_data, [Rgb::new(0, 0, 0); 32]);
    assert_eq!(lights.blink_mask, [false; 32]);
}

#[test]
fn rotation_happens_exactly_once() {
    let mut m = EffectManager::new(0);
    let mut lights = LightPorts::new(0);
    m.effect_start_time = 10u32.wrapping_sub(60_000);
    m.update(&mut lights, 10);
    assert_eq!(m.effect_index, 0);

    // The same tick again: the rotated effect's clock was reset to now, so
    // no second rotation happens.
    m.update(&mut lights, 10);
    assert_eq!(m.effect_index, 0);
    assert!(matches!(m.current_effect, Effect::ShellFire(_)));
}

#[test]
fn rotation_cycles_through_all_three_effects() {
    let mut m = EffectManager::new(0);
    let mut lights = LightPorts::new(0);

    let mut now: u32 = 0;

    now += 60_000;
    m.update(&mut lights, now);
    assert!(matches!(m.current_effect, Effect::ShellFire(_)));
    assert_eq!(m.effect_index, 0);
    assert_eq!(m.effect_start_time, now);

    now += 60_000;
    m.update(&mut lights, now);
    assert!(matches!(m.current_effect, Effect::ShellSpiral(_)));
    assert_eq!(m.effect_index, 1);

    now += 60_000;
    m.update(&mut lights, now);
    assert!(matches!(m.current_effect, Effect::ShellSparkFire(_)));
    assert_eq!(m.effect_index, 2);

    now += 60_000;
    m.update(&mut lights, now);
    assert!(matches!(m.current_effect, Effect::ShellFire(_)));
    assert_eq!(m.effect_index, 0);
}

#[test]
fn rotation_crosses_the_timer_wraparound() {
    let mut m = EffectManager::new(0);
    let mut lights = LightPorts::new(0);

    // The effect began 30s before the counter wraps; 30s after the wrap,
    // its 60s are up.
    m.effect_start_time = u32::MAX - 29_999;
    let now: u32 = 30_000;
    m.update(&mut lights, now);
    assert_eq!(m.effect_index, 0);
    assert!(matches!(m.current_effect, Effect::ShellFire(_)));
    assert_eq!(m.effect_start_time, now);
}

#[test]
fn the_active_effect_animates_after_rotation() {
    let mut m = EffectManager::new(0);
    let mut lights = LightPorts::new(0);

    // Rotate twice to reach the spiral, late enough that the fresh
    // spiral's throttle has elapsed on its first tick.
    m.update(&mut lights, 60_000);
    let changed = m.update(&mut lights, 120_000);

    assert!(matches!(m.current_effect, Effect::ShellSpiral(_)));
    // The fresh spiral animates at once: one red pixel at the head of the
    // cleared strip.
    assert!(changed);
    assert_eq!(lights.led_data[0], Rgb::new(80, 0, 0));
    assert_eq!(lights.led_data[1], Rgb::new(0, 0, 0));
}

#[test]
fn a_throttled_tick_reports_no_change() {
    let mut m = EffectManager::new(0);
    let mut lights = LightPorts::new(0);

    // The spark fire's throttle is 50ms and its clock starts at 0.
    assert!(!m.update(&mut lights, 20));
    assert!(m.update(&mut lights, 50));
    assert!(!m.update(&mut lights, 70));
}
