use blade_lights::light_ports::{LightError, LightPorts, BLINK_MSEC, LED_NUM};
use blade_lights::rgb::Rgb;

#[test]
fn new_buffer_is_dark_and_quiet() {
    let l = LightPorts::new(1234);
    assert_eq!(l.led_data, [Rgb::new(0, 0, 0); LED_NUM]);
    assert_eq!(l.blink_mask, [false; LED_NUM]);
    assert!(!l.blink_on);
    assert_eq!(l.blink_next, 1234);
}

#[test]
fn set_then_refresh_reproduces_the_color() {
    let mut l = LightPorts::new(0);
    let color = Rgb::new(17, 99, 3);
    assert_eq!(l.set_blade(5, color, false), Ok(()));
    // Before the deadline, with a content change: a frame goes out.
    let frame = l.refresh(true, 0).expect("a content change transmits");
    assert_eq!(frame[5], color);
    for i in 0..LED_NUM {
        if i != 5 {
            assert_eq!(frame[i], Rgb::new(0, 0, 0));
        }
    }
}

#[test]
fn set_every_blade_round_trips() {
    let mut l = LightPorts::new(0);
    for i in 0..LED_NUM as u8 {
        let color = Rgb::new(i, i.wrapping_add(1), i.wrapping_add(2));
        assert_eq!(l.set_blade(i, color, false), Ok(()));
    }
    let frame = l.refresh(true, 0).unwrap();
    for i in 0..LED_NUM {
        let i8v = i as u8;
        assert_eq!(frame[i], Rgb::new(i8v, i8v.wrapping_add(1), i8v.wrapping_add(2)));
    }
}

#[test]
fn blinking_blade_is_black_while_phase_is_off() {
    let mut l = LightPorts::new(0);
    let color = Rgb::new(200, 10, 10);
    l.set_blade(7, color, true).unwrap();
    // The fresh buffer's phase is off: the flagged blade reads black.
    let frame = l.refresh(true, 0).unwrap();
    assert_eq!(frame[7], Rgb::new(0, 0, 0));
}

#[test]
fn out_of_range_set_fails_and_changes_nothing() {
    let mut l = LightPorts::new(0);
    l.set_blade(3, Rgb::new(9, 9, 9), false).unwrap();
    let before = l.refresh(true, 0).unwrap();

    assert_eq!(l.set_blade(32, Rgb::new(1, 2, 3), true), Err(LightError::IndexOutOfRange));
    assert_eq!(l.set_blade(255, Rgb::new(1, 2, 3), true), Err(LightError::IndexOutOfRange));

    let after = l.refresh(true, 0).unwrap();
    assert_eq!(before, after);
}

#[test]
fn refresh_without_changes_is_elided() {
    let mut l = LightPorts::new(0);
    // No prior set, before the blink deadline: nothing is transmitted.
    assert_eq!(l.refresh(false, 0), None);
    // Still nothing on a later quiet tick that has not passed the deadline.
    l.blink_next = 100;
    assert_eq!(l.refresh(false, 100), None);
    assert_eq!(l.refresh(false, 50), None);
}

#[test]
fn refresh_at_the_exact_deadline_does_not_flip() {
    let mut l = LightPorts::new(200);
    // "Passed" is strictly after on the wrapping clock.
    assert_eq!(l.refresh(false, 200), None);
    assert!(!l.blink_on);
    // One tick later the deadline has passed.
    assert!(l.refresh(false, 201).is_some());
    assert!(l.blink_on);
}

#[test]
fn blink_deadline_advances_by_one_period() {
    let mut l = LightPorts::new(0);
    l.refresh(false, 201).unwrap();
    assert_eq!(l.blink_next, BLINK_MSEC);
    l.refresh(false, 402).unwrap();
    assert_eq!(l.blink_next, 2 * BLINK_MSEC);
}

#[test]
fn blink_alternates_across_four_periods() {
    let mut l = LightPorts::new(0);
    let color = Rgb::new(120, 0, 44);
    l.set_blade(11, color, true).unwrap();
    l.set_blade(12, color, false).unwrap();

    let mut now: u32 = 1;
    let mut expected_on = false;
    // Eight deadline crossings: four full blink periods.
    for _ in 0..8 {
        now += BLINK_MSEC;
        let frame = l.refresh(false, now).expect("a blink flip transmits");
        expected_on = !expected_on;
        assert_eq!(l.blink_on, expected_on);
        // The flagged blade alternates between its color and black.
        if expected_on {
            assert_eq!(frame[11], color);
        } else {
            assert_eq!(frame[11], Rgb::new(0, 0, 0));
        }
        // An unflagged blade always shows its color.
        assert_eq!(frame[12], color);
    }
}

#[test]
fn blink_flip_crosses_the_timer_wraparound() {
    let mut l = LightPorts::new(0);
    l.set_blade(0, Rgb::new(5, 5, 5), true).unwrap();
    l.blink_next = u32::MAX - 100;
    // 151 ticks past the deadline, on the far side of the wraparound.
    let frame = l.refresh(false, 50);
    assert!(frame.is_some());
    assert!(l.blink_on);
    assert_eq!(l.blink_next, (u32::MAX - 100).wrapping_add(BLINK_MSEC));
}
