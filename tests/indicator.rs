use build_status_light::indicator::{
    pattern_frame_at, scale_channel, Frame, Pattern, RgbLedLight, BLINK_PHASE_MS, GLOW_STEP_MS,
    GREEN, PURPLE, RED, WHITE,
};

fn frame(red: i32, green: i32, blue: i32, hold_ms: u64) -> Frame {
    Frame { red, green, blue, hold_ms }
}

#[test]
fn scaling_cuts_toward_zero() {
    assert_eq!(scale_channel(100, 29), 29);
    assert_eq!(scale_channel(100, 100), 100);
    assert_eq!(scale_channel(100, 0), 0);
    assert_eq!(scale_channel(55, 50), 27);
    assert_eq!(scale_channel(-55, 50), -27);
    assert_eq!(scale_channel(i32::MAX, 100), i32::MAX);
    assert_eq!(scale_channel(i32::MIN, 100), i32::MIN);
    assert_eq!(scale_channel(i32::MIN, 50), -1_073_741_824);
}

#[test]
fn held_patterns_write_once() {
    assert_eq!(pattern_frame_at(&Pattern::Off, 0), Some(frame(0, 0, 0, 0)));
    assert_eq!(pattern_frame_at(&Pattern::Off, 1), None);
    assert_eq!(pattern_frame_at(&Pattern::Solid((1, 2, 3)), 0), Some(frame(1, 2, 3, 0)));
    assert_eq!(pattern_frame_at(&Pattern::Solid((1, 2, 3)), 5), None);
}

#[test]
fn blink_alternates() {
    let p = Pattern::Blink(RED);
    assert_eq!(pattern_frame_at(&p, 0), Some(frame(100, 0, 0, BLINK_PHASE_MS)));
    assert_eq!(pattern_frame_at(&p, 1), Some(frame(0, 0, 0, 750)));
    assert_eq!(pattern_frame_at(&p, 2), Some(frame(100, 0, 0, 750)));
    assert_eq!(pattern_frame_at(&p, u64::MAX), Some(frame(0, 0, 0, 750)));
}

#[test]
fn glow_ramps_up_and_down() {
    let p = Pattern::Glow(PURPLE, GLOW_STEP_MS);
    assert_eq!(pattern_frame_at(&p, 0), Some(frame(0, 0, 0, 7)));
    assert_eq!(pattern_frame_at(&p, 29), Some(frame(29, 0, 29, 7)));
    assert_eq!(pattern_frame_at(&p, 100), Some(frame(100, 0, 100, 7)));
    assert_eq!(pattern_frame_at(&p, 101), Some(frame(100, 0, 100, 7)));
    assert_eq!(pattern_frame_at(&p, 150), Some(frame(51, 0, 51, 7)));
    assert_eq!(pattern_frame_at(&p, 201), Some(frame(0, 0, 0, 7)));
    assert_eq!(pattern_frame_at(&p, 202), Some(frame(0, 0, 0, 7)));
    assert_eq!(pattern_frame_at(&p, 203), Some(frame(1, 0, 1, 7)));
    let odd = Pattern::Glow((55, -55, 7), 3);
    assert_eq!(pattern_frame_at(&odd, 50), Some(frame(27, -27, 3, 3)));
}

#[test]
fn new_light_is_dark_and_idle() {
    let light = RgbLedLight::new(17, 27, 22);
    assert_eq!((light.red_pin(), light.green_pin(), light.blue_pin()), (17, 27, 22));
    assert_eq!(light.generation(), 0);
    assert!(!light.is_blinking());
}

#[test]
fn later_pattern_cancels_earlier() {
    let mut light = RgbLedLight::new(1, 2, 3);
    let a = light.blink_led(RED);
    assert!(light.is_blinking());
    assert_eq!(light.next_write(a, 0), Some(frame(100, 0, 0, 750)));
    let b = light.glow_led(WHITE);
    assert!(b > a);
    assert_eq!(light.next_write(a, 1), None);
    assert_eq!(light.next_write(b, 100), Some(frame(100, 100, 100, 7)));
    for step in 0..500 {
        assert_eq!(light.next_write(a, step), None);
    }
    let c = light.set_led_rgb_values(GREEN);
    assert!(!light.is_blinking());
    assert_eq!(light.next_write(b, 101), None);
    assert_eq!(light.next_write(c, 0), Some(frame(0, 100, 0, 0)));
    assert_eq!(light.next_write(c, 1), None);
}

#[test]
fn every_command_starts_a_generation() {
    let mut light = RgbLedLight::new(1, 2, 3);
    assert_eq!(light.turn_led_on(), 1);
    assert_eq!(light.next_write(1, 0), Some(frame(100, 100, 100, 0)));
    assert_eq!(light.turn_led_off(), 2);
    assert_eq!(light.next_write(2, 0), Some(frame(0, 0, 0, 0)));
    assert_eq!(light.glow_led_period(GREEN, 700), 3);
    assert_eq!(light.next_write(3, 100), Some(frame(0, 100, 0, 3)));
    assert_eq!(light.start_pattern(Pattern::Blink(PURPLE)), 4);
    assert_eq!(light.generation(), 4);
    assert_eq!(light.next_write(3, 0), None);
}

#[test]
fn interleaved_writes_keep_generation_order() {
    let mut light = RgbLedLight::new(1, 2, 3);
    let mut tickets = Vec::new();
    let mut written = Vec::new();
    for round in 0..20u64 {
        tickets.push(light.blink_led(RED));
        for (i, g) in tickets.iter().enumerate() {
            if light.next_write(*g, round + i as u64).is_some() {
                written.push(*g);
            }
        }
    }
    assert_eq!(written.len(), 20);
    assert!(written.windows(2).all(|w| w[0] <= w[1]));
}
