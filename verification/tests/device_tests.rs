use embedded_logic::serial::{
    classify_prompt, xor_cipher, LineReverser, Prompt, PromptReader, CIPHER_KEY,
};
use embedded_logic::signals::{
    counter_to_ms, light_bar, motion_led_level, next_on_delay, next_press_count, pulse_edge_step,
    pulse_width_step, toggle_led_state, volume_bar, Chaser, ElapsedClock, Level, PulseAction, PunchMeter,
};
use embedded_logic::whack::{
    next_delay_duration, next_display_duration, response_speed_secs, RoundPlan, WhackFlags,
    MAX_DELAY, MAX_DISPLAY_DURATION, MIN_DELAY, MIN_DISPLAY_DURATION,
};

#[test]
fn on_delay_steps_down_then_resets() {
    let mut d = 2000u32;
    let mut seen = Vec::new();
    for _ in 0..11 {
        seen.push(d);
        d = next_on_delay(d);
    }
    assert_eq!(seen, vec![2000, 1800, 1600, 1400, 1200, 1000, 800, 600, 400, 200, 2000]);
    assert_eq!(next_on_delay(0), 2000);
    assert_eq!(next_on_delay(201), 1);
    assert_eq!(next_on_delay(u32::MAX), u32::MAX - 200);
}

#[test]
fn toggles_counts_and_motion() {
    assert!(toggle_led_state(false));
    assert!(!toggle_led_state(true));
    assert_eq!(next_press_count(0), 1);
    assert_eq!(next_press_count(41), 42);
    assert_eq!(next_press_count(u32::MAX), 0);
    assert_eq!(motion_led_level(true), Level::High);
    assert_eq!(motion_led_level(false), Level::Low);
}

#[test]
fn pulse_width_polling() {
    assert_eq!(pulse_width_step(Level::High, Level::High), (Level::High, PulseAction::Nothing));
    assert_eq!(pulse_width_step(Level::High, Level::Low), (Level::Low, PulseAction::CaptureCounter));
    // a rising edge restarts the count but the remembered level stays low
    assert_eq!(pulse_width_step(Level::Low, Level::High), (Level::Low, PulseAction::ResetCounter));
    assert_eq!(pulse_width_step(Level::Low, Level::Low), (Level::Low, PulseAction::Nothing));
}

#[test]
fn pulse_edges() {
    assert_eq!(pulse_edge_step(Level::Low, Level::High), (Level::High, PulseAction::ResetCounter));
    assert_eq!(pulse_edge_step(Level::High, Level::Low), (Level::Low, PulseAction::CaptureCounter));
    assert_eq!(pulse_edge_step(Level::High, Level::High), (Level::High, PulseAction::Nothing));
    assert_eq!(counter_to_ms(25_999), 25);
    assert_eq!(counter_to_ms(999), 0);
}

#[test]
fn bars() {
    assert_eq!(light_bar(1), [true, false, false, false, false, false, false, false, false, false]);
    assert_eq!(light_bar(9), [true, true, true, true, true, true, true, true, true, false]);
    assert_eq!(light_bar(10), [true; 10]);
    assert_eq!(volume_bar(0), [true, false, false, false, false, false, false, false, false, false]);
    assert_eq!(volume_bar(2), [true, true, true, false, false, false, false, false, false, false]);
    assert_eq!(volume_bar(9), [true; 10]);
}

#[test]
fn chaser_passes_alternate() {
    let mut c = Chaser::new();
    let mut steps = Vec::new();
    for _ in 0..9 {
        steps.push(c.step());
    }
    assert_eq!(
        steps,
        vec![
            (0, Level::High),
            (1, Level::High),
            (2, Level::High),
            (2, Level::Low),
            (1, Level::Low),
            (0, Level::Low),
            (0, Level::High),
            (1, Level::High),
            (2, Level::High),
        ]
    );
}

#[test]
fn elapsed_clock_cycle() {
    let mut c = ElapsedClock::new();
    for _ in 0..59 {
        c.tick();
    }
    assert_eq!(c, ElapsedClock { seconds: 59, minutes: 0, hours: 0 });
    c.tick();
    assert_eq!(c, ElapsedClock { seconds: 60, minutes: 1, hours: 0 });
    for _ in 0..59 {
        c.tick();
    }
    assert_eq!(c, ElapsedClock { seconds: 119, minutes: 60, hours: 1 });
    for _ in 0..22 {
        c.tick();
    }
    assert_eq!(c, ElapsedClock { seconds: 141, minutes: 82, hours: 23 });
    c.tick();
    assert_eq!(c, ElapsedClock { seconds: 0, minutes: 0, hours: 0 });
}

#[test]
fn random_durations_in_range() {
    for _ in 0..200 {
        let d = next_delay_duration();
        assert!((MIN_DELAY..=MAX_DELAY).contains(&d));
        let s = next_display_duration();
        assert!((MIN_DISPLAY_DURATION..=MAX_DISPLAY_DURATION).contains(&s));
    }
}

#[test]
fn response_speed() {
    assert_eq!(response_speed_secs(Some(1234)), 1_234_000);
    assert_eq!(response_speed_secs(None), 0);
}

#[test]
fn whack_round() {
    let mut f = WhackFlags::new();
    assert_eq!(
        f.plan_round(),
        RoundPlan { show_display: false, success: false, failure: false, restart: false }
    );
    f.handle_button_pressed();
    assert!(!f.button_pressed);
    f.handle_delay_timeout();
    assert_eq!(
        f.plan_round(),
        RoundPlan { show_display: true, success: false, failure: false, restart: false }
    );
    f.delay_timed_out = false;
    f.handle_button_pressed();
    assert!(f.button_pressed);
    assert_eq!(
        f.plan_round(),
        RoundPlan { show_display: false, success: true, failure: false, restart: true }
    );
    f.feedback_active = true;
    assert_eq!(
        f.plan_round(),
        RoundPlan { show_display: false, success: false, failure: false, restart: false }
    );
    f.handle_feedback_timeout();
    assert!(!f.feedback_active);
}

#[test]
fn whack_timeout_loses() {
    let mut f = WhackFlags::new();
    f.handle_delay_timeout();
    f.delay_timed_out = false;
    f.handle_display_timeout();
    assert_eq!(
        f.plan_round(),
        RoundPlan { show_display: false, success: false, failure: true, restart: true }
    );
}

#[test]
fn xor_round_trip() {
    let message = b"Hello there, this is Osifo";
    let garbled = xor_cipher(message, CIPHER_KEY);
    assert_eq!(&garbled[..6], &[223, 242, 251, 251, 248, 183]);
    assert_ne!(&garbled[..], &message[..]);
    let decoded = xor_cipher(&garbled, CIPHER_KEY);
    assert_eq!(&decoded[..], &message[..]);
}

#[test]
fn line_reverser() {
    let mut r = LineReverser::new();
    for b in b"abc" {
        assert_eq!(r.feed(*b), None);
    }
    assert_eq!(r.feed(13), Some(b"cba".to_vec()));
    // the carriage return starts the next line
    for b in b"xy" {
        r.feed(*b);
    }
    assert_eq!(r.feed(13), Some(vec![b'y', b'x', 13]));
}

#[test]
fn line_reverser_drops_overflow() {
    let mut r = LineReverser::new();
    for i in 0..40u8 {
        r.feed(b'a' + (i % 26));
    }
    let out = r.feed(13).unwrap();
    assert_eq!(out.len(), 32);
    assert_eq!(out[0], b'a' + 31 % 26);
}

#[test]
fn prompt_reader() {
    let mut p = PromptReader::new();
    for b in b"acc" {
        let input = p.feed(*b);
        assert!(!input.overflowed);
        assert!(input.line.is_none());
    }
    let input = p.feed(13);
    assert_eq!(input.line, Some(b"acc\r".to_vec()));
    assert_eq!(classify_prompt(b"acc"), Prompt::Accelerometer);
    assert_eq!(classify_prompt(b"mag"), Prompt::Magnetometer);
    assert_eq!(classify_prompt(b"ma"), Prompt::Invalid);
    assert_eq!(classify_prompt(b""), Prompt::Invalid);
}

#[test]
fn prompt_reader_overflow() {
    let mut p = PromptReader::new();
    for _ in 0..64 {
        assert!(!p.feed(b'x').overflowed);
    }
    assert!(p.feed(b'x').overflowed);
    let input = p.feed(13);
    assert!(input.overflowed);
    assert_eq!(input.line.unwrap().len(), 64);
}

#[test]
fn punch_meter_reports_a_higher_second_reading() {
    let mut m = PunchMeter::new();
    assert_eq!(m.read(50), None);
    assert!(!m.measuring);
    assert_eq!(m.read(300), None);
    assert!(m.measuring);
    assert_eq!(m.max_acc, 300);
    assert_eq!(m.read(450), Some(450));
    assert!(!m.measuring);
    assert_eq!(m.max_acc, 0);
    assert_eq!(m.read(101), None);
    assert_eq!(m.read(90), None);
    assert!(!m.measuring);
}
