use embedded_logic::keypad::{
    door_key, door_sweep, keypad_char, keypad_scan, pressed_column, DoorEvent, DoorKey, DoorLock,
    DoorMove,
};
use embedded_logic::pwm::{
    adc_to_pwm_cycle, duty_ramp, duty_ramp_down, servo_duty_bounds, servo_sweep, trunc_div,
    FadeError, FadePhase, PwmAction, PwmFade,
};

#[test]
fn adc_mapping() {
    assert_eq!(adc_to_pwm_cycle(0), 0);
    assert_eq!(adc_to_pwm_cycle(4095), 16383);
    assert_eq!(adc_to_pwm_cycle(2048), 8193);
    assert_eq!(adc_to_pwm_cycle(1000), 4000);
    assert_eq!(adc_to_pwm_cycle(65535), 262188);
}

#[test]
fn servo_bounds() {
    assert_eq!(servo_duty_bounds(1023), (51, 102));
    assert_eq!(servo_duty_bounds(16383), (819, 1638));
    assert_eq!(servo_duty_bounds(0), (0, 0));
    for max in [1u32, 19, 20, 21, 99, 100, 1000, 65535, u32::MAX] {
        let (lo, hi) = servo_duty_bounds(max);
        assert_eq!(lo, (0.05 * max as f64) as u32);
        assert_eq!(hi, (0.10 * max as f64) as u32);
    }
}

#[test]
fn ramps() {
    assert_eq!(duty_ramp(2, 5), vec![2, 3, 4]);
    assert_eq!(duty_ramp(5, 5), Vec::<u32>::new());
    assert_eq!(duty_ramp(6, 5), Vec::<u32>::new());
    assert_eq!(duty_ramp_down(2, 5), vec![4, 3, 2]);
    assert_eq!(duty_ramp_down(5, 2), Vec::<u32>::new());
    assert_eq!(servo_sweep(1, 3), vec![1, 2, 3, 2, 1]);
    assert_eq!(servo_sweep(4, 4), vec![4]);
    assert_eq!(servo_sweep(5, 4), Vec::<u32>::new());
}

#[test]
fn truncating_division() {
    assert_eq!(trunc_div(7, 2), 3);
    assert_eq!(trunc_div(-7, 2), -3);
    assert_eq!(trunc_div(7, -2), -3);
    assert_eq!(trunc_div(-7, -2), 3);
    assert_eq!(trunc_div(1_000_000, 1000), 1000);
}

#[test]
fn fade_plan() {
    let f = PwmFade::new(100, 1000, 10000).unwrap();
    assert_eq!(f.period_us, 1000);
    assert_eq!(f.half_duration_ms, 5000);
    assert_eq!(f.duration_ms, 10000);
    assert_eq!(f.cycles_per_step, 25);
    assert_eq!(f.phase, FadePhase::Check);
    let g = PwmFade::new(50, -3, 1001).unwrap();
    assert_eq!(g.period_us, -333333);
    assert_eq!(g.half_duration_ms, 500);
    assert_eq!(g.cycles_per_step, 0);
}

#[test]
fn fade_refusals() {
    assert_eq!(PwmFade::new(100, 0, 10).err(), Some(FadeError::ZeroFrequency));
    assert_eq!(PwmFade::new(1, i32::MAX, i32::MAX).err(), Some(FadeError::Overflow));
}

#[test]
fn fade_sequence() {
    let mut f = PwmFade::new(2, 1000, 800).unwrap();
    assert_eq!(f.cycles_per_step, 2);
    let mut actions = Vec::new();
    for _ in 0..40 {
        let a = f.next_action(0);
        actions.push(a);
    }
    let p = |h: u32, l: u32| PwmAction::Pulse { high: if h > 0 { Some(h) } else { None }, low: Some(l) };
    let c = PwmAction::Continue;
    let expected_start = vec![
        c, // start fading up
        c, p(0, 1000), p(0, 1000), // duty 0
        c, p(10, 990), p(10, 990), // duty 1
        c, p(20, 980), p(20, 980), // duty 2
        c, // turn to fading down
        c, p(20, 980), p(20, 980),
        c, p(10, 990), p(10, 990),
        c, p(0, 1000), p(0, 1000),
        c, // back to the outer check
        c, // fading up again
    ];
    assert_eq!(&actions[..expected_start.len()], &expected_start[..]);
}

#[test]
fn fade_ends_when_time_is_up() {
    let mut f = PwmFade::new(2, 1000, 800).unwrap();
    assert_eq!(f.next_action(800), PwmAction::Done);
    assert_eq!(f.next_action(0), PwmAction::Done);
    let mut g = PwmFade::new(2, 1000, 800).unwrap();
    assert_eq!(g.next_action(0), PwmAction::Continue);
    // half the time gone: the fade up stops and the fade down begins
    assert_eq!(g.next_action(400), PwmAction::Continue);
    assert_eq!(g.phase, FadePhase::Down);
    assert_eq!(g.next_action(800), PwmAction::Continue);
    assert_eq!(g.phase, FadePhase::Check);
    assert_eq!(g.next_action(800), PwmAction::Done);
}

#[test]
fn fade_step_overflow() {
    let mut f = PwmFade::new(3000, 1, 10000).unwrap();
    assert_eq!(f.period_us, 1_000_000);
    let mut seen = None;
    for _ in 0..10000 {
        match f.next_action(0) {
            PwmAction::Overflow => {
                seen = Some(f.duty);
                break;
            }
            _ => {}
        }
    }
    assert_eq!(seen, Some(2148));
}

#[test]
fn door_keys() {
    assert_eq!(door_key(0, 0), DoorKey::Digit(1));
    assert_eq!(door_key(1, 2), DoorKey::Digit(6));
    assert_eq!(door_key(2, 1), DoorKey::Digit(8));
    assert_eq!(door_key(3, 0), DoorKey::Clear);
    assert_eq!(door_key(3, 1), DoorKey::Digit(0));
    assert_eq!(door_key(3, 2), DoorKey::Enter);
}

#[test]
fn pressed_columns() {
    assert_eq!(pressed_column(&[false, false, false]), None);
    assert_eq!(pressed_column(&[true, false, false]), Some(0));
    assert_eq!(pressed_column(&[true, false, true]), Some(2));
    assert_eq!(pressed_column(&[]), None);
}

#[test]
fn four_by_four_keypad() {
    assert_eq!(keypad_char(0, 3), 'A');
    assert_eq!(keypad_char(3, 0), '*');
    assert_eq!(keypad_char(3, 2), '#');
    let none = [[false; 4]; 4];
    assert_eq!(keypad_scan(none), '_');
    let mut one = none;
    one[1][2] = true;
    assert_eq!(keypad_scan(one), '6');
    let mut two = one;
    two[3][1] = true;
    assert_eq!(keypad_scan(two), '0');
}

#[test]
fn pin_entry_toggles_door() {
    let mut lock = DoorLock::new();
    assert!(lock.is_open);
    for d in [9u8, 6, 0, 3] {
        assert_eq!(lock.press(DoorKey::Digit(d)), DoorEvent::Typed(d));
    }
    assert_eq!(lock.entry, vec![9, 6, 0, 3]);
    assert_eq!(
        lock.press(DoorKey::Enter),
        DoorEvent::Entered { matched: true, door: Some(DoorMove::Lock) }
    );
    assert!(!lock.is_open);
    assert!(lock.entry.is_empty());
    for d in [9u8, 6, 0, 3] {
        lock.press(DoorKey::Digit(d));
    }
    assert_eq!(
        lock.press(DoorKey::Enter),
        DoorEvent::Entered { matched: true, door: Some(DoorMove::Unlock) }
    );
    assert!(lock.is_open);
}

#[test]
fn wrong_pin_and_clear() {
    let mut lock = DoorLock::new();
    for d in [9u8, 6, 0] {
        lock.press(DoorKey::Digit(d));
    }
    assert_eq!(lock.press(DoorKey::Enter), DoorEvent::Entered { matched: false, door: None });
    assert!(lock.is_open);
    for d in [1u8, 9, 6, 0, 3] {
        lock.press(DoorKey::Digit(d));
    }
    assert_eq!(lock.press(DoorKey::Enter), DoorEvent::Entered { matched: false, door: None });
    lock.press(DoorKey::Digit(5));
    assert_eq!(lock.press(DoorKey::Clear), DoorEvent::Cleared);
    assert!(lock.entry.is_empty());
    for d in [9u8, 6, 0, 3] {
        lock.press(DoorKey::Digit(d));
    }
    assert_eq!(
        lock.press(DoorKey::Enter),
        DoorEvent::Entered { matched: true, door: Some(DoorMove::Lock) }
    );
}

#[test]
fn door_sweeps() {
    assert_eq!(door_sweep(DoorMove::Lock, 100), vec![5, 6, 7, 8, 9]);
    assert_eq!(door_sweep(DoorMove::Unlock, 100), vec![9, 8, 7, 6, 5]);
    let up = door_sweep(DoorMove::Lock, 16383);
    assert_eq!(up.first(), Some(&819));
    assert_eq!(up.last(), Some(&1637));
    assert_eq!(up.len(), 819);
}
