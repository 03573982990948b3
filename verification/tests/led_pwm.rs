use rmk_boot::led_pwm::LedPwm;

fn attached(ms: u32, period: u32) -> LedPwm {
    LedPwm { ms, period, attached: true, duty: 0 }
}

#[test]
fn new_driver_is_idle() {
    let l = LedPwm::new();
    assert_eq!(l, LedPwm { ms: 0, period: 0, attached: false, duty: 0 });
}

#[test]
fn tick_without_period_only_counts() {
    let mut l = attached(41, 0);
    assert_eq!(l.tick(), None);
    assert_eq!(l.ms, 42);
    assert_eq!(l.duty, 0);
}

#[test]
fn tick_follows_triangle_wave() {
    let mut l = attached(75, 300);
    assert_eq!(l.tick(), Some(127));
    assert_eq!(l.ms, 76);
    assert_eq!(l.duty, 127);
    let mut peak = attached(150, 300);
    assert_eq!(peak.tick(), Some(255));
    let mut falling = attached(225, 300);
    assert_eq!(falling.tick(), Some(127));
    let mut wrap = attached(300, 300);
    assert_eq!(wrap.tick(), Some(0));
}

#[test]
fn tick_odd_period_stays_in_range() {
    // period 3: half 1, positions 0, 1, 1
    let mut l = attached(0, 3);
    assert_eq!(l.tick(), Some(0));
    assert_eq!(l.tick(), Some(255));
    assert_eq!(l.tick(), Some(255));
    assert_eq!(l.tick(), Some(0));
}

#[test]
fn tick_counter_wraps() {
    let mut l = attached(u32::MAX, 0);
    assert_eq!(l.tick(), None);
    assert_eq!(l.ms, 0);
}

#[test]
fn tick_detached_writes_nothing() {
    let mut l = LedPwm { ms: 150, period: 300, attached: false, duty: 7 };
    assert_eq!(l.tick(), None);
    assert_eq!(l.duty, 7);
    assert_eq!(l.ms, 151);
}

#[test]
fn start_restarts_from_dark() {
    let mut l = attached(1234, 0);
    l.start(300);
    assert_eq!(l.ms, 0);
    assert_eq!(l.period, 300);
    assert_eq!(l.tick(), Some(0));
}

#[test]
fn stop_turns_off_and_silences() {
    let mut l = attached(10, 300);
    l.duty = 200;
    assert_eq!(l.stop(), Some(0));
    assert_eq!(l.duty, 0);
    assert_eq!(l.period, 0);
    assert_eq!(l.tick(), None);
}

#[test]
fn set_raw_on_and_off() {
    let mut l = attached(0, 0);
    assert_eq!(l.set_raw(true), Some(255));
    assert_eq!(l.duty, 255);
    assert_eq!(l.set_raw(false), Some(0));
    assert_eq!(l.duty, 0);
}

#[test]
fn set_duty_writes_value() {
    let mut l = attached(0, 0);
    assert_eq!(l.set_duty(42), Some(42));
    assert_eq!(l.duty, 42);
}

#[test]
fn init_and_deinit_control_writes() {
    let mut l = LedPwm::new();
    assert_eq!(l.set_raw(true), None);
    l.init();
    assert!(l.attached);
    assert_eq!(l.set_raw(true), Some(255));
    l.deinit();
    assert!(!l.attached);
    assert_eq!(l.set_raw(false), None);
    assert_eq!(l.stop(), None);
    assert_eq!(l.duty, 255);
}

#[test]
fn breathing_is_periodic_and_symmetric() {
    let period = 300u32;
    let duty_at = |ms: u32| {
        let mut l = attached(ms, period);
        l.tick().unwrap()
    };
    for c in 1..period {
        assert_eq!(duty_at(c), duty_at(period - c));
        assert_eq!(duty_at(c), duty_at(c + period));
        assert!(duty_at(c) <= 255);
    }
}

#[test]
fn counter_after_start_counts_ticks() {
    let mut l = LedPwm { ms: 999, period: 0, attached: true, duty: 0 };
    l.start(300);
    for n in 0..1000u32 {
        assert_eq!(l.ms, n);
        assert_eq!(l.period, 300);
        l.tick();
    }
}
