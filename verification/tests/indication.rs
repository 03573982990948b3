use rmk_boot::indication::{
    double_tap_signal, heartbeat, post_swap, pre_revert, pre_swap, push_blinks, sos, LedScript, LedStep,
};

fn waits(steps: &[LedStep]) -> u64 {
    steps
        .iter()
        .map(|s| match s {
            LedStep::Wait(ms) => *ms,
            _ => 0,
        })
        .sum()
}

fn flashes(steps: &[LedStep]) -> Vec<u64> {
    let mut out = Vec::new();
    for w in steps.windows(2) {
        if let (LedStep::SetRaw(true), LedStep::Wait(ms)) = (w[0], w[1]) {
            out.push(ms);
        }
    }
    out
}

fn last_raw(steps: &[LedStep]) -> Option<bool> {
    steps.iter().rev().find_map(|s| match s {
        LedStep::SetRaw(on) => Some(*on),
        LedStep::Stop => Some(false),
        _ => None,
    })
}

#[test]
fn heartbeat_pattern() {
    let h = heartbeat();
    let h = h.as_slice();
    assert_eq!(h[0], LedStep::Wait(250));
    assert_eq!(flashes(h), vec![250, 250]);
    assert_eq!(waits(h), 1250);
    assert_eq!(last_raw(h), Some(false));
}

#[test]
fn sos_spells_dot_dot_dot_dash_dash_dash_dot_dot_dot() {
    let s = sos();
    let s = s.as_slice();
    assert_eq!(flashes(s), vec![150, 150, 150, 450, 450, 450, 150, 150, 150]);
    assert_eq!(waits(s), 5100);
    assert_eq!(s[s.len() - 1], LedStep::Wait(900));
    assert_eq!(last_raw(s), Some(false));
}

#[test]
fn swap_and_revert_announcements() {
    assert_eq!(pre_swap().as_slice(), &[LedStep::SetRaw(true), LedStep::Wait(1000), LedStep::SetRaw(false)]);
    assert_eq!(flashes(pre_revert().as_slice()), vec![100, 100, 100]);
    assert_eq!(flashes(post_swap().as_slice()), vec![100, 100, 100, 100, 100]);
    assert_eq!(last_raw(pre_revert().as_slice()), Some(false));
    assert_eq!(last_raw(post_swap().as_slice()), Some(false));
}

#[test]
fn double_tap_signal_leaves_led_on() {
    let d = double_tap_signal();
    assert_eq!(d.as_slice(), &[LedStep::SetRaw(false), LedStep::Wait(500), LedStep::SetRaw(true)]);
    assert_eq!(last_raw(d.as_slice()), Some(true));
}

#[test]
fn push_blinks_appends() {
    let mut v = LedScript::new();
    assert_eq!(v.len(), 0);
    v.push(LedStep::Stop);
    push_blinks(&mut v, 2, 10, 20);
    assert_eq!(v.get(1), LedStep::SetRaw(true));
    assert_eq!(
        v.as_slice(),
        &[
            LedStep::Stop,
            LedStep::SetRaw(true),
            LedStep::Wait(10),
            LedStep::SetRaw(false),
            LedStep::Wait(20),
            LedStep::SetRaw(true),
            LedStep::Wait(10),
            LedStep::SetRaw(false),
            LedStep::Wait(20)
        ]
    );
    push_blinks(&mut v, 0, 1, 1);
    assert_eq!(v.len(), 9);
    push_blinks(&mut v, 9, 1, 1);
    assert_eq!(v.len(), 45);
}
