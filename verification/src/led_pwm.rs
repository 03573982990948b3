use vstd::prelude::*;
use vstd::arithmetic::div_mod::{lemma_mod_add_multiples_vanish, lemma_small_mod};

verus! {

/// PWM duty that lights the LED fully.
pub const FULL_DUTY: u16 = 255;

/// State of the breathing LED driver.
///
/// `ms` counts SysTick ticks (one per millisecond) since the breathing
/// started, `period` is the breathing period in milliseconds (0: not
/// breathing), `attached` says whether a PWM peripheral is held, and `duty`
/// is the duty cycle last written to that peripheral.
#[derive(Clone, Copy, Debug, PartialEq, Eq, Structural)]
pub struct LedPwm {
    pub ms: u32,
    pub period: u32,
    pub attached: bool,
    pub duty: u16,
}

/// Position within a breathing triangle: how far `ms` is from the nearest
/// start of a period, counted in milliseconds.
pub open spec fn triangle_pos(ms: int, period: int) -> int {
    let half = period / 2;
    let cycle = ms % period;
    if cycle <= half {
        cycle
    } else {
        period - cycle
    }
}

/// Duty cycle (0..=255) of the breathing wave at tick `ms` for a period of
/// `period` milliseconds: it rises linearly from 0 to 255 over the first
/// half period and falls back over the second.
pub open spec fn breath_duty(ms: int, period: int) -> int {
    triangle_pos(ms, period) * 255 / (period / 2)
}

/// The tick counter after one more tick; it wraps at `u32::MAX`.
pub open spec fn next_ms(ms: u32) -> u32 {
    if ms == u32::MAX {
        0
    } else {
        (ms + 1) as u32
    }
}

/// Writing `duty` to the PWM peripheral: the write happens (and is
/// reported) only while a peripheral is attached.
pub open spec fn write_duty(s: LedPwm, duty: u16) -> (LedPwm, Option<u16>) {
    if s.attached {
        (LedPwm { duty, ..s }, Some(duty))
    } else {
        (s, None)
    }
}

/// One SysTick: the counter advances, and while breathing the duty of the
/// wave at the old counter value is written.
pub open spec fn tick_spec(s: LedPwm) -> (LedPwm, Option<u16>) {
    let s1 = LedPwm { ms: next_ms(s.ms), ..s };
    if s.period == 0 {
        (s1, None)
    } else {
        write_duty(s1, breath_duty(s.ms as int, s.period as int) as u16)
    }
}

/// Starting to breathe with period `period_ms` restarts the counter.
pub open spec fn start_spec(s: LedPwm, period_ms: u32) -> LedPwm {
    LedPwm { ms: 0, period: period_ms, ..s }
}

/// Stopping turns the LED off and ends the breathing.
pub open spec fn stop_spec(s: LedPwm) -> (LedPwm, Option<u16>) {
    let (s1, w) = write_duty(s, 0);
    (LedPwm { period: 0, ..s1 }, w)
}

/// A hard on/off write.
pub open spec fn raw_spec(s: LedPwm, on: bool) -> (LedPwm, Option<u16>) {
    write_duty(s, if on { FULL_DUTY } else { 0 })
}

/// The breathing position never exceeds half a period.
proof fn lemma_triangle_pos_bounds(ms: int, period: int)
    requires
        ms >= 0,
        period >= 2,
    ensures
        0 <= triangle_pos(ms, period) <= period / 2,
{
}

/// `pos * 255 / half` stays within 0..=255 when `pos <= half`.
proof fn lemma_scaled_bound(pos: int, half: int)
    requires
        0 <= pos <= half,
        half >= 1,
    ensures
        0 <= pos * 255 / half <= 255,
{
    assert(pos * 255 <= half * 255) by (nonlinear_arith)
        requires
            0 <= pos <= half,
    ;
    assert(0 <= pos * 255) by (nonlinear_arith)
        requires
            0 <= pos,
    ;
    assert(pos * 255 / half <= half * 255 / half) by (nonlinear_arith)
        requires
            pos * 255 <= half * 255,
            half >= 1,
    ;
    assert(half * 255 / half == 255) by (nonlinear_arith)
        requires
            half >= 1,
    ;
    assert(0 <= pos * 255 / half) by (nonlinear_arith)
        requires
            0 <= pos * 255,
            half >= 1,
    ;
}

/// Law: the breathing wave always yields a duty the PWM accepts (0..=255).
pub proof fn lemma_breath_duty_bounded(ms: int, period: int)
    requires
        ms >= 0,
        period >= 2,
    ensures
        0 <= breath_duty(ms, period) <= 255,
{
    lemma_triangle_pos_bounds(ms, period);
    lemma_scaled_bound(triangle_pos(ms, period), period / 2);
}

/// Law: the breathing wave repeats every period.
pub proof fn lemma_breath_duty_periodic(ms: int, period: int)
    requires
        ms >= 0,
        period >= 2,
    ensures
        breath_duty(ms + period, period) == breath_duty(ms, period),
{
    lemma_mod_add_multiples_vanish(ms, period);
}

/// Law: the wave is symmetric: it falls exactly as it rose.
pub proof fn lemma_breath_duty_symmetric(c: int, period: int)
    requires
        0 < c < period,
        period >= 2,
    ensures
        breath_duty(c, period) == breath_duty(period - c, period),
{
    lemma_small_mod(c as nat, period as nat);
    lemma_small_mod((period - c) as nat, period as nat);
}

/// Law: each period starts dark and peaks at full brightness half-way.
pub proof fn lemma_breath_duty_extremes(period: int)
    requires
        period >= 2,
    ensures
        breath_duty(0, period) == 0,
        breath_duty(period / 2, period) == 255,
{
    lemma_small_mod((period / 2) as nat, period as nat);
    assert((period / 2) * 255 / (period / 2) == 255) by (nonlinear_arith)
        requires
            period / 2 >= 1,
    ;
}

/// Law: after `start`, the next tick begins the wave from dark (duty 0).
pub proof fn lemma_start_begins_dark(s: LedPwm, period_ms: u32)
    requires
        s.attached,
        period_ms >= 2,
    ensures
        tick_spec(start_spec(s, period_ms)).1 == Some(0u16),
{
    lemma_breath_duty_extremes(period_ms as int);
}

/// Law: `stop` turns an attached LED off, and no tick after it writes
/// anything until breathing is started again.
pub proof fn lemma_stop_silences(s: LedPwm)
    ensures
        s.attached ==> stop_spec(s).1 == Some(0u16),
        tick_spec(stop_spec(s).0).1 == None::<u16>,
        stop_spec(s).0.period == 0,
{
}

/// Law: once the peripheral is released, no operation writes to it.
pub proof fn lemma_detached_never_writes(s: LedPwm, on: bool, duty: u16)
    requires
        !s.attached,
    ensures
        tick_spec(s).1 == None::<u16>,
        stop_spec(s).1 == None::<u16>,
        raw_spec(s, on).1 == None::<u16>,
        write_duty(s, duty).1 == None::<u16>,
{
}

/// Law: a hard "on" lights the LED fully and "off" darkens it, when a
/// peripheral is attached.
pub proof fn lemma_raw_on_off(s: LedPwm)
    requires
        s.attached,
    ensures
        raw_spec(s, true).1 == Some(FULL_DUTY),
        raw_spec(s, false).1 == Some(0u16),
        raw_spec(s, true).0.duty == FULL_DUTY,
{
}

/// The driver after `n` SysTicks.
pub open spec fn ticks(s: LedPwm, n: nat) -> LedPwm
    decreases n,
{
    if n == 0 {
        s
    } else {
        tick_spec(ticks(s, (n - 1) as nat)).0
    }
}

/// Law: after `start(p)` and `n` ticks (fewer than the counter can hold
/// before wrapping), the counter equals `n`, the period is still `p`, and
/// the next tick writes the wave at `n` when breathing on an attached LED.
pub proof fn lemma_ticks_after_start(s: LedPwm, period_ms: u32, n: nat)
    requires
        n <= u32::MAX,
    ensures
        ticks(start_spec(s, period_ms), n).ms == n,
        ticks(start_spec(s, period_ms), n).period == period_ms,
        ticks(start_spec(s, period_ms), n).attached == s.attached,
        tick_spec(ticks(start_spec(s, period_ms), n)).1 == (if s.attached && period_ms != 0 {
            Some(breath_duty(n as int, period_ms as int) as u16)
        } else {
            None::<u16>
        }),
    decreases n,
{
    if n > 0 {
        lemma_ticks_after_start(s, period_ms, (n - 1) as nat);
    }
}

/// The position in the breathing triangle is the distance to the nearer end
/// of the period.
pub proof fn lemma_triangle_pos_is_min(c: int, period: int)
    requires
        0 <= c < period,
        period >= 2,
    ensures
        triangle_pos(c, period) == (if c <= period - c { c } else { period - c }),
{
    lemma_small_mod(c as nat, period as nat);
}

impl LedPwm {
    /// A driver with no peripheral attached and no breathing.
    pub fn new() -> (r: LedPwm)
        ensures
            r == (LedPwm { ms: 0, period: 0, attached: false, duty: 0 }),
    {
        LedPwm { ms: 0, period: 0, attached: false, duty: 0 }
    }

    /// Writes `duty` to the peripheral if one is attached; returns the write
    /// to perform on the hardware.
    fn set_hw_duty(&mut self, duty: u16) -> (w: Option<u16>)
        ensures
            (*final(self), w) == write_duty(*old(self), duty),
    {
        if self.attached {
            self.duty = duty;
            Some(duty)
        } else {
            None
        }
    }

    /// Called each millisecond from SysTick. A period of 1 ms has no
    /// half-period to scale by and is not accepted.
    pub fn tick(&mut self) -> (w: Option<u16>)
        requires
            old(self).period != 1,
        ensures
            (*final(self), w) == tick_spec(*old(self)),
    {
        let ms = self.ms;
        self.ms = if ms == u32::MAX { 0 } else { ms + 1 };
        let period = self.period;
        if period == 0 {
            return None;
        }
        let half = period / 2;
        let cycle = ms % period;
        let t = if cycle <= half { cycle } else { period - cycle };
        proof {
            lemma_triangle_pos_bounds(ms as int, period as int);
            lemma_scaled_bound(t as int, half as int);
        }
        let duty = ((t as u64) * 255 / (half as u64)) as u16;
        self.set_hw_duty(duty)
    }

    /// Restarts the breathing with a period of `period_ms` milliseconds.
    pub fn start(&mut self, period_ms: u32)
        ensures
            *final(self) == start_spec(*old(self), period_ms),
    {
        self.ms = 0;
        self.period = period_ms;
    }

    /// Turns the LED off and stops the breathing.
    pub fn stop(&mut self) -> (w: Option<u16>)
        ensures
            (*final(self), w) == stop_spec(*old(self)),
    {
        let w = self.set_hw_duty(0);
        self.period = 0;
        w
    }

    /// Hard on/off for blink codes.
    pub fn set_raw(&mut self, on: bool) -> (w: Option<u16>)
        ensures
            (*final(self), w) == raw_spec(*old(self), on),
    {
        self.set_hw_duty(if on { FULL_DUTY } else { 0 })
    }

    /// Sets the PWM duty cycle directly (0-255), for a caller that breathes
    /// from its own loop.
    pub fn set_duty(&mut self, duty: u8) -> (w: Option<u16>)
        ensures
            (*final(self), w) == write_duty(*old(self), duty as u16),
    {
        self.set_hw_duty(duty as u16)
    }

    /// Attaches the PWM peripheral; the driver writes to it from now on.
    pub fn init(&mut self)
        ensures
            *final(self) == (LedPwm { attached: true, ..*old(self) }),
    {
        self.attached = true;
    }

    /// Releases the PWM peripheral so the firmware can claim it; no further
    /// write reaches the hardware.
    pub fn deinit(&mut self)
        ensures
            *final(self) == (LedPwm { attached: false, ..*old(self) }),
    {
        self.attached = false;
    }
}

} // verus!
