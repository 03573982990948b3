use vstd::prelude::*;
use vstd::arithmetic::div_mod::lemma_small_mod;
use crate::led_pwm::{breath_duty, lemma_breath_duty_bounded, lemma_triangle_pos_is_min};

verus! {

/// Block size of the DFU transfers, in bytes.
pub const DFU_BLOCK_SIZE: usize = 2048;
/// nRF52 NVMC write size, the alignment the firmware updater needs.
pub const NRF_WRITE_SIZE: usize = 4;

/// One millisecond of the DFU loop's breathing: the position `t` within a
/// period of `period_ms` milliseconds advances by one, and the duty of the
/// breathing wave at the new position is returned with it.
pub fn dfu_breath_step(t: u32, period_ms: u32) -> (r: (u32, u8))
    requires
        period_ms >= 2,
        t < period_ms,
    ensures
        r.0 == (t + 1) % (period_ms as int),
        r.0 < period_ms,
        r.1 as int == breath_duty(r.0 as int, period_ms as int),
{
    let half = period_ms / 2;
    let t1 = (t + 1) % period_ms;
    let pos = if t1 <= half { t1 } else { period_ms - t1 };
    proof {
        lemma_breath_duty_bounded(t1 as int, period_ms as int);
        lemma_small_mod(t1 as nat, period_ms as nat);
    }
    let duty = ((pos as u64) * 255 / (half as u64)) as u8;
    (t1, duty)
}

/// Position in the breathing period after `k` steps of the DFU loop, which
/// starts at position 0.
pub open spec fn dfu_pos(k: nat, period: int) -> int
    decreases k,
{
    if k == 0 {
        0
    } else {
        (dfu_pos((k - 1) as nat, period) + 1) % period
    }
}

/// Law: the `k`-th step of the DFU loop is at position `k % P` and writes
/// `min(k % P, P - k % P) * 255 / (P / 2)`, which never exceeds 255, so the
/// conversion to a byte loses nothing.
pub proof fn lemma_dfu_loop(k: nat, period: int)
    requires
        period >= 2,
    ensures
        dfu_pos(k, period) == k as int % period,
        breath_duty(dfu_pos(k, period), period) == ({
            let c = k as int % period;
            (if c <= period - c { c } else { period - c }) * 255 / (period / 2)
        }),
        0 <= breath_duty(dfu_pos(k, period), period) <= 255,
    decreases k,
{
    if k > 0 {
        let j = (k - 1) as nat;
        lemma_dfu_loop(j, period);
        vstd::arithmetic::div_mod::lemma_add_mod_noop(j as int, 1, period);
        lemma_small_mod(1, period as nat);
        assert(dfu_pos(k, period) == (dfu_pos(j, period) + 1) % period);
        assert(j as int + 1 == k as int);
    } else {
        lemma_small_mod(0, period as nat);
    }
    vstd::arithmetic::div_mod::lemma_mod_bound(k as int, period);
    lemma_triangle_pos_is_min(k as int % period, period);
    lemma_breath_duty_bounded(k as int % period, period);
}

/// What the polling loop does next.
#[derive(Clone, Copy, Debug, PartialEq, Eq, Structural)]
pub enum PollStep {
    /// The future completed.
    Ready,
    /// The deadline has passed without completion.
    TimedOut,
    /// Poll again.
    Continue,
}

/// Decides the next move of a bounded poll from whether the future
/// completed and the current time against the deadline (both in ticks).
pub fn poll_step(ready: bool, now: u64, deadline: u64) -> (r: PollStep)
    ensures
        r == (if ready {
            PollStep::Ready
        } else if now >= deadline {
            PollStep::TimedOut
        } else {
            PollStep::Continue
        }),
{
    if ready {
        PollStep::Ready
    } else if now >= deadline {
        PollStep::TimedOut
    } else {
        PollStep::Continue
    }
}

/// USB identity and descriptor settings of the DFU device.
#[derive(Clone, Copy, Debug)]
pub struct DfuUsbConfig {
    pub vendor_id: u16,
    pub product_id: u16,
    pub manufacturer: &'static str,
    pub product: &'static str,
    pub serial_number: &'static str,
    pub max_power: u16,
    pub composite_with_iads: bool,
    pub device_class: u8,
    pub device_sub_class: u8,
    pub device_protocol: u8,
}

/// USB product string reported to the host during DFU.
pub open spec fn product_spec(is_nrf52833: bool) -> Seq<char> {
    if is_nrf52833 {
        "nRF52833 DFU"@
    } else {
        "nRF52840 DFU"@
    }
}

/// The USB settings of the DFU device: the pid.codes test vendor, the
/// application-specific class with the DFU subclass and protocol, and 100 mA
/// of bus power.
pub fn dfu_usb_config(is_nrf52833: bool) -> (c: DfuUsbConfig)
    ensures
        c.vendor_id == 0x1209,
        c.product_id == 0x0001,
        c.manufacturer@ == "rmk-boot"@,
        c.product@ == product_spec(is_nrf52833),
        c.serial_number@ == "123456"@,
        c.max_power == 100,
        !c.composite_with_iads,
        c.device_class == 0xFE,
        c.device_sub_class == 0x01,
        c.device_protocol == 0x01,
{
    DfuUsbConfig {
        vendor_id: 0x1209,
        product_id: 0x0001,
        manufacturer: "rmk-boot",
        product: if is_nrf52833 { "nRF52833 DFU" } else { "nRF52840 DFU" },
        serial_number: "123456",
        max_power: 100,
        composite_with_iads: false,
        device_class: 0xFE,
        device_sub_class: 0x01,
        device_protocol: 0x01,
    }
}

} // verus!
