//! Verified decision logic of a small dual-slot bootloader for nRF52 and
//! RP2040 keyboards: LED breathing, boot-state interpretation, swap progress,
//! double-tap DFU entry, indication patterns and the flash layout.

pub mod boot_flow;
pub mod boot_state;
pub mod dfu;
pub mod diag;
pub mod double_tap;
pub mod indication;
pub mod layout;
pub mod led_pwm;
pub mod swap_progress;
pub mod variant;
