use vstd::prelude::*;

verus! {

/// Value left in the retained RAM word by a first tap of the reset button.
pub const DBL_MAGIC: u32 = 0x005A1AD5;

/// What the bootloader does in response to the reset reason and the
/// retained RAM word.
#[derive(Clone, Copy, Debug, PartialEq, Eq, Structural)]
pub enum TapAction {
    /// Second tap of a double tap: enter USB DFU mode.
    EnterDfu,
    /// First tap: remember it and acknowledge it on the LED.
    Arm,
    /// A stale first tap followed by another kind of reset: forget it.
    Disarm,
    /// Nothing to do.
    Proceed,
}

/// The decision on a reset: the action, the value to write into the
/// retained RAM word at once (`None`: leave it unchanged), and the value to
/// write once the first-tap acknowledgement on the LED is over (`None`:
/// nothing). A first tap thus keeps the marker only for the length of the
/// acknowledgement, the window in which a second tap counts.
#[derive(Clone, Copy, Debug, PartialEq, Eq, Structural)]
pub struct TapDecision {
    pub action: TapAction,
    pub write: Option<u32>,
    pub write_after_signal: Option<u32>,
}

/// The decision for a reset caused (`reset_pin`) or not by the reset pin,
/// with `magic` read from the retained RAM word.
pub open spec fn tap_spec(reset_pin: bool, magic: u32) -> TapDecision {
    if reset_pin && magic == DBL_MAGIC {
        TapDecision { action: TapAction::EnterDfu, write: Some(0), write_after_signal: None }
    } else if reset_pin {
        TapDecision {
            action: TapAction::Arm,
            write: Some(DBL_MAGIC),
            write_after_signal: Some(0),
        }
    } else if magic == DBL_MAGIC {
        TapDecision { action: TapAction::Disarm, write: Some(0), write_after_signal: None }
    } else {
        TapDecision { action: TapAction::Proceed, write: None, write_after_signal: None }
    }
}

/// The retained RAM word while the acknowledgement plays (and, when there
/// is none, for the rest of the boot).
pub open spec fn word_during_boot(magic: u32, d: TapDecision) -> u32 {
    match d.write {
        Some(w) => w,
        None => magic,
    }
}

/// The retained RAM word once the boot has gone past the acknowledgement.
pub open spec fn word_after_boot(magic: u32, d: TapDecision) -> u32 {
    match d.write_after_signal {
        Some(w) => w,
        None => word_during_boot(magic, d),
    }
}

/// The word the next reset finds: a reset while the first-tap
/// acknowledgement plays finds the marker, any other finds the word left
/// after the boot.
pub open spec fn word_seen_next(magic: u32, d: TapDecision, reset_during_signal: bool) -> u32 {
    if reset_during_signal && d.action == TapAction::Arm {
        word_during_boot(magic, d)
    } else {
        word_after_boot(magic, d)
    }
}

/// Decides, from the reset reason and the retained RAM word, whether two
/// resets by the reset pin within the acknowledgement window ask for USB
/// DFU mode.
pub fn double_tap(reset_pin: bool, magic: u32) -> (d: TapDecision)
    ensures
        d == tap_spec(reset_pin, magic),
{
    if reset_pin && magic == DBL_MAGIC {
        TapDecision { action: TapAction::EnterDfu, write: Some(0), write_after_signal: None }
    } else if reset_pin {
        TapDecision {
            action: TapAction::Arm,
            write: Some(DBL_MAGIC),
            write_after_signal: Some(0),
        }
    } else if magic == DBL_MAGIC {
        TapDecision { action: TapAction::Disarm, write: Some(0), write_after_signal: None }
    } else {
        TapDecision { action: TapAction::Proceed, write: None, write_after_signal: None }
    }
}

/// Law: a first press of the reset pin arms the marker; a second press
/// while its acknowledgement plays enters DFU mode, and a press after the
/// acknowledgement is over is only a new first press.
pub proof fn lemma_two_taps_enter_dfu(magic: u32)
    requires
        magic != DBL_MAGIC,
    ensures
        tap_spec(true, magic).action == TapAction::Arm,
        tap_spec(true, word_seen_next(magic, tap_spec(true, magic), true)).action
            == TapAction::EnterDfu,
        tap_spec(true, word_seen_next(magic, tap_spec(true, magic), false)).action
            == TapAction::Arm,
{
}

/// Law: only a reset by the reset pin can enter DFU mode.
pub proof fn lemma_only_pin_enters_dfu(reset_pin: bool, magic: u32)
    ensures
        tap_spec(reset_pin, magic).action == TapAction::EnterDfu ==> reset_pin,
{
}

/// Law: once a boot has gone past the acknowledgement (whatever it
/// decided), the retained RAM word no longer holds the marker.
pub proof fn lemma_tap_consumed(reset_pin: bool, magic: u32)
    ensures
        word_after_boot(magic, tap_spec(reset_pin, magic)) != DBL_MAGIC,
{
}

/// Law: the next reset enters DFU mode exactly when it is a press of the
/// reset pin that comes while the acknowledgement of a first press plays.
pub proof fn lemma_only_window_enters_dfu(
    reset_pin: bool,
    magic: u32,
    reset_during_signal: bool,
    next_pin: bool,
)
    ensures
        tap_spec(next_pin, word_seen_next(magic, tap_spec(reset_pin, magic), reset_during_signal)).action
            == TapAction::EnterDfu <==> (next_pin && reset_during_signal && tap_spec(
            reset_pin,
            magic,
        ).action == TapAction::Arm),
{
}

} // verus!
