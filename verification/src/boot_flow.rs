use vstd::prelude::*;
use crate::boot_state::{BootState, boot_state_of, state_of_word};
use crate::indication::{
    LedScript, LedStep, POST_SWAP_COUNT, PRE_REVERT_BLINK_MS, SWAP_BREATHE_MS, heartbeat,
    heartbeat_spec, post_swap_spec, pre_revert, pre_revert_spec, pre_swap, pre_swap_spec,
    push_blinks,
};
use crate::swap_progress::{
    current_progress, is_progress_of, is_swapped, readable_state, swapped_spec,
};

verus! {

/// What the bootloader found in the state partition before preparing the
/// boot, and how it announces it.
pub struct PreBootPlan {
    /// The state read from the state word.
    pub state: BootState,
    /// The swap progress, read only when a swap is pending.
    pub progress: Option<usize>,
    /// A pending swap has already been copied completely, so the
    /// application did not confirm it and it will be reverted.
    pub swapped: bool,
    /// LED steps to perform before calling into the boot loader; they end
    /// with the start of breathing when a swap is about to be copied.
    pub steps: LedScript,
}

/// The LED steps announcing `state` with the given swap status: a long
/// flash then breathing before a swap, quick blinks before a revert, a
/// heartbeat otherwise.
pub open spec fn pre_boot_steps_spec(state: BootState, swapped: bool) -> Seq<LedStep> {
    if state == BootState::Swap {
        if !swapped {
            pre_swap_spec() + seq![LedStep::StartBreathing(SWAP_BREATHE_MS)]
        } else {
            pre_revert_spec()
        }
    } else {
        heartbeat_spec()
    }
}

/// The state partition can be interpreted against an active partition of
/// `active_capacity` bytes copied in pages of `swap_page_size` bytes: the
/// state word must be there, and when it announces a swap, the progress
/// record must be readable and the page count representable.
pub open spec fn plan_inputs_ok(
    state: Seq<u8>,
    write_size: int,
    active_capacity: int,
    swap_page_size: int,
) -> bool {
    &&& write_size >= 1
    &&& state.len() >= write_size
    &&& state_of_word(state.subrange(0, write_size)) == BootState::Swap ==> {
        &&& readable_state(state, write_size)
        &&& swap_page_size >= 1
        &&& (active_capacity / swap_page_size) * 2 <= usize::MAX
    }
}

/// Reads the boot state from the state partition (`state`, all its bytes;
/// the state word is its first `write_size` bytes) and decides how to
/// announce it. The swap progress is consulted only for a pending swap.
pub fn pre_boot_plan(
    state: &[u8],
    write_size: usize,
    active_capacity: usize,
    swap_page_size: usize,
) -> (p: PreBootPlan)
    requires
        plan_inputs_ok(state@, write_size as int, active_capacity as int, swap_page_size as int),
    ensures
        p.state == state_of_word(state@.subrange(0, write_size as int)),
        p.state == BootState::Swap ==> (p.progress matches Some(g) && is_progress_of(
            state@,
            write_size as int,
            g as int,
        ) && p.swapped == swapped_spec(g as int, active_capacity as int, swap_page_size as int)),
        p.state != BootState::Swap ==> p.progress is None && !p.swapped,
        p.steps@ == pre_boot_steps_spec(p.state, p.swapped),
{
    let word = vstd::slice::slice_subrange(state, 0, write_size);
    let current = boot_state_of(word);
    if current == BootState::Swap {
        let progress = current_progress(state, write_size);
        let swapped = is_swapped(progress, active_capacity, swap_page_size);
        let steps = if !swapped {
            let mut v = pre_swap();
            v.push(LedStep::StartBreathing(SWAP_BREATHE_MS));
            v
        } else {
            pre_revert()
        };
        PreBootPlan { state: current, progress: Some(progress), swapped, steps }
    } else {
        PreBootPlan { state: current, progress: None, swapped: false, steps: heartbeat() }
    }
}

/// The LED steps after the boot loader prepared the boot: stop breathing
/// (LED off), then five quick blinks if a swap was just carried out.
pub open spec fn post_boot_steps_spec(prepared: Option<BootState>) -> Seq<LedStep> {
    if prepared == Some(BootState::Swap) {
        seq![LedStep::Stop] + post_swap_spec()
    } else {
        seq![LedStep::Stop]
    }
}

/// The LED steps after the boot preparation; `prepared` is its outcome,
/// `None` when it failed, which counts as a plain boot.
pub fn post_boot_steps(prepared: Option<BootState>) -> (r: LedScript)
    ensures
        r@ == post_boot_steps_spec(prepared),
{
    let mut v = LedScript::new();
    v.push(LedStep::Stop);
    match prepared {
        Some(BootState::Swap) => {
            push_blinks(&mut v, POST_SWAP_COUNT, PRE_REVERT_BLINK_MS, PRE_REVERT_BLINK_MS);
        },
        _ => {
            assert(v@ =~= seq![LedStep::Stop]);
        },
    }
    v
}

/// Law: the LED breathes during the boot preparation exactly when a swap
/// is pending and has not been copied yet, and then with the swap period.
pub proof fn lemma_breathes_only_for_fresh_swap(state: BootState, swapped: bool)
    ensures
        pre_boot_steps_spec(state, swapped).contains(LedStep::StartBreathing(SWAP_BREATHE_MS))
            <==> (state == BootState::Swap && !swapped),
        forall|p: u32|
            #[trigger] pre_boot_steps_spec(state, swapped).contains(LedStep::StartBreathing(p))
                ==> p == SWAP_BREATHE_MS,
{
    let s = pre_boot_steps_spec(state, swapped);
    reveal_with_fuel(crate::indication::repeat, 4);
    if state == BootState::Swap && !swapped {
        assert(s[3] == LedStep::StartBreathing(SWAP_BREATHE_MS));
    }
    assert forall|p: u32|
        #[trigger] s.contains(LedStep::StartBreathing(p)) implies p == SWAP_BREATHE_MS
        && state == BootState::Swap && !swapped by {
        let i = choose|i: int| 0 <= i < s.len() && s[i] == LedStep::StartBreathing(p);
        assert(0 <= i < s.len());
    }
}

} // verus!
