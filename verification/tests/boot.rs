use rmk_boot::boot_flow::{post_boot_steps, pre_boot_plan};
use rmk_boot::boot_state::{boot_state_of, BootState};
use rmk_boot::indication::{LedStep, SWAP_BREATHE_MS};
use rmk_boot::swap_progress::{current_progress, is_swapped};

fn partition(words: &[u8], len: usize) -> Vec<u8> {
    let mut v = vec![0xFFu8; len];
    v[..words.len()].copy_from_slice(words);
    v
}

#[test]
fn state_word_interpretation() {
    assert_eq!(boot_state_of(&[0xF0, 0xF0, 0xF0, 0xF0]), BootState::Swap);
    assert_eq!(boot_state_of(&[0xC0, 0xC0, 0xC0, 0xC0]), BootState::Revert);
    assert_eq!(boot_state_of(&[0xE0, 0xE0, 0xE0, 0xE0]), BootState::DfuDetach);
    assert_eq!(boot_state_of(&[0xD0, 0xD0, 0xD0, 0xD0]), BootState::Boot);
    assert_eq!(boot_state_of(&[0xFF, 0xFF, 0xFF, 0xFF]), BootState::Boot);
    assert_eq!(boot_state_of(&[0xF0, 0xF0, 0xF0, 0x00]), BootState::Boot);
    assert_eq!(boot_state_of(&[0xF0]), BootState::Swap);
}

#[test]
fn progress_counts_written_words() {
    // write size 1: magic, validity, then progress words
    let p = partition(&[0xF0, 0xFF, 0x00, 0x00], 16);
    assert_eq!(current_progress(&p, 1), 2);
}

#[test]
fn progress_with_wide_words_reads_first_byte() {
    // write size 4; word 2 written only in its first byte still counts
    let p = partition(&[0xF0, 0xF0, 0xF0, 0xF0, 0xFF, 0xFF, 0xFF, 0xFF, 0, 0, 0, 0, 0, 0xFF, 0xFF, 0xFF], 64);
    assert_eq!(current_progress(&p, 4), 2);
}

#[test]
fn progress_invalid_record_is_max() {
    let p = partition(&[0xF0, 0x00], 16);
    assert_eq!(current_progress(&p, 1), usize::MAX);
}

#[test]
fn progress_all_written_is_max_index() {
    let mut p = vec![0u8; 12];
    p[1] = 0xFF;
    // (12 - 1) / 1 - 2 = 9
    assert_eq!(current_progress(&p, 1), 9);
}

#[test]
fn progress_smallest_partition() {
    let p = partition(&[0xF0, 0xFF, 0xFF], 3);
    assert_eq!(current_progress(&p, 1), 0);
    let q = vec![0xF0u8, 0xFF, 0x00];
    assert_eq!(current_progress(&q, 1), 0);
}

#[test]
fn swapped_threshold() {
    assert!(!is_swapped(3, 4 * 4096, 4096));
    assert!(!is_swapped(7, 4 * 4096, 4096));
    assert!(is_swapped(8, 4 * 4096, 4096));
    assert!(is_swapped(usize::MAX, 4 * 4096, 4096));
}

#[test]
fn plan_normal_boot_shows_heartbeat() {
    let p = partition(&[0xD0], 64);
    let plan = pre_boot_plan(&p, 1, 4 * 4096, 4096);
    assert_eq!(plan.state, BootState::Boot);
    assert_eq!(plan.progress, None);
    assert!(!plan.swapped);
    assert_eq!(plan.steps.get(0), LedStep::Wait(250));
    assert_eq!(plan.steps.len(), 9);
}

#[test]
fn plan_fresh_swap_flashes_then_breathes() {
    let p = partition(&[0xF0, 0xFF, 0x00], 64);
    let plan = pre_boot_plan(&p, 1, 4 * 4096, 4096);
    assert_eq!(plan.state, BootState::Swap);
    assert_eq!(plan.progress, Some(1));
    assert!(!plan.swapped);
    assert_eq!(
        plan.steps.as_slice(),
        &[
            LedStep::SetRaw(true),
            LedStep::Wait(1000),
            LedStep::SetRaw(false),
            LedStep::StartBreathing(SWAP_BREATHE_MS)
        ]
    );
}

#[test]
fn plan_finished_swap_announces_revert() {
    let mut p = vec![0u8; 64];
    p[0] = 0xF0;
    p[1] = 0xFF;
    for b in p.iter_mut().skip(10) {
        *b = 0xFF;
    }
    // progress words 0..8 written: 8 >= 4 pages * 2
    let plan = pre_boot_plan(&p, 1, 4 * 4096, 4096);
    assert_eq!(plan.progress, Some(8));
    assert!(plan.swapped);
    assert_eq!(plan.steps.len(), 12);
    assert!(!plan.steps.as_slice().contains(&LedStep::StartBreathing(SWAP_BREATHE_MS)));
}

#[test]
fn plan_invalid_progress_counts_as_swapped() {
    let p = partition(&[0xF0, 0x00], 64);
    let plan = pre_boot_plan(&p, 1, 4 * 4096, 4096);
    assert_eq!(plan.progress, Some(usize::MAX));
    assert!(plan.swapped);
}

#[test]
fn plan_revert_state_shows_heartbeat() {
    let p = partition(&[0xC0], 64);
    let plan = pre_boot_plan(&p, 1, 4 * 4096, 4096);
    assert_eq!(plan.state, BootState::Revert);
    assert_eq!(plan.progress, None);
    assert_eq!(plan.steps.len(), 9);
}

#[test]
fn post_boot_blinks_after_swap() {
    let after_swap = post_boot_steps(Some(BootState::Swap));
    assert_eq!(after_swap.get(0), LedStep::Stop);
    assert_eq!(after_swap.len(), 1 + 5 * 4);
    assert_eq!(post_boot_steps(Some(BootState::Boot)).as_slice(), &[LedStep::Stop]);
    assert_eq!(post_boot_steps(Some(BootState::Revert)).as_slice(), &[LedStep::Stop]);
    assert_eq!(post_boot_steps(None).as_slice(), &[LedStep::Stop]);
}

#[test]
fn progress_short_partition_with_invalid_record() {
    // only the magic and validity words: an invalid record still reads as MAX
    assert_eq!(current_progress(&[0xF0, 0x00], 1), usize::MAX);
    assert_eq!(current_progress(&[0xF0, 0xF0, 0xF0, 0xF0, 0, 0, 0, 0], 4), usize::MAX);
}

#[test]
fn plan_reads_only_the_state_word_when_no_swap() {
    // a partition holding just the state word is enough for a plain boot
    let plan = pre_boot_plan(&[0xD0, 0xD0, 0xD0, 0xD0], 4, 4 * 4096, 4096);
    assert_eq!(plan.state, BootState::Boot);
    assert_eq!(plan.progress, None);
}
