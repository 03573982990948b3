use vstd::prelude::*;

verus! {

/// Byte written repeatedly into the state word while a swap is pending.
pub const SWAP_MAGIC: u8 = 0xF0;
/// Byte written repeatedly into the state word after a revert.
pub const REVERT_MAGIC: u8 = 0xC0;
/// Byte written repeatedly into the state word to request DFU detach.
pub const DFU_DETACH_MAGIC: u8 = 0xE0;

/// What the state word of the state partition says the bootloader must do.
#[derive(Clone, Copy, Debug, PartialEq, Eq, Structural)]
pub enum BootState {
    Boot,
    Swap,
    Revert,
    DfuDetach,
}

/// Every byte of `word` equals `b`.
pub open spec fn all_bytes(word: Seq<u8>, b: u8) -> bool {
    forall|i: int| 0 <= i < word.len() ==> word[i] == b
}

/// The state a state word denotes: a word made only of the swap magic is a
/// pending swap, then the revert magic, then the detach magic; anything else
/// is a plain boot.
pub open spec fn state_of_word(word: Seq<u8>) -> BootState {
    if all_bytes(word, SWAP_MAGIC) {
        BootState::Swap
    } else if all_bytes(word, REVERT_MAGIC) {
        BootState::Revert
    } else if all_bytes(word, DFU_DETACH_MAGIC) {
        BootState::DfuDetach
    } else {
        BootState::Boot
    }
}

/// Calls `embassy_boot::State::from` on the word. Its source tests, in this
/// order, whether no byte differs from the swap magic, the revert magic or
/// the detach magic, and answers `Boot` otherwise; the contract says exactly
/// that.
#[verifier::external_body]
fn embassy_state_from(word: &[u8]) -> (r: BootState)
    ensures
        r == state_of_word(word@),
{
    match embassy_boot::State::from(word) {
        embassy_boot::State::Boot => BootState::Boot,
        embassy_boot::State::Swap => BootState::Swap,
        embassy_boot::State::Revert => BootState::Revert,
        embassy_boot::State::DfuDetach => BootState::DfuDetach,
    }
}

/// Interprets the state word read at offset 0 of the state partition.
pub fn boot_state_of(word: &[u8]) -> (r: BootState)
    ensures
        r == state_of_word(word@),
{
    embassy_state_from(word)
}

} // verus!
