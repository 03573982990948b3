use vstd::prelude::*;

verus! {

/// The value of a state-partition byte after an erase.
pub const STATE_ERASE_VALUE: u8 = 0xFF;

/// Number of progress words the state partition holds after the magic word
/// and the validity word, for a partition of `len` bytes written in words of
/// `write_size` bytes.
pub open spec fn max_progress_index(len: int, write_size: int) -> int {
    (len - write_size) / write_size - 2
}

/// The progress word `index` (stored after the magic and validity words) is
/// still erased, judged by its first byte.
pub open spec fn progress_word_erased(state: Seq<u8>, index: int, write_size: int) -> bool {
    state[(2 + index) * write_size] == STATE_ERASE_VALUE
}

/// The progress record of the state partition is valid: the first byte of
/// its validity word (the second word) is still erased.
pub open spec fn progress_valid(state: Seq<u8>, write_size: int) -> bool {
    state[write_size] == STATE_ERASE_VALUE
}

/// A state partition this scan can read: at least the magic word and the
/// validity word, and, when the validity word says the record is valid, at
/// least one more word.
pub open spec fn readable_state(state: Seq<u8>, write_size: int) -> bool {
    &&& write_size >= 1
    &&& state.len() >= 2 * write_size
    &&& (state[write_size] != STATE_ERASE_VALUE || state.len() >= 3 * write_size)
}

/// `r` is the swap progress recorded in `state`: `usize::MAX` when the
/// record is invalid, otherwise the index of the first still-erased progress
/// word, or the number of progress words when none is erased.
pub open spec fn is_progress_of(state: Seq<u8>, write_size: int, r: int) -> bool {
    if !progress_valid(state, write_size) {
        r == usize::MAX
    } else {
        let max = max_progress_index(state.len() as int, write_size);
        &&& 0 <= r <= max
        &&& forall|i: int| 0 <= i < r ==> !progress_word_erased(state, i, write_size)
        &&& r < max ==> progress_word_erased(state, r, write_size)
    }
}

/// Each progress word read by the scan lies inside the partition.
proof fn lemma_progress_word_in_bounds(index: int, write_size: int, len: int)
    requires
        write_size >= 1,
        len >= 3 * write_size,
        0 <= index < max_progress_index(len, write_size),
    ensures
        (2 + index) * write_size + write_size <= len,
        0 <= (2 + index) * write_size,
{
    let q = (len - write_size) / write_size;
    assert(q * write_size <= len - write_size) by (nonlinear_arith)
        requires
            q == (len - write_size) / write_size,
            write_size >= 1,
            len - write_size >= 0,
    ;
    assert((3 + index) * write_size <= q * write_size) by (nonlinear_arith)
        requires
            3 + index <= q,
            write_size >= 1,
    ;
    assert((2 + index) * write_size + write_size == (3 + index) * write_size) by (nonlinear_arith);
    assert(0 <= (2 + index) * write_size) by (nonlinear_arith)
        requires
            index >= 0,
            write_size >= 1,
    ;
}

/// The number of progress words is at least zero for a readable partition.
proof fn lemma_max_index_nonneg(len: int, write_size: int)
    requires
        write_size >= 1,
        len >= 3 * write_size,
    ensures
        max_progress_index(len, write_size) >= 0,
{
    assert((len - write_size) / write_size >= 2) by (nonlinear_arith)
        requires
            write_size >= 1,
            len - write_size >= 2 * write_size,
    ;
}

/// Reads the swap progress from the contents of the state partition.
///
/// Layout of the partition, in words of `write_size` bytes: word 0 is the
/// magic, word 1 the progress validity, and the words from 2 on record one
/// finished copy step each by no longer being erased.
pub fn current_progress(state: &[u8], write_size: usize) -> (r: usize)
    requires
        readable_state(state@, write_size as int),
    ensures
        is_progress_of(state@, write_size as int, r as int),
{
    if state[write_size] != STATE_ERASE_VALUE {
        return usize::MAX;
    }
    proof {
        lemma_max_index_nonneg(state.len() as int, write_size as int);
    }
    let max_index = (state.len() - write_size) / write_size - 2;
    let mut index: usize = 0;
    while index < max_index
        invariant
            write_size >= 1,
            state@.len() >= 3 * write_size,
            progress_valid(state@, write_size as int),
            max_index == max_progress_index(state@.len() as int, write_size as int),
            0 <= index <= max_index,
            forall|i: int| 0 <= i < index ==> !progress_word_erased(state@, i, write_size as int),
        decreases max_index - index,
    {
        proof {
            lemma_progress_word_in_bounds(index as int, write_size as int, state.len() as int);
        }
        let offset = (2 + index) * write_size;
        if state[offset] == STATE_ERASE_VALUE {
            return index;
        }
        index += 1;
    }
    max_index
}

/// `true` when the recorded progress covers every copy step of the swap:
/// two steps per swap page of the active partition.
pub open spec fn swapped_spec(progress: int, active_capacity: int, swap_page_size: int) -> bool {
    progress >= (active_capacity / swap_page_size) * 2
}

/// Whether the pending swap has already been carried out completely (the
/// application then failed to confirm it, and the bootloader will revert).
pub fn is_swapped(progress: usize, active_capacity: usize, swap_page_size: usize) -> (r: bool)
    requires
        swap_page_size >= 1,
        (active_capacity / swap_page_size) * 2 <= usize::MAX,
    ensures
        r == swapped_spec(progress as int, active_capacity as int, swap_page_size as int),
{
    progress >= (active_capacity / swap_page_size) * 2
}

/// Law: the recorded progress is determined by the partition contents.
pub proof fn lemma_progress_unique(state: Seq<u8>, write_size: int, r1: int, r2: int)
    requires
        readable_state(state, write_size),
        is_progress_of(state, write_size, r1),
        is_progress_of(state, write_size, r2),
    ensures
        r1 == r2,
{
    if progress_valid(state, write_size) {
        if r1 < r2 {
            assert(!progress_word_erased(state, r1, write_size));
        } else if r2 < r1 {
            assert(!progress_word_erased(state, r2, write_size));
        }
    }
}

/// Distinct progress words start at distinct bytes.
proof fn lemma_word_offsets_distinct(i: int, j: int, write_size: int)
    requires
        write_size >= 1,
        i != j,
    ensures
        (2 + i) * write_size != (2 + j) * write_size,
{
    if (2 + i) * write_size == (2 + j) * write_size {
        assert(i == j) by (nonlinear_arith)
            requires
                (2 + i) * write_size == (2 + j) * write_size,
                write_size >= 1,
        ;
    }
}

/// Law: recording the current copy step as done (writing its progress word
/// with anything but the erase value) moves the recorded progress past it,
/// while the record stays valid.
pub proof fn lemma_recording_step_advances(
    state: Seq<u8>,
    write_size: int,
    r: int,
    b: u8,
    r2: int,
)
    requires
        readable_state(state, write_size),
        progress_valid(state, write_size),
        is_progress_of(state, write_size, r),
        r < max_progress_index(state.len() as int, write_size),
        b != STATE_ERASE_VALUE,
        is_progress_of(state.update((2 + r) * write_size, b), write_size, r2),
    ensures
        progress_valid(state.update((2 + r) * write_size, b), write_size),
        r < r2 <= max_progress_index(state.len() as int, write_size),
{
    let s2 = state.update((2 + r) * write_size, b);
    lemma_progress_word_in_bounds(r, write_size, state.len() as int);
    assert((2 + r) * write_size >= 2 * write_size) by (nonlinear_arith)
        requires
            r >= 0,
            write_size >= 1,
    ;
    assert(s2[write_size] == state[write_size]);
    assert forall|i: int| 0 <= i <= r implies !progress_word_erased(s2, i, write_size) by {
        if i < r {
            lemma_word_offsets_distinct(i, r, write_size);
            lemma_progress_word_in_bounds(i, write_size, state.len() as int);
            assert(!progress_word_erased(state, i, write_size));
            assert(s2[(2 + i) * write_size] == state[(2 + i) * write_size]);
        } else {
            assert(s2[(2 + r) * write_size] == b);
        }
    }
    if r2 <= r {
        assert(!progress_word_erased(s2, r2, write_size));
    }
}

/// Law: with `n = active_capacity / swap_page_size` swap pages, for any swap
/// page size, a progress of `2 * n` (two copy steps per page) counts as a
/// completely copied swap and one step less does not; and once swapped,
/// more progress stays swapped.
pub proof fn lemma_swapped_threshold(
    active_capacity: int,
    swap_page_size: int,
    progress: int,
    more: int,
)
    requires
        active_capacity >= 0,
        swap_page_size >= 1,
        more >= progress,
    ensures
        swapped_spec(2 * (active_capacity / swap_page_size), active_capacity, swap_page_size),
        !swapped_spec(2 * (active_capacity / swap_page_size) - 1, active_capacity, swap_page_size),
        swapped_spec(progress, active_capacity, swap_page_size) ==> swapped_spec(
            more,
            active_capacity,
            swap_page_size,
        ),
{
}

} // verus!
