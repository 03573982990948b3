use vstd::prelude::*;

verus! {

/// Half period of the heartbeat blink, in milliseconds.
pub const HB_HALF_MS: u64 = 250;
/// Number of heartbeat blinks before a normal boot.
pub const HB_CYCLES: u32 = 2;
/// How long the LED stays lit before a swap starts, in milliseconds.
pub const PRE_SWAP_MS: u64 = 1000;
/// On and off time of each blink announcing a revert (and a finished swap).
pub const PRE_REVERT_BLINK_MS: u64 = 100;
/// Number of blinks announcing a revert.
pub const PRE_REVERT_COUNT: u32 = 3;
/// Number of blinks announcing a finished swap.
pub const POST_SWAP_COUNT: u32 = 5;
/// Length of a Morse dot.
pub const DOT_MS: u64 = 150;
/// Length of a Morse dash.
pub const DASH_MS: u64 = 450;
/// Gap between the elements of a Morse letter.
pub const INTRA_GAP_MS: u64 = 150;
/// Gap between Morse letters.
pub const LETTER_GAP_MS: u64 = 450;
/// Gap between Morse words.
pub const WORD_GAP_MS: u64 = 1050;
/// Breathing period while a swap is copied.
pub const SWAP_BREATHE_MS: u32 = 300;
/// Breathing period while USB DFU runs.
pub const DFU_BREATHE_MS: u32 = 3000;
/// How long the LED goes dark to acknowledge the first tap of a double tap.
pub const DTAP_SIGNAL_MS: u64 = 500;

/// One step of an LED indication, performed in order by the caller.
#[derive(Clone, Copy, Debug, PartialEq, Eq, Structural)]
pub enum LedStep {
    /// Hard on (`true`) or off (`false`).
    SetRaw(bool),
    /// Busy-wait this many milliseconds.
    Wait(u64),
    /// Start breathing with this period in milliseconds.
    StartBreathing(u32),
    /// Stop breathing and turn the LED off.
    Stop,
}

/// One blink: on for `on_ms`, then off for `off_ms`.
pub open spec fn blink(on_ms: u64, off_ms: u64) -> Seq<LedStep> {
    seq![LedStep::SetRaw(true), LedStep::Wait(on_ms), LedStep::SetRaw(false), LedStep::Wait(off_ms)]
}

/// `pattern` repeated `n` times.
pub open spec fn repeat(pattern: Seq<LedStep>, n: nat) -> Seq<LedStep>
    decreases n,
{
    if n == 0 {
        Seq::empty()
    } else {
        repeat(pattern, (n - 1) as nat) + pattern
    }
}

/// The heartbeat shown before a normal boot: a half-period pause, then two
/// blinks.
pub open spec fn heartbeat_spec() -> Seq<LedStep> {
    seq![LedStep::Wait(HB_HALF_MS)] + repeat(blink(HB_HALF_MS, HB_HALF_MS), HB_CYCLES as nat)
}

/// One long flash announcing that a swap is about to start.
pub open spec fn pre_swap_spec() -> Seq<LedStep> {
    seq![LedStep::SetRaw(true), LedStep::Wait(PRE_SWAP_MS), LedStep::SetRaw(false)]
}

/// Three quick blinks announcing a revert.
pub open spec fn pre_revert_spec() -> Seq<LedStep> {
    repeat(blink(PRE_REVERT_BLINK_MS, PRE_REVERT_BLINK_MS), PRE_REVERT_COUNT as nat)
}

/// Five quick blinks announcing a finished swap.
pub open spec fn post_swap_spec() -> Seq<LedStep> {
    repeat(blink(PRE_REVERT_BLINK_MS, PRE_REVERT_BLINK_MS), POST_SWAP_COUNT as nat)
}

/// One round of the panic signal: S, O, S in Morse, then a word gap.
pub open spec fn sos_spec() -> Seq<LedStep> {
    repeat(blink(DOT_MS, INTRA_GAP_MS), 3)
        + seq![LedStep::Wait((LETTER_GAP_MS - INTRA_GAP_MS) as u64)]
        + repeat(blink(DASH_MS, INTRA_GAP_MS), 3)
        + seq![LedStep::Wait((LETTER_GAP_MS - INTRA_GAP_MS) as u64)]
        + repeat(blink(DOT_MS, INTRA_GAP_MS), 3)
        + seq![LedStep::Wait((WORD_GAP_MS - INTRA_GAP_MS) as u64)]
}

/// The acknowledgement of a first tap: dark for a moment, then lit again.
pub open spec fn double_tap_signal_spec() -> Seq<LedStep> {
    seq![LedStep::SetRaw(false), LedStep::Wait(DTAP_SIGNAL_MS), LedStep::SetRaw(true)]
}

/// Whether the LED is hard on (`Some(true)`) or off (`Some(false)`) after
/// performing `steps`, as far as their last on/off or stop step says.
pub open spec fn last_raw(steps: Seq<LedStep>) -> Option<bool>
    decreases steps.len(),
{
    if steps.len() == 0 {
        None
    } else {
        match steps.last() {
            LedStep::SetRaw(on) => Some(on),
            LedStep::Stop => Some(false),
            _ => last_raw(steps.drop_last()),
        }
    }
}

/// The last on/off step of a concatenation comes from its second part when
/// that has one.
proof fn lemma_last_raw_concat(a: Seq<LedStep>, b: Seq<LedStep>)
    ensures
        last_raw(a + b) == (if last_raw(b) is Some {
            last_raw(b)
        } else {
            last_raw(a)
        }),
    decreases b.len(),
{
    if b.len() == 0 {
        assert(a + b =~= a);
    } else {
        assert((a + b).last() == b.last());
        assert((a + b).drop_last() =~= a + b.drop_last());
        lemma_last_raw_concat(a, b.drop_last());
    }
}

/// Any positive number of blinks leaves the LED off.
proof fn lemma_blinks_end_dark(on_ms: u64, off_ms: u64, n: nat)
    requires
        n >= 1,
    ensures
        last_raw(repeat(blink(on_ms, off_ms), n)) == Some(false),
{
    let b = blink(on_ms, off_ms);
    assert(b.drop_last() =~= seq![LedStep::SetRaw(true), LedStep::Wait(on_ms), LedStep::SetRaw(false)]);
    assert(last_raw(b) == Some(false)) by {
        reveal_with_fuel(last_raw, 2);
    }
    lemma_last_raw_concat(repeat(b, (n - 1) as nat), b);
}

/// Law: every blink code (heartbeat, swap and revert announcements, the
/// finished-swap blinks and each SOS round) leaves the LED off, while the
/// first-tap acknowledgement leaves it lit.
pub proof fn lemma_blink_codes_end_dark()
    ensures
        last_raw(heartbeat_spec()) == Some(false),
        last_raw(pre_swap_spec()) == Some(false),
        last_raw(pre_revert_spec()) == Some(false),
        last_raw(post_swap_spec()) == Some(false),
        last_raw(sos_spec()) == Some(false),
        last_raw(double_tap_signal_spec()) == Some(true),
{
    lemma_blinks_end_dark(HB_HALF_MS, HB_HALF_MS, HB_CYCLES as nat);
    lemma_last_raw_concat(seq![LedStep::Wait(HB_HALF_MS)], repeat(blink(HB_HALF_MS, HB_HALF_MS), HB_CYCLES as nat));
    lemma_blinks_end_dark(PRE_REVERT_BLINK_MS, PRE_REVERT_BLINK_MS, PRE_REVERT_COUNT as nat);
    lemma_blinks_end_dark(PRE_REVERT_BLINK_MS, PRE_REVERT_BLINK_MS, POST_SWAP_COUNT as nat);
    let dots = repeat(blink(DOT_MS, INTRA_GAP_MS), 3);
    let dashes = repeat(blink(DASH_MS, INTRA_GAP_MS), 3);
    let gap = seq![LedStep::Wait((LETTER_GAP_MS - INTRA_GAP_MS) as u64)];
    let end = seq![LedStep::Wait((WORD_GAP_MS - INTRA_GAP_MS) as u64)];
    lemma_blinks_end_dark(DOT_MS, INTRA_GAP_MS, 3);
    let front = dots + gap + dashes + gap;
    lemma_last_raw_concat(front, dots);
    assert(end.drop_last() =~= Seq::<LedStep>::empty());
    assert(last_raw(end) is None) by {
        reveal_with_fuel(last_raw, 2);
    }
    lemma_last_raw_concat(front + dots, end);
    assert(sos_spec() =~= front + dots + end);
    let p = pre_swap_spec();
    assert(p.drop_last() =~= seq![LedStep::SetRaw(true), LedStep::Wait(PRE_SWAP_MS)]);
}

/// Number of steps an LED script can hold.
pub const SCRIPT_CAPACITY: usize = 48;

/// A short sequence of LED steps held without allocation.
#[derive(Clone, Copy, Debug)]
pub struct LedScript {
    steps: [LedStep; 48],
    len: usize,
}

impl View for LedScript {
    type V = Seq<LedStep>;

    closed spec fn view(&self) -> Seq<LedStep> {
        self.steps@.subrange(0, self.len as int)
    }
}

/// `repeat` of `n` copies has `n` times the length of the pattern.
pub proof fn lemma_repeat_len(pattern: Seq<LedStep>, n: nat)
    ensures
        repeat(pattern, n).len() == n * pattern.len(),
    decreases n,
{
    if n > 0 {
        lemma_repeat_len(pattern, (n - 1) as nat);
        assert(repeat(pattern, n) == repeat(pattern, (n - 1) as nat) + pattern);
        assert((n - 1) * pattern.len() + pattern.len() == n * pattern.len()) by (nonlinear_arith)
            requires
                n > 0,
        ;
    } else {
        assert(0 * pattern.len() == 0) by (nonlinear_arith);
    }
}

impl LedScript {
    #[verifier::type_invariant]
    spec fn inv(self) -> bool {
        self.len <= SCRIPT_CAPACITY
    }

    /// An empty script.
    pub fn new() -> (r: LedScript)
        ensures
            r@ == Seq::<LedStep>::empty(),
    {
        let r = LedScript { steps: [LedStep::Stop; 48], len: 0 };
        assert(r@ =~= Seq::<LedStep>::empty());
        r
    }

    /// Appends one step.
    pub fn push(&mut self, step: LedStep)
        requires
            old(self)@.len() < SCRIPT_CAPACITY,
        ensures
            final(self)@ == old(self)@.push(step),
    {
        proof {
            use_type_invariant(&*self);
        }
        let i = self.len;
        self.steps[i] = step;
        self.len = i + 1;
        assert(self@ =~= old(self)@.push(step));
    }

    /// Number of steps.
    pub fn len(&self) -> (r: usize)
        ensures
            r == self@.len(),
    {
        proof {
            use_type_invariant(self);
        }
        self.len
    }

    /// The step at `i`.
    pub fn get(&self, i: usize) -> (r: LedStep)
        requires
            i < self@.len(),
        ensures
            r == self@[i as int],
    {
        proof {
            use_type_invariant(self);
        }
        self.steps[i]
    }

    /// The steps, in order.
    pub fn as_slice(&self) -> (r: &[LedStep])
        ensures
            r@ == self@,
    {
        proof {
            use_type_invariant(self);
        }
        vstd::slice::slice_subrange(self.steps.as_slice(), 0, self.len)
    }
}

/// Appends `n` blinks of `on_ms` on and `off_ms` off.
pub fn push_blinks(steps: &mut LedScript, n: u32, on_ms: u64, off_ms: u64)
    requires
        old(steps)@.len() + 4 * n <= SCRIPT_CAPACITY,
    ensures
        final(steps)@ == old(steps)@ + repeat(blink(on_ms, off_ms), n as nat),
{
    let ghost start = steps@;
    let mut i: u32 = 0;
    while i < n
        invariant
            0 <= i <= n,
            start.len() + 4 * n <= SCRIPT_CAPACITY,
            steps@ == start + repeat(blink(on_ms, off_ms), i as nat),
        decreases n - i,
    {
        proof {
            lemma_repeat_len(blink(on_ms, off_ms), i as nat);
            assert(blink(on_ms, off_ms).len() == 4);
            assert(steps@.len() == start.len() + 4 * i);
        }
        steps.push(LedStep::SetRaw(true));
        steps.push(LedStep::Wait(on_ms));
        steps.push(LedStep::SetRaw(false));
        steps.push(LedStep::Wait(off_ms));
        proof {
            assert(repeat(blink(on_ms, off_ms), (i + 1) as nat) == repeat(
                blink(on_ms, off_ms),
                i as nat,
            ) + blink(on_ms, off_ms));
            assert(steps@ =~= start + repeat(blink(on_ms, off_ms), (i + 1) as nat));
        }
        i += 1;
    }
}

/// The heartbeat shown before a normal boot.
pub fn heartbeat() -> (r: LedScript)
    ensures
        r@ == heartbeat_spec(),
{
    let mut v = LedScript::new();
    v.push(LedStep::Wait(HB_HALF_MS));
    push_blinks(&mut v, HB_CYCLES, HB_HALF_MS, HB_HALF_MS);
    v
}

/// The long flash announcing a swap.
pub fn pre_swap() -> (r: LedScript)
    ensures
        r@ == pre_swap_spec(),
{
    let mut v = LedScript::new();
    v.push(LedStep::SetRaw(true));
    v.push(LedStep::Wait(PRE_SWAP_MS));
    v.push(LedStep::SetRaw(false));
    assert(v@ =~= pre_swap_spec());
    v
}

/// The quick blinks announcing a revert.
pub fn pre_revert() -> (r: LedScript)
    ensures
        r@ == pre_revert_spec(),
{
    let mut v = LedScript::new();
    push_blinks(&mut v, PRE_REVERT_COUNT, PRE_REVERT_BLINK_MS, PRE_REVERT_BLINK_MS);
    assert(v@ =~= pre_revert_spec());
    v
}

/// The quick blinks announcing a finished swap.
pub fn post_swap() -> (r: LedScript)
    ensures
        r@ == post_swap_spec(),
{
    let mut v = LedScript::new();
    push_blinks(&mut v, POST_SWAP_COUNT, PRE_REVERT_BLINK_MS, PRE_REVERT_BLINK_MS);
    assert(v@ =~= post_swap_spec());
    v
}

/// One round of the SOS signal shown after a panic; the panic handler
/// repeats it forever.
pub fn sos() -> (r: LedScript)
    ensures
        r@ == sos_spec(),
{
    let mut v = LedScript::new();
    proof {
        lemma_repeat_len(blink(DOT_MS, INTRA_GAP_MS), 3);
        lemma_repeat_len(blink(DASH_MS, INTRA_GAP_MS), 3);
    }
    push_blinks(&mut v, 3, DOT_MS, INTRA_GAP_MS);
    v.push(LedStep::Wait(LETTER_GAP_MS - INTRA_GAP_MS));
    push_blinks(&mut v, 3, DASH_MS, INTRA_GAP_MS);
    v.push(LedStep::Wait(LETTER_GAP_MS - INTRA_GAP_MS));
    push_blinks(&mut v, 3, DOT_MS, INTRA_GAP_MS);
    v.push(LedStep::Wait(WORD_GAP_MS - INTRA_GAP_MS));
    assert(v@ =~= sos_spec());
    v
}

/// The acknowledgement of the first tap of a double tap.
pub fn double_tap_signal() -> (r: LedScript)
    ensures
        r@ == double_tap_signal_spec(),
{
    let mut v = LedScript::new();
    v.push(LedStep::SetRaw(false));
    v.push(LedStep::Wait(DTAP_SIGNAL_MS));
    v.push(LedStep::SetRaw(true));
    assert(v@ =~= double_tap_signal_spec());
    v
}

} // verus!
