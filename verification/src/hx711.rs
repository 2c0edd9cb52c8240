//! Bit-banged driver for a 24-bit delta-sigma load-cell converter.
//!
//! The chip owns the data line and the host owns the clock line.  A
//! conversion is read by polling the data line until it goes low (ready),
//! bounded by [`MAX_READY_POLLS`] failed polls, then shifting in 24 bits
//! most-significant-bit first — one clock pulse per bit, the data line
//! sampled right after the rising edge — and finally sending one to three
//! extra clock pulses that select the channel and gain of the *next*
//! conversion.  The unsigned 24-bit result is turned into the driver's raw
//! value by flipping its top bit (an exclusive-or with 0x800000), a fixed
//! offset-by-2^23 transform that is deliberately not two's-complement sign
//! extension.
//!
//! Every operation is specified against the line model of [`crate::line`]:
//! what a read returns, how many levels it consumes from the data line, and
//! exactly which levels it drives onto the clock line.

use vstd::prelude::*;

use crate::line::{advanced, level_at, lemma_advanced_compose, lemma_level_at_advanced, DigitalLine};
use crate::timer::spin_wait;

verus! {

/// How many failed readiness polls a read tolerates before giving up; the
/// poll that would be the `MAX_READY_POLLS + 1`-th failure makes the read
/// time out.  With a one-microsecond pause per poll this is about a second.
pub const MAX_READY_POLLS: u32 = 1000000;

/// Total readiness polls a read may consume: the bound above, plus the final
/// poll at which it gives up.
pub open spec fn poll_budget() -> nat {
    (MAX_READY_POLLS + 1) as nat
}

/// Gain settings, which also select the input channel.  The variant fixes
/// how many trailing clock pulses a read sends after the 24 data bits; the
/// chip applies the selection to the conversion after the one being read.
#[derive(Clone, Copy, Debug, PartialEq, Eq, Structural)]
pub enum Gain {
    /// Channel A with gain of 128 (power-on default): 1 trailing pulse.
    ChAGain128,
    /// Channel B with gain of 32: 2 trailing pulses.
    ChBGain32,
    /// Channel A with gain of 64: 3 trailing pulses.
    ChAGain64,
}

/// Trailing clock pulses sent for a gain selection: always 1, 2 or 3.
pub open spec fn spec_trailing_pulses(g: Gain) -> nat {
    match g {
        Gain::ChAGain128 => 1,
        Gain::ChBGain32 => 2,
        Gain::ChAGain64 => 3,
    }
}

impl Gain {
    /// How many trailing clock pulses this selection sends after a read.
    pub fn trailing_pulses(&self) -> (n: u8)
        ensures
            n as nat == spec_trailing_pulses(*self),
            1 <= n <= 3,
    {
        match self {
            Gain::ChAGain128 => 1,
            Gain::ChBGain32 => 2,
            Gain::ChAGain64 => 3,
        }
    }
}

/// Construction failure: one of the two lines could not be configured.
/// Fatal — the driver is not built and nothing is retried.
#[derive(Clone, Copy, Debug, PartialEq, Eq, Structural)]
pub enum Hx711Error {
    /// The clock line could not be configured as an output.
    ClockSetup,
    /// The data line could not be configured as an input.
    DataSetup,
}

/// 2 to the power `n`.
pub open spec fn exp2(n: nat) -> nat
    decreases n,
{
    if n == 0 {
        1
    } else {
        2 * exp2((n - 1) as nat)
    }
}

pub proof fn lemma_exp2_le(a: nat, b: nat)
    requires
        a <= b,
    ensures
        exp2(a) <= exp2(b),
    decreases b,
{
    if a < b {
        lemma_exp2_le(a, (b - 1) as nat);
    }
}

pub proof fn lemma_exp2_24()
    ensures
        exp2(24) == 0x1000000,
{
    reveal_with_fuel(exp2, 25);
}

/// How many polls until the data line first reads low (ready), searching at
/// most `fuel` levels from position `from` of the script: `Some(k)` when the
/// `k`-th poll is the first low one, `None` when all `fuel` polls read high.
pub open spec fn ready_delay(script: Seq<bool>, from: int, fuel: nat) -> Option<nat>
    decreases fuel,
{
    if fuel == 0 {
        None
    } else if !level_at(script, from) {
        Some(0nat)
    } else {
        match ready_delay(script, from + 1, (fuel - 1) as nat) {
            Some(k) => Some((k + 1) as nat),
            None => None,
        }
    }
}

pub proof fn lemma_ready_delay_found(script: Seq<bool>, from: int, k: nat, fuel: nat)
    requires
        k < fuel,
        !level_at(script, from + k),
        forall|j: int| 0 <= j < k ==> #[trigger] level_at(script, from + j),
    ensures
        ready_delay(script, from, fuel) == Some(k),
    decreases k,
{
    if k > 0 {
        assert(level_at(script, from + 0));
        assert forall|j: int| 0 <= j < k - 1 implies #[trigger] level_at(script, from + 1 + j) by {
            assert(level_at(script, from + (j + 1)));
        }
        assert(!level_at(script, from + 1 + (k - 1)));
        lemma_ready_delay_found(script, from + 1, (k - 1) as nat, (fuel - 1) as nat);
    }
}

pub proof fn lemma_ready_delay_none(script: Seq<bool>, from: int, fuel: nat)
    requires
        forall|j: int| 0 <= j < fuel ==> #[trigger] level_at(script, from + j),
    ensures
        ready_delay(script, from, fuel) is None,
    decreases fuel,
{
    if fuel > 0 {
        assert(level_at(script, from + 0));
        assert forall|j: int| 0 <= j < fuel - 1 implies #[trigger] level_at(script, from + 1 + j) by {
            assert(level_at(script, from + (j + 1)));
        }
        lemma_ready_delay_none(script, from + 1, (fuel - 1) as nat);
    }
}

pub proof fn lemma_ready_delay_some(script: Seq<bool>, from: int, fuel: nat)
    requires
        exists|j: int| 0 <= j < fuel && !(#[trigger] level_at(script, from + j)),
    ensures
        ready_delay(script, from, fuel) is Some,
    decreases fuel,
{
    if level_at(script, from) {
        let j = choose|j: int| 0 <= j < fuel && !(#[trigger] level_at(script, from + j));
        assert(0 <= j - 1 < fuel - 1 && !level_at(script, from + 1 + (j - 1)));
        lemma_ready_delay_some(script, from + 1, (fuel - 1) as nat);
    }
}

/// The value shifted in by `n` most-significant-bit-first reads starting at
/// position `from` of the data-line script: each read doubles the
/// accumulator and adds the sampled bit.
pub open spec fn shift_in(script: Seq<bool>, from: int, n: nat) -> nat
    decreases n,
{
    if n == 0 {
        0
    } else {
        2 * shift_in(script, from, (n - 1) as nat) + if level_at(script, from + n - 1) {
            1nat
        } else {
            0nat
        }
    }
}

pub proof fn lemma_shift_in_bound(script: Seq<bool>, from: int, n: nat)
    ensures
        shift_in(script, from, n) < exp2(n),
    decreases n,
{
    if n > 0 {
        lemma_shift_in_bound(script, from, (n - 1) as nat);
    }
}

/// The clock levels of `n` full pulses: high then low, `n` times over.
pub open spec fn pulse_train(n: nat) -> Seq<bool>
    decreases n,
{
    if n == 0 {
        Seq::empty()
    } else {
        pulse_train((n - 1) as nat) + seq![true, false]
    }
}

pub proof fn lemma_pulse_train_len(n: nat)
    ensures
        pulse_train(n).len() == 2 * n,
    decreases n,
{
    if n > 0 {
        lemma_pulse_train_len((n - 1) as nat);
    }
}

pub proof fn lemma_pulse_train_concat(a: nat, b: nat)
    ensures
        pulse_train(a + b) == pulse_train(a) + pulse_train(b),
    decreases b,
{
    if b == 0 {
        assert(pulse_train(a + 0) =~= pulse_train(a) + pulse_train(0));
    } else {
        lemma_pulse_train_concat(a, (b - 1) as nat);
        assert(pulse_train(a + b) =~= pulse_train(a) + pulse_train(b));
    }
}

/// The clock levels construction drives: the initial low, the power cycle
/// (low, high-and-hold, low), then ten priming pulses.
pub open spec fn startup_writes() -> Seq<bool> {
    seq![false, false, true, false] + pulse_train(10)
}

/// The raw value a single read produces from the data-line script at
/// position `from`: `-1` on timeout, else the 24-bit shift-in result with
/// its sign bit flipped.  A successful value is never negative, so `-1` is
/// unambiguous.
pub open spec fn spec_read_result(script: Seq<bool>, from: int) -> int {
    match ready_delay(script, from, poll_budget()) {
        None => -1,
        Some(k) => (((shift_in(script, from + k + 1, 24) as u32) ^ 0x800000) as int),
    }
}

/// How many data-line levels a single read consumes: the whole poll budget
/// on timeout; the failed polls, the ready poll and the 24 bits otherwise.
pub open spec fn spec_read_used(script: Seq<bool>, from: int) -> nat {
    match ready_delay(script, from, poll_budget()) {
        None => poll_budget(),
        Some(k) => (k + 1 + 24) as nat,
    }
}

/// The levels a single read drives onto the clock line: nothing on timeout;
/// 24 data pulses plus the gain's trailing pulses otherwise.
pub open spec fn spec_read_writes(script: Seq<bool>, from: int, g: Gain) -> Seq<bool> {
    match ready_delay(script, from, poll_budget()) {
        None => Seq::empty(),
        Some(k) => pulse_train((24 + spec_trailing_pulses(g)) as nat),
    }
}

/// A read's raw value is `-1` or a 24-bit quantity; a successful one is
/// never negative.
pub proof fn lemma_read_result_range(script: Seq<bool>, from: int)
    ensures
        -1 <= spec_read_result(script, from) < 0x1000000,
{
    match ready_delay(script, from, poll_budget()) {
        None => {},
        Some(k) => {
            lemma_shift_in_bound(script, from + k + 1, 24);
            lemma_exp2_24();
            let c = shift_in(script, from + k + 1, 24) as u32;
            assert(c < 0x1000000 ==> (c ^ 0x800000) < 0x1000000) by (bit_vector);
        },
    }
}

/// A successful single read: `Some` of the raw value, `None` on timeout.
pub open spec fn spec_read_opt(script: Seq<bool>, from: int) -> Option<i32> {
    if spec_read_result(script, from) == -1 {
        None
    } else {
        Some(spec_read_result(script, from) as i32)
    }
}

/// Data-line levels consumed by `n` consecutive reads starting at `from`.
pub open spec fn reads_used(script: Seq<bool>, from: int, n: nat) -> nat
    decreases n,
{
    if n == 0 {
        0
    } else {
        (spec_read_used(script, from) + reads_used(
            script,
            from + spec_read_used(script, from),
            (n - 1) as nat,
        )) as nat
    }
}

/// The raw values of the successful reads among `n` consecutive reads
/// starting at `from`, in order; timed-out reads leave no value.
pub open spec fn success_values(script: Seq<bool>, from: int, n: nat) -> Seq<int>
    decreases n,
{
    if n == 0 {
        Seq::empty()
    } else {
        let v = spec_read_result(script, from);
        let rest = success_values(
            script,
            from + spec_read_used(script, from),
            (n - 1) as nat,
        );
        if v == -1 {
            rest
        } else {
            seq![v] + rest
        }
    }
}

/// Clock levels driven by `n` consecutive reads starting at `from`, with
/// gain `g` selected throughout.
pub open spec fn reads_writes(script: Seq<bool>, from: int, n: nat, g: Gain) -> Seq<bool>
    decreases n,
{
    if n == 0 {
        Seq::empty()
    } else {
        spec_read_writes(script, from, g) + reads_writes(
            script,
            from + spec_read_used(script, from),
            (n - 1) as nat,
            g,
        )
    }
}

/// The sign-bit-flip transform is its own inverse: flipping the top bit of
/// a 24-bit value twice gives the value back, and the flipped value is
/// again a 24-bit value.
pub proof fn lemma_sign_flip_involution(c: u32)
    requires
        c < 0x1000000,
    ensures
        ((c ^ 0x800000) ^ 0x800000) == c,
        (c ^ 0x800000) < 0x1000000,
{
    assert(((c ^ 0x800000) ^ 0x800000) == c && (c < 0x1000000 ==> (c ^ 0x800000) < 0x1000000))
        by (bit_vector);
}

pub proof fn lemma_ready_delay_bound(script: Seq<bool>, from: int, fuel: nat)
    ensures
        ready_delay(script, from, fuel) matches Some(k) ==> k < fuel,
    decreases fuel,
{
    if fuel > 0 {
        lemma_ready_delay_bound(script, from + 1, (fuel - 1) as nat);
    }
}

/// A read gives up exactly at the poll budget: a data line that never
/// reports ready within the budget yields the timeout value after consuming
/// the whole budget — never earlier — and one that reports ready anywhere
/// within the budget yields a value, within 24 reads of the ready poll.
pub proof fn lemma_timeout_exactly_at_poll_budget(script: Seq<bool>, from: int)
    ensures
        (forall|j: int| 0 <= j < poll_budget() ==> #[trigger] level_at(script, from + j)) ==> (
        spec_read_result(script, from) == -1 && spec_read_used(script, from) == poll_budget()),
        (exists|j: int| 0 <= j < poll_budget() && !(#[trigger] level_at(script, from + j))) ==> (
        spec_read_result(script, from) != -1 && spec_read_used(script, from) <= poll_budget() + 24),
{
    if forall|j: int| 0 <= j < poll_budget() ==> #[trigger] level_at(script, from + j) {
        lemma_ready_delay_none(script, from, poll_budget());
    }
    if exists|j: int| 0 <= j < poll_budget() && !(#[trigger] level_at(script, from + j)) {
        lemma_ready_delay_some(script, from, poll_budget());
        lemma_ready_delay_bound(script, from, poll_budget());
        lemma_read_result_range(script, from);
    }
}

/// The gain/channel selection changes only the trailing pulses of a read:
/// the raw value and the data-line consumption are selections-free by
/// definition ([`spec_read_result`] and [`spec_read_used`] take no gain at
/// all), and the clock trains of a successful read share the 24 data pulses
/// and differ only in how many pulse pairs follow them.
pub proof fn lemma_gain_selects_only_trailing_pulses(
    script: Seq<bool>,
    from: int,
    g1: Gain,
    g2: Gain,
)
    requires
        ready_delay(script, from, poll_budget()) is Some,
    ensures
        spec_read_writes(script, from, g1).take(48) == spec_read_writes(script, from, g2).take(48),
        spec_read_writes(script, from, g1).take(48) == pulse_train(24),
        spec_read_writes(script, from, g1).skip(48) == pulse_train(spec_trailing_pulses(g1)),
        spec_read_writes(script, from, g2).skip(48) == pulse_train(spec_trailing_pulses(g2)),
        spec_read_writes(script, from, g1).len() == 48 + 2 * spec_trailing_pulses(g1),
        spec_read_writes(script, from, g2).len() == 48 + 2 * spec_trailing_pulses(g2),
{
    lemma_pulse_train_len(24);
    lemma_gain_writes_split(script, from, g1);
    lemma_gain_writes_split(script, from, g2);
}

proof fn lemma_gain_writes_split(script: Seq<bool>, from: int, g: Gain)
    requires
        ready_delay(script, from, poll_budget()) is Some,
    ensures
        spec_read_writes(script, from, g).take(48) == pulse_train(24),
        spec_read_writes(script, from, g).skip(48) == pulse_train(spec_trailing_pulses(g)),
        spec_read_writes(script, from, g).len() == 48 + 2 * spec_trailing_pulses(g),
{
    lemma_pulse_train_concat(24, spec_trailing_pulses(g));
    lemma_pulse_train_len(24);
    lemma_pulse_train_len(spec_trailing_pulses(g));
    lemma_pulse_train_len((24 + spec_trailing_pulses(g)) as nat);
    assert(spec_read_writes(script, from, g).take(48) =~= pulse_train(24));
    assert(spec_read_writes(script, from, g).skip(48) =~= pulse_train(spec_trailing_pulses(g)));
}

/// The script looks the same from position `x` as from position `y`:
/// every read offset delivers the same level.
pub open spec fn same_levels_from(script: Seq<bool>, x: int, y: int) -> bool {
    forall|i: int| 0 <= i ==> (#[trigger] level_at(script, x + i)) == level_at(script, y + i)
}

pub proof fn lemma_same_levels_shift(script: Seq<bool>, x: int, y: int, m: int)
    requires
        same_levels_from(script, x, y),
        0 <= m,
    ensures
        same_levels_from(script, x + m, y + m),
{
    assert forall|i: int| 0 <= i implies (#[trigger] level_at(script, x + m + i)) == level_at(
        script,
        y + m + i,
    ) by {
        assert(level_at(script, x + (m + i)) == level_at(script, y + (m + i)));
    }
}

/// A cursor that stopped at the script's end sees the same levels as the
/// virtual position that kept counting: past the end, everything reads high.
pub proof fn lemma_same_levels_at_advanced(script: Seq<bool>, p: nat, m: nat)
    ensures
        same_levels_from(script, advanced(p, m, script.len()) as int, p + m as int),
{
    assert forall|i: int|
        0 <= i implies (#[trigger] level_at(
        script,
        advanced(p, m, script.len()) as int + i,
    )) == level_at(script, p + m as int + i) by {}
}

pub proof fn lemma_ready_delay_agree(script: Seq<bool>, x: int, y: int, fuel: nat)
    requires
        same_levels_from(script, x, y),
    ensures
        ready_delay(script, x, fuel) == ready_delay(script, y, fuel),
    decreases fuel,
{
    if fuel > 0 {
        assert(level_at(script, x + 0) == level_at(script, y + 0));
        lemma_same_levels_shift(script, x, y, 1);
        lemma_ready_delay_agree(script, x + 1, y + 1, (fuel - 1) as nat);
    }
}

pub proof fn lemma_shift_in_agree(script: Seq<bool>, x: int, y: int, n: nat)
    requires
        same_levels_from(script, x, y),
    ensures
        shift_in(script, x, n) == shift_in(script, y, n),
    decreases n,
{
    if n > 0 {
        assert(level_at(script, x + (n - 1)) == level_at(script, y + (n - 1)));
        lemma_shift_in_agree(script, x, y, (n - 1) as nat);
    }
}

/// The single-read specifications depend only on the levels the read will
/// see, so they agree at positions with the same view of the script.
pub proof fn lemma_read_specs_agree(script: Seq<bool>, x: int, y: int, g: Gain)
    requires
        same_levels_from(script, x, y),
    ensures
        spec_read_result(script, x) == spec_read_result(script, y),
        spec_read_used(script, x) == spec_read_used(script, y),
        spec_read_writes(script, x, g) == spec_read_writes(script, y, g),
    decreases 0nat,
{
    lemma_ready_delay_agree(script, x, y, poll_budget());
    match ready_delay(script, x, poll_budget()) {
        None => {},
        Some(k) => {
            lemma_same_levels_shift(script, x, y, k + 1 as int);
            lemma_shift_in_agree(script, x + k + 1, y + k + 1, 24);
        },
    }
}

/// Appending one more read to a run of `n`: its consumption, successful
/// value (if any) and clock writes attach at the end.
pub proof fn lemma_reads_snoc(script: Seq<bool>, from: int, n: nat, g: Gain)
    ensures
        reads_used(script, from, n + 1) == reads_used(script, from, n) + spec_read_used(
            script,
            from + reads_used(script, from, n),
        ),
        success_values(script, from, n + 1) == success_values(script, from, n) + ({
            let v = spec_read_result(script, from + reads_used(script, from, n));
            if v == -1 {
                Seq::<int>::empty()
            } else {
                seq![v]
            }
        }),
        reads_writes(script, from, n + 1, g) == reads_writes(script, from, n, g)
            + spec_read_writes(script, from + reads_used(script, from, n), g),
    decreases n,
{
    let u = spec_read_used(script, from);
    let from1 = from + u;
    if n == 0 {
        assert(reads_used(script, from1, 0) == 0);
        assert(success_values(script, from1, 0) =~= Seq::<int>::empty());
        assert(reads_writes(script, from1, 0, g) =~= Seq::<bool>::empty());
        assert(success_values(script, from, 0) =~= Seq::<int>::empty());
        assert(reads_writes(script, from, 0, g) =~= Seq::<bool>::empty());
        assert(success_values(script, from, 1) =~= success_values(script, from, 0) + ({
            let v = spec_read_result(script, from);
            if v == -1 {
                Seq::<int>::empty()
            } else {
                seq![v]
            }
        }));
        assert(reads_writes(script, from, 1, g) =~= reads_writes(script, from, 0, g)
            + spec_read_writes(script, from, g));
    } else {
        lemma_reads_snoc(script, from1, (n - 1) as nat, g);
        assert(reads_used(script, from, n + 1) == u + reads_used(script, from1, n));
        assert(from + reads_used(script, from, n) == from1 + reads_used(script, from1, (n - 1) as nat));
        assert(success_values(script, from, n + 1) =~= success_values(script, from, n) + ({
            let v = spec_read_result(script, from + reads_used(script, from, n));
            if v == -1 {
                Seq::<int>::empty()
            } else {
                seq![v]
            }
        }));
        assert(reads_writes(script, from, n + 1, g) =~= reads_writes(script, from, n, g)
            + spec_read_writes(script, from + reads_used(script, from, n), g));
    }
}

/// The multi-read specifications also depend only on the levels seen.
pub proof fn lemma_multi_read_agree(script: Seq<bool>, x: int, y: int, n: nat, g: Gain)
    requires
        same_levels_from(script, x, y),
    ensures
        reads_used(script, x, n) == reads_used(script, y, n),
        success_values(script, x, n) == success_values(script, y, n),
        reads_writes(script, x, n, g) == reads_writes(script, y, n, g),
    decreases n,
{
    if n > 0 {
        lemma_read_specs_agree(script, x, y, g);
        let u = spec_read_used(script, x);
        lemma_same_levels_shift(script, x, y, u as int);
        lemma_multi_read_agree(script, x + u, y + u, (n - 1) as nat, g);
    }
}

pub open spec fn seq_sum(s: Seq<int>) -> int
    decreases s.len(),
{
    if s.len() == 0 {
        0
    } else {
        seq_sum(s.drop_last()) + s.last()
    }
}

pub proof fn lemma_seq_sum_bounds(s: Seq<int>, lo: int, hi: int)
    requires
        forall|i: int| 0 <= i < s.len() ==> lo <= #[trigger] s[i] <= hi,
        lo <= 0,
        0 <= hi,
    ensures
        s.len() * lo <= seq_sum(s) <= s.len() * hi,
    decreases s.len(),
{
    if s.len() > 0 {
        lemma_seq_sum_bounds(s.drop_last(), lo, hi);
        assert((s.len() - 1) * lo + lo == s.len() * lo) by (nonlinear_arith);
        assert((s.len() - 1) * hi + hi == s.len() * hi) by (nonlinear_arith);
    }
}

/// The truncating mean of a list of values: `None` when the list is empty.
pub open spec fn spec_average(vals: Seq<int>) -> Option<int> {
    if vals.len() == 0 {
        None
    } else {
        Some(seq_sum(vals) / vals.len() as int)
    }
}

/// The truncating integer mean of `values`, or `None` when it is empty.
/// This is the whole arithmetic of averaging, apart from gathering the
/// readings themselves.
pub fn average_value(values: &Vec<i32>) -> (r: Option<i32>)
    requires
        forall|i: int| 0 <= i < values@.len() ==> 0 <= #[trigger] values@[i] < 0x1000000,
    ensures
        ({
            let vals = values@.map_values(|v: i32| v as int);
            &&& (r is None <==> vals.len() == 0)
            &&& (r matches Some(a) ==> vals.len() > 0 && 0 <= a < 0x1000000 && a as int == seq_sum(
                vals,
            ) / vals.len() as int)
            &&& (r matches Some(a) ==> spec_average(vals) == Some(a as int))
        }),
{
    let ghost vals = values@.map_values(|v: i32| v as int);
    if values.len() == 0 {
        assert(vals.len() == 0);
        return None;
    }
    let mut sum: u128 = 0;
    let mut i: usize = 0;
    proof {
        assert(vals.take(0) =~= Seq::<int>::empty());
    }
    while i < values.len()
        invariant
            0 <= i <= values@.len(),
            vals == values@.map_values(|v: i32| v as int),
            vals.len() == values@.len(),
            forall|j: int| 0 <= j < vals.len() ==> 0 <= #[trigger] vals[j] < 0x1000000,
            sum as int == seq_sum(vals.take(i as int)),
            sum as int <= i * 0xFFFFFF,
        decreases values@.len() - i,
    {
        proof {
            assert(vals.take(i + 1).drop_last() =~= vals.take(i as int));
            assert(vals.take(i + 1).last() == vals[i as int]);
            assert((i + 1) * 0xFFFFFF == i * 0xFFFFFF + 0xFFFFFF) by (nonlinear_arith);
            assert(i * 0xFFFFFF <= vals.len() * 0xFFFFFF) by (nonlinear_arith)
                requires
                    0 <= i < vals.len(),
            ;
        }
        sum = sum + values[i] as u128;
        i = i + 1;
    }
    proof {
        assert(vals.take(vals.len() as int) =~= vals);
        lemma_seq_sum_bounds(vals, 0, 0xFFFFFF);
        assert(vals.len() * 0 == 0) by (nonlinear_arith);
        assert(vals.len() * 0xFFFFFF >= 1 * 0xFFFFFF) by (nonlinear_arith)
            requires
                vals.len() >= 1,
        ;
    }
    let avg: u128 = sum / (values.len() as u128);
    assert(avg as int == seq_sum(vals) / vals.len() as int) by {
        assert(values.len() as u128 > 0);
    };
    assert(avg <= 0xFFFFFF) by {
        assert(seq_sum(vals) / vals.len() as int <= 0xFFFFFF) by (nonlinear_arith)
            requires
                vals.len() >= 1,
                seq_sum(vals) <= vals.len() * 0xFFFFFF,
        ;
    };
    Some(avg as i32)
}

/// The driver: the two lines, the sticky gain/channel selection, and one
/// zero-point offset per channel.  The reference units that turn raw counts
/// into physical units are floating-point and live with the embedding
/// program; the driver supplies the offset-corrected raw averages.
pub struct HX711<D: DigitalLine, C: DigitalLine> {
    dout: D,
    pd_sck: C,
    gain: Gain,
    offset_a: i32,
    offset_b: i32,
}

impl<D: DigitalLine, C: DigitalLine> HX711<D, C> {
    /// The data line.
    pub closed spec fn data(self) -> D {
        self.dout
    }

    /// The clock line.
    pub closed spec fn clock(self) -> C {
        self.pd_sck
    }

    /// The sticky gain/channel selection.
    pub closed spec fn spec_gain(self) -> Gain {
        self.gain
    }

    /// Channel A's zero-point offset, in raw units.
    pub closed spec fn spec_offset_a(self) -> int {
        self.offset_a as int
    }

    /// Channel B's zero-point offset, in raw units.
    pub closed spec fn spec_offset_b(self) -> int {
        self.offset_b as int
    }

    /// The parts of the line models no driver operation ever changes: the
    /// scripts, the data line's write log, the clock line's read cursor, and
    /// both lines' configurability.
    pub open spec fn lines_frame(pre: Self, post: Self) -> bool {
        &&& post.data().script() == pre.data().script()
        &&& post.data().written() == pre.data().written()
        &&& post.data().setup_ok() == pre.data().setup_ok()
        &&& post.clock().script() == pre.clock().script()
        &&& post.clock().pos() == pre.clock().pos()
        &&& post.clock().setup_ok() == pre.clock().setup_ok()
    }

    /// Gain and both offsets unchanged.
    pub open spec fn same_calibration(pre: Self, post: Self) -> bool {
        &&& post.spec_gain() == pre.spec_gain()
        &&& post.spec_offset_a() == pre.spec_offset_a()
        &&& post.spec_offset_b() == pre.spec_offset_b()
    }

    /// Build a driver on the two lines: configure the clock as an output
    /// (driven low) and the data line as an input, let the chip settle,
    /// power-cycle it into a known state and send ten priming clock pulses.
    /// Fails, fatally, exactly when a line cannot be configured; the clock
    /// line is reported first.  Both offsets start at the non-physical
    /// default of 1.
    pub fn new(dout: D, pd_sck: C, gain: Gain) -> (r: Result<Self, Hx711Error>)
        ensures
            (r is Ok <==> pd_sck.setup_ok() && dout.setup_ok()),
            (r == Result::<Self, Hx711Error>::Err(Hx711Error::ClockSetup) <==> !pd_sck.setup_ok()),
            (r == Result::<Self, Hx711Error>::Err(Hx711Error::DataSetup) <==> pd_sck.setup_ok()
                && !dout.setup_ok()),
            (r matches Ok(h) ==> {
                &&& h.spec_gain() == gain
                &&& h.spec_offset_a() == 1
                &&& h.spec_offset_b() == 1
                &&& h.data().script() == dout.script()
                &&& h.data().pos() == dout.pos()
                &&& h.data().written() == dout.written()
                &&& h.data().setup_ok() == dout.setup_ok()
                &&& h.clock().script() == pd_sck.script()
                &&& h.clock().pos() == pd_sck.pos()
                &&& h.clock().setup_ok() == pd_sck.setup_ok()
                &&& h.clock().written() == pd_sck.written() + startup_writes()
            }),
    {
        let mut dout = dout;
        let mut pd_sck = pd_sck;
        let ghost cw0 = pd_sck.written();
        if !pd_sck.set_output() {
            return Err(Hx711Error::ClockSetup);
        }
        if !dout.set_input() {
            return Err(Hx711Error::DataSetup);
        }
        pd_sck.write_level(false);
        // initial settling delay
        spin_wait(100000);
        let mut hx = HX711 { dout, pd_sck, gain, offset_a: 1, offset_b: 1 };
        hx.reset();
        hx.init();
        proof {
            assert(hx.clock().written() =~= cw0 + startup_writes());
        }
        Ok(hx)
    }

    /// Send ten priming clock pulses.
    #[verifier::loop_isolation(false)]
    pub fn init(&mut self)
        ensures
            Self::lines_frame(*old(self), *final(self)),
            Self::same_calibration(*old(self), *final(self)),
            final(self).data().pos() == old(self).data().pos(),
            final(self).clock().written() == old(self).clock().written() + pulse_train(10),
    {
        let ghost w0 = self.pd_sck.written();
        let mut n: u8 = 0;
        while n < 10
            invariant
                n <= 10,
                self.dout == old(self).dout,
                self.pd_sck.script() == old(self).pd_sck.script(),
                self.pd_sck.pos() == old(self).pd_sck.pos(),
                self.pd_sck.setup_ok() == old(self).pd_sck.setup_ok(),
                self.pd_sck.written() == w0 + pulse_train(n as nat),
                self.gain == old(self).gain,
                self.offset_a == old(self).offset_a,
                self.offset_b == old(self).offset_b,
            decreases 10 - n,
        {
            self.pd_sck.write_level(true);
            self.do_sleep();
            self.pd_sck.write_level(false);
            self.do_sleep();
            proof {
                assert(w0 + pulse_train(n as nat + 1) =~= (w0 + pulse_train(n as nat)).push(
                    true,
                ).push(false));
            }
            n = n + 1;
        }
    }

    /// Hold for the minimum pulse width of the protocol (at least five
    /// microseconds), busy-waiting so the width holds under any scheduler.
    pub fn do_sleep(&self) {
        spin_wait(5000);
    }

    /// Whether the chip has a conversion ready to shift out: true exactly
    /// when the data line reads low.  Consumes one level of the data line's
    /// script.
    pub fn is_ready(&mut self) -> (r: bool)
        ensures
            Self::lines_frame(*old(self), *final(self)),
            Self::same_calibration(*old(self), *final(self)),
            final(self).clock().written() == old(self).clock().written(),
            r == !level_at(old(self).data().script(), old(self).data().pos() as int),
            final(self).data().pos() == advanced(
                old(self).data().pos(),
                1,
                old(self).data().script().len(),
            ),
    {
        let level = self.dout.read_level();
        !level
    }

    /// Drive the chip into low-power mode: clock low, a pause, then clock
    /// high and held there (the chip powers down after 60 microseconds of
    /// high clock).
    pub fn power_down(&mut self)
        ensures
            Self::lines_frame(*old(self), *final(self)),
            Self::same_calibration(*old(self), *final(self)),
            final(self).data().pos() == old(self).data().pos(),
            final(self).clock().written() == old(self).clock().written() + seq![false, true],
    {
        self.pd_sck.write_level(false);
        spin_wait(100000);
        self.pd_sck.write_level(true);
        spin_wait(100000);
        proof {
            assert(old(self).clock().written() + seq![false, true] =~= old(
                self,
            ).clock().written().push(false).push(true));
        }
    }

    /// Wake the chip: clock low, then a pause while it resumes.  The chip
    /// always resumes on channel A at gain 128, whatever was selected
    /// before; no throwaway read is issued to push the stored selection
    /// back, so the first read after a power cycle may still reflect the
    /// default — exactly one pulse train's difference, preserved as-is.
    pub fn power_up(&mut self)
        ensures
            Self::lines_frame(*old(self), *final(self)),
            Self::same_calibration(*old(self), *final(self)),
            final(self).data().pos() == old(self).data().pos(),
            final(self).clock().written() == old(self).clock().written() + seq![false],
    {
        self.pd_sck.write_level(false);
        spin_wait(100000);
        proof {
            assert(old(self).clock().written() + seq![false] =~= old(
                self,
            ).clock().written().push(false));
        }
    }

    /// Power cycle: down then up, forcing a known chip state.
    pub fn reset(&mut self)
        ensures
            Self::lines_frame(*old(self), *final(self)),
            Self::same_calibration(*old(self), *final(self)),
            final(self).data().pos() == old(self).data().pos(),
            final(self).clock().written() == old(self).clock().written() + seq![
                false,
                true,
                false,
            ],
    {
        self.power_down();
        self.power_up();
        proof {
            assert(old(self).clock().written() + seq![false, true, false] =~= old(
                self,
            ).clock().written() + seq![false, true] + seq![false]);
        }
    }

    /// Read one conversion.  Polls readiness at most the poll budget, then
    /// shifts in 24 bits most-significant-bit first (clock high, hold,
    /// sample, clock low, hold), sends the selected gain's trailing pulses,
    /// and returns the sign-bit-flipped value — or `-1`, which no
    /// successful read can produce, after the full poll budget fails.
    #[verifier::loop_isolation(false)]
    pub fn read_raw_bytes(&mut self) -> (r: i32)
        ensures
            Self::lines_frame(*old(self), *final(self)),
            Self::same_calibration(*old(self), *final(self)),
            r == spec_read_result(old(self).data().script(), old(self).data().pos() as int),
            -1 <= r < 0x1000000,
            final(self).data().pos() == advanced(
                old(self).data().pos(),
                spec_read_used(old(self).data().script(), old(self).data().pos() as int),
                old(self).data().script().len(),
            ),
            final(self).clock().written() == old(self).clock().written() + spec_read_writes(
                old(self).data().script(),
                old(self).data().pos() as int,
                old(self).spec_gain(),
            ),
    {
        let ghost s = self.dout.script();
        let ghost t0 = self.dout.pos();
        let ghost w0 = self.pd_sck.written();

        // readiness polling, bounded to the poll budget
        let mut ready = false;
        let mut polls: u32 = 0;
        while !ready && polls <= MAX_READY_POLLS
            invariant
                polls <= MAX_READY_POLLS + 1,
                self.dout.script() == s,
                self.dout.pos() == advanced(
                    t0,
                    polls as nat + if ready {
                        1nat
                    } else {
                        0nat
                    },
                    s.len(),
                ),
                self.dout.written() == old(self).dout.written(),
                self.dout.setup_ok() == old(self).dout.setup_ok(),
                self.pd_sck.script() == old(self).pd_sck.script(),
                self.pd_sck.pos() == old(self).pd_sck.pos(),
                self.pd_sck.setup_ok() == old(self).pd_sck.setup_ok(),
                self.pd_sck.written() == w0,
                self.gain == old(self).gain,
                self.offset_a == old(self).offset_a,
                self.offset_b == old(self).offset_b,
                forall|j: int| 0 <= j < polls ==> #[trigger] level_at(s, t0 + j),
                ready ==> polls <= MAX_READY_POLLS && !level_at(s, t0 + polls),
            decreases (MAX_READY_POLLS + 1 - polls) * 2 + if ready {
                0int
            } else {
                1int
            },
        {
            let low = self.is_ready();
            proof {
                lemma_level_at_advanced(s, t0, polls as nat);
                lemma_advanced_compose(t0, polls as nat, 1, s.len());
            }
            if low {
                ready = true;
            } else {
                assert(level_at(s, t0 + polls));
                polls = polls + 1;
                if polls <= MAX_READY_POLLS {
                    spin_wait(1000);
                }
            }
        }
        if !ready {
            proof {
                assert(polls == MAX_READY_POLLS + 1);
                lemma_ready_delay_none(s, t0 as int, poll_budget());
                assert(w0 + spec_read_writes(s, t0 as int, old(self).spec_gain()) =~= w0);
            }
            return -1;
        }

        let ghost k = polls as nat;
        proof {
            lemma_ready_delay_found(s, t0 as int, k, poll_budget());
        }

        // shift in 24 bits, most significant first
        let ghost base = t0 as int + k + 1;
        let mut count: u32 = 0;
        let mut i: u8 = 0;
        while i < 24
            invariant
                i <= 24,
                self.dout.script() == s,
                self.dout.pos() == advanced(t0, (k + 1 + i as nat) as nat, s.len()),
                self.dout.written() == old(self).dout.written(),
                self.dout.setup_ok() == old(self).dout.setup_ok(),
                self.pd_sck.script() == old(self).pd_sck.script(),
                self.pd_sck.pos() == old(self).pd_sck.pos(),
                self.pd_sck.setup_ok() == old(self).pd_sck.setup_ok(),
                self.pd_sck.written() == w0 + pulse_train(i as nat),
                self.gain == old(self).gain,
                self.offset_a == old(self).offset_a,
                self.offset_b == old(self).offset_b,
                count as nat == shift_in(s, base, i as nat),
                (count as nat) < exp2(i as nat),
            decreases 24 - i,
        {
            self.pd_sck.write_level(true);
            self.do_sleep();
            let bit = self.dout.read_level();
            self.pd_sck.write_level(false);
            self.do_sleep();
            proof {
                lemma_level_at_advanced(s, t0, (k + 1 + i as nat) as nat);
                lemma_advanced_compose(t0, (k + 1 + i as nat) as nat, 1, s.len());
                lemma_exp2_le(i as nat + 1, 24);
                lemma_exp2_24();
                assert(w0 + pulse_train(i as nat + 1) =~= (w0 + pulse_train(i as nat)).push(
                    true,
                ).push(false));
                assert(shift_in(s, base, i as nat + 1) == 2 * shift_in(s, base, i as nat) + (
                if level_at(s, base + i as nat) {
                    1nat
                } else {
                    0nat
                }));
            }
            count = count * 2 + if bit {
                1
            } else {
                0
            };
            i = i + 1;
        }

        // trailing pulses select gain and channel for the next conversion
        let pulses = self.gain.trailing_pulses();
        let mut p: u8 = 0;
        while p < pulses
            invariant
                p <= pulses,
                pulses as nat == spec_trailing_pulses(old(self).gain),
                self.dout.script() == s,
                self.dout.pos() == advanced(t0, (k + 25) as nat, s.len()),
                self.dout.written() == old(self).dout.written(),
                self.dout.setup_ok() == old(self).dout.setup_ok(),
                self.pd_sck.script() == old(self).pd_sck.script(),
                self.pd_sck.pos() == old(self).pd_sck.pos(),
                self.pd_sck.setup_ok() == old(self).pd_sck.setup_ok(),
                self.pd_sck.written() == w0 + pulse_train(24) + pulse_train(p as nat),
                self.gain == old(self).gain,
                self.offset_a == old(self).offset_a,
                self.offset_b == old(self).offset_b,
            decreases pulses - p,
        {
            self.pd_sck.write_level(true);
            self.do_sleep();
            self.pd_sck.write_level(false);
            self.do_sleep();
            proof {
                assert(w0 + pulse_train(24) + pulse_train(p as nat + 1) =~= (w0 + pulse_train(24)
                    + pulse_train(p as nat)).push(true).push(false));
            }
            p = p + 1;
        }
        proof {
            lemma_pulse_train_concat(24, spec_trailing_pulses(old(self).gain));
            assert(w0 + pulse_train(24 + spec_trailing_pulses(old(self).gain)) =~= w0
                + pulse_train(24) + pulse_train(spec_trailing_pulses(old(self).gain)));
            lemma_shift_in_bound(s, base, 24);
            lemma_exp2_24();
        }

        // flip the sign bit: a fixed offset-by-2^23 transform
        assert(count < 0x1000000);
        let r = count ^ 0x800000;
        proof {
            assert(count < 0x1000000 ==> (count ^ 0x800000) < 0x1000000) by (bit_vector);
            assert((shift_in(s, base, 24) as u32) == count);
        }
        r as i32
    }

    /// One reading: the raw value, or `None` on timeout.
    pub fn get_value(&mut self) -> (r: Option<i32>)
        ensures
            Self::lines_frame(*old(self), *final(self)),
            Self::same_calibration(*old(self), *final(self)),
            r == spec_read_opt(old(self).data().script(), old(self).data().pos() as int),
            final(self).data().pos() == advanced(
                old(self).data().pos(),
                spec_read_used(old(self).data().script(), old(self).data().pos() as int),
                old(self).data().script().len(),
            ),
            final(self).clock().written() == old(self).clock().written() + spec_read_writes(
                old(self).data().script(),
                old(self).data().pos() as int,
                old(self).spec_gain(),
            ),
    {
        let value = self.read_raw_bytes();
        if value == -1 {
            None
        } else {
            Some(value)
        }
    }

    /// Up to `times` readings, keeping only the ones that did not time out,
    /// and their truncating integer mean: `None` exactly when every reading
    /// timed out (or `times` is zero) — the mean is over however many
    /// readings succeeded, not always `times`.
    #[verifier::loop_isolation(false)]
    pub fn get_value_average(&mut self, times: usize) -> (r: Option<i32>)
        ensures
            Self::lines_frame(*old(self), *final(self)),
            Self::same_calibration(*old(self), *final(self)),
            final(self).data().pos() == advanced(
                old(self).data().pos(),
                reads_used(old(self).data().script(), old(self).data().pos() as int, times as nat),
                old(self).data().script().len(),
            ),
            final(self).clock().written() == old(self).clock().written() + reads_writes(
                old(self).data().script(),
                old(self).data().pos() as int,
                times as nat,
                old(self).spec_gain(),
            ),
            ({
                let sv = success_values(
                    old(self).data().script(),
                    old(self).data().pos() as int,
                    times as nat,
                );
                &&& (r is None <==> sv.len() == 0)
                &&& (r matches Some(a) ==> sv.len() > 0 && 0 <= a < 0x1000000 && a as int
                    == seq_sum(sv) / sv.len() as int)
            }),
    {
        let ghost s = self.dout.script();
        let ghost t0 = self.dout.pos();
        let ghost w0 = self.pd_sck.written();
        let ghost g = self.gain;

        let mut values: Vec<i32> = Vec::new();
        let mut n: usize = 0;
        proof {
            assert(values@.map_values(|v: i32| v as int) =~= success_values(s, t0 as int, 0));
        }
        while n < times
            invariant
                n <= times,
                self.dout.script() == s,
                self.dout.pos() == advanced(t0, reads_used(s, t0 as int, n as nat), s.len()),
                self.dout.written() == old(self).dout.written(),
                self.dout.setup_ok() == old(self).dout.setup_ok(),
                self.pd_sck.script() == old(self).pd_sck.script(),
                self.pd_sck.pos() == old(self).pd_sck.pos(),
                self.pd_sck.setup_ok() == old(self).pd_sck.setup_ok(),
                self.pd_sck.written() == w0 + reads_writes(s, t0 as int, n as nat, g),
                self.gain == g,
                self.gain == old(self).gain,
                self.offset_a == old(self).offset_a,
                self.offset_b == old(self).offset_b,
                values@.map_values(|v: i32| v as int) == success_values(s, t0 as int, n as nat),
                forall|m: int| 0 <= m < values@.len() ==> 0 <= #[trigger] values@[m] < 0x1000000,
            decreases times - n,
        {
            let ghost u_n = reads_used(s, t0 as int, n as nat);
            let ghost old_vals = values@;
            let ghost old_writes = self.pd_sck.written();
            let value = self.get_value();
            proof {
                lemma_same_levels_at_advanced(s, t0, u_n);
                lemma_read_specs_agree(
                    s,
                    advanced(t0, u_n, s.len()) as int,
                    t0 as int + u_n,
                    g,
                );
                lemma_read_result_range(s, t0 as int + u_n);
                lemma_advanced_compose(t0, u_n, spec_read_used(s, t0 as int + u_n), s.len());
                lemma_reads_snoc(s, t0 as int, n as nat, g);
                assert(w0 + reads_writes(s, t0 as int, n as nat + 1, g) =~= old_writes
                    + spec_read_writes(s, t0 as int + u_n, g));
            }
            match value {
                Some(x) => {
                    values.push(x);
                    proof {
                        assert(values@.map_values(|v: i32| v as int) =~= old_vals.map_values(
                            |v: i32| v as int,
                        ).push(x as int));
                        assert(values@.map_values(|v: i32| v as int) =~= success_values(
                            s,
                            t0 as int,
                            n as nat + 1,
                        ));
                    }
                },
                None => {
                    proof {
                        assert(values@.map_values(|v: i32| v as int) =~= success_values(
                            s,
                            t0 as int,
                            n as nat + 1,
                        ));
                    }
                },
            }
            n = n + 1;
        }
        average_value(&values)
    }

    /// One averaged reading minus channel A's offset: the raw quantity a
    /// weight is computed from, before division by the reference unit.
    pub fn get_value_net(&mut self, times: usize) -> (r: Option<i64>)
        ensures
            Self::lines_frame(*old(self), *final(self)),
            Self::same_calibration(*old(self), *final(self)),
            final(self).data().pos() == advanced(
                old(self).data().pos(),
                reads_used(old(self).data().script(), old(self).data().pos() as int, times as nat),
                old(self).data().script().len(),
            ),
            final(self).clock().written() == old(self).clock().written() + reads_writes(
                old(self).data().script(),
                old(self).data().pos() as int,
                times as nat,
                old(self).spec_gain(),
            ),
            ({
                let sv = success_values(
                    old(self).data().script(),
                    old(self).data().pos() as int,
                    times as nat,
                );
                &&& (r is None <==> sv.len() == 0)
                &&& (r matches Some(w) ==> sv.len() > 0 && w as int == seq_sum(sv)
                    / sv.len() as int - old(self).spec_offset_a())
            }),
    {
        match self.get_value_average(times) {
            None => None,
            Some(x) => Some(x as i64 - self.offset_a as i64),
        }
    }

    /// Like [`Self::get_value_net`] for channel B: first force the selector
    /// to channel B — which costs one throwaway reading, since a selection
    /// only takes effect one conversion later — then average and subtract
    /// channel B's offset.
    pub fn get_value_net_b(&mut self, times: usize) -> (r: Option<i64>)
        ensures
            Self::lines_frame(*old(self), *final(self)),
            final(self).spec_gain() == Gain::ChBGain32,
            final(self).spec_offset_a() == old(self).spec_offset_a(),
            final(self).spec_offset_b() == old(self).spec_offset_b(),
            ({
                let s = old(self).data().script();
                let t0 = old(self).data().pos() as int;
                let u0 = spec_read_used(s, t0) as int;
                let sv = success_values(s, t0 + u0, times as nat);
                &&& final(self).data().pos() == advanced(
                    old(self).data().pos(),
                    (spec_read_used(s, t0) + reads_used(s, t0 + u0, times as nat)) as nat,
                    s.len(),
                )
                &&& final(self).clock().written() == old(self).clock().written()
                    + spec_read_writes(s, t0, Gain::ChBGain32) + reads_writes(
                    s,
                    t0 + u0,
                    times as nat,
                    Gain::ChBGain32,
                )
                &&& (r is None <==> sv.len() == 0)
                &&& (r matches Some(w) ==> sv.len() > 0 && w as int == seq_sum(sv)
                    / sv.len() as int - old(self).spec_offset_b())
            }),
    {
        let ghost s = self.dout.script();
        let ghost t0 = self.dout.pos();
        let ghost u0 = spec_read_used(s, t0 as int);
        self.set_gain(Gain::ChBGain32);
        proof {
            lemma_same_levels_at_advanced(s, t0, u0);
            lemma_multi_read_agree(
                s,
                advanced(t0, u0, s.len()) as int,
                t0 as int + u0,
                times as nat,
                Gain::ChBGain32,
            );
            lemma_advanced_compose(t0, u0, reads_used(s, t0 as int + u0, times as nat), s.len());
        }
        match self.get_value_average(times) {
            None => None,
            Some(x) => Some(x as i64 - self.offset_b as i64),
        }
    }

    /// Set channel A's offset to the current average raw value, making the
    /// present load the new zero point.  Leaves the offset unchanged when
    /// every reading timed out.
    pub fn tare(&mut self, times: usize)
        ensures
            Self::lines_frame(*old(self), *final(self)),
            final(self).spec_gain() == old(self).spec_gain(),
            final(self).spec_offset_b() == old(self).spec_offset_b(),
            final(self).data().pos() == advanced(
                old(self).data().pos(),
                reads_used(old(self).data().script(), old(self).data().pos() as int, times as nat),
                old(self).data().script().len(),
            ),
            final(self).clock().written() == old(self).clock().written() + reads_writes(
                old(self).data().script(),
                old(self).data().pos() as int,
                times as nat,
                old(self).spec_gain(),
            ),
            ({
                let sv = success_values(
                    old(self).data().script(),
                    old(self).data().pos() as int,
                    times as nat,
                );
                if sv.len() == 0 {
                    final(self).spec_offset_a() == old(self).spec_offset_a()
                } else {
                    final(self).spec_offset_a() == seq_sum(sv) / sv.len() as int
                }
            }),
    {
        if let Some(value) = self.get_value_average(times) {
            self.set_offset_a(value);
        }
    }

    /// Like [`Self::tare`] for channel B: force the selector to channel B
    /// (one throwaway reading), then set channel B's offset to the average.
    pub fn tare_b(&mut self, times: usize)
        ensures
            Self::lines_frame(*old(self), *final(self)),
            final(self).spec_gain() == Gain::ChBGain32,
            final(self).spec_offset_a() == old(self).spec_offset_a(),
            ({
                let s = old(self).data().script();
                let t0 = old(self).data().pos() as int;
                let u0 = spec_read_used(s, t0) as int;
                let sv = success_values(s, t0 + u0, times as nat);
                &&& final(self).data().pos() == advanced(
                    old(self).data().pos(),
                    (spec_read_used(s, t0) + reads_used(s, t0 + u0, times as nat)) as nat,
                    s.len(),
                )
                &&& final(self).clock().written() == old(self).clock().written()
                    + spec_read_writes(s, t0, Gain::ChBGain32) + reads_writes(
                    s,
                    t0 + u0,
                    times as nat,
                    Gain::ChBGain32,
                )
                &&& (if sv.len() == 0 {
                    final(self).spec_offset_b() == old(self).spec_offset_b()
                } else {
                    final(self).spec_offset_b() == seq_sum(sv) / sv.len() as int
                })
            }),
    {
        let ghost s = self.dout.script();
        let ghost t0 = self.dout.pos();
        let ghost u0 = spec_read_used(s, t0 as int);
        self.set_gain(Gain::ChBGain32);
        proof {
            lemma_same_levels_at_advanced(s, t0, u0);
            lemma_multi_read_agree(
                s,
                advanced(t0, u0, s.len()) as int,
                t0 as int + u0,
                times as nat,
                Gain::ChBGain32,
            );
            lemma_advanced_compose(t0, u0, reads_used(s, t0 as int + u0, times as nat), s.len());
        }
        if let Some(value) = self.get_value_average(times) {
            self.set_offset_b(value);
        }
    }

    /// Set channel A's zero-point offset, in raw units.
    pub fn set_offset_a(&mut self, offset: i32)
        ensures
            Self::lines_frame(*old(self), *final(self)),
            final(self).data().pos() == old(self).data().pos(),
            final(self).clock().written() == old(self).clock().written(),
            final(self).spec_gain() == old(self).spec_gain(),
            final(self).spec_offset_a() == offset as int,
            final(self).spec_offset_b() == old(self).spec_offset_b(),
    {
        self.offset_a = offset;
    }

    /// Set channel B's zero-point offset, in raw units.
    pub fn set_offset_b(&mut self, offset: i32)
        ensures
            Self::lines_frame(*old(self), *final(self)),
            final(self).data().pos() == old(self).data().pos(),
            final(self).clock().written() == old(self).clock().written(),
            final(self).spec_gain() == old(self).spec_gain(),
            final(self).spec_offset_a() == old(self).spec_offset_a(),
            final(self).spec_offset_b() == offset as int,
    {
        self.offset_b = offset;
    }

    /// Channel A's zero-point offset.
    pub fn get_offset_a(&self) -> (offset: i32)
        ensures
            offset as int == self.spec_offset_a(),
    {
        self.offset_a
    }

    /// Channel B's zero-point offset.
    pub fn get_offset_b(&self) -> (offset: i32)
        ensures
            offset as int == self.spec_offset_b(),
    {
        self.offset_b
    }

    /// Store a new gain/channel selection and immediately perform one
    /// blocking read, whose trailing pulses push the selection into the
    /// chip — the selection takes effect only with the conversion after the
    /// one in which the pulses are sent.
    pub fn set_gain(&mut self, gain: Gain)
        ensures
            Self::lines_frame(*old(self), *final(self)),
            final(self).spec_gain() == gain,
            final(self).spec_offset_a() == old(self).spec_offset_a(),
            final(self).spec_offset_b() == old(self).spec_offset_b(),
            final(self).data().pos() == advanced(
                old(self).data().pos(),
                spec_read_used(old(self).data().script(), old(self).data().pos() as int),
                old(self).data().script().len(),
            ),
            final(self).clock().written() == old(self).clock().written() + spec_read_writes(
                old(self).data().script(),
                old(self).data().pos() as int,
                gain,
            ),
    {
        self.gain = gain;
        let _ = self.read_raw_bytes();
    }

    /// The current gain/channel selection.
    pub fn get_gain(&self) -> (gain: Gain)
        ensures
            gain == self.spec_gain(),
    {
        self.gain
    }

    /// The data line, for inspection.
    pub fn data_line(&self) -> (line: &D)
        ensures
            *line == self.data(),
    {
        &self.dout
    }

    /// The clock line, for inspection.
    pub fn clock_line(&self) -> (line: &C)
        ensures
            *line == self.clock(),
    {
        &self.pd_sck
    }
}


} // verus!
