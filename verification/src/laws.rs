//! The guarantees the timer subsystem gives across whole runs of interrupt
//! invocations, proved over the model in [`crate::timers`]: strict
//! one-tick-late firing, exactly-once delivery, joint firing of equal
//! deadlines, overflow accounting in the microsecond clock, and silent
//! counter wraparound.

use vstd::prelude::*;
use crate::queue::at_or_above;
use crate::queue::below;
use crate::queue::lemma_no_entry_due;
use crate::queue::WakeHandle;
use crate::timers::compa_fired;
use crate::timers::compa_next;
use crate::timers::init_model;
use crate::timers::micros_spec;
use crate::timers::ovf_step;
use crate::timers::TimerModel;
use crate::timers::TIMER0_OVF_US;
use crate::timers::TIMER0_TICK_US;

verus! {

broadcast use vstd::seq_lib::group_filter_ensures, Seq::lemma_filter_push;

/// Holds of an entry equal to `e`.
pub open spec fn eq_entry(e: (u32, WakeHandle)) -> spec_fn((u32, WakeHandle)) -> bool {
    |x: (u32, WakeHandle)| x == e
}

/// How many times the pair `e` occurs among the entries of `s`.
pub open spec fn entry_count(s: Seq<(u32, WakeHandle)>, e: (u32, WakeHandle)) -> nat {
    s.filter(eq_entry(e)).len()
}

/// The state after `n` overflow interrupts from `m`, no compare-match
/// interrupt among them.
pub open spec fn run_ovf(m: TimerModel, n: nat) -> TimerModel
    decreases n,
{
    if n == 0 {
        m
    } else {
        ovf_step(run_ovf(m, (n - 1) as nat))
    }
}

/// The state after `n` compare-match interrupts from `m`, no overflow
/// interrupt among them.
pub open spec fn run_compa(m: TimerModel, n: nat) -> TimerModel
    decreases n,
{
    if n == 0 {
        m
    } else {
        compa_next(run_compa(m, (n - 1) as nat))
    }
}

/// What the compare-match interrupt numbered `k` (counting from zero) after
/// state `m` fires.
pub open spec fn fired_at(m: TimerModel, k: nat) -> Seq<(u32, WakeHandle)> {
    compa_fired(run_compa(m, k))
}

/// Appending an entry raises its own count by one and no other.
proof fn lemma_entry_count_push(s: Seq<(u32, WakeHandle)>, a: (u32, WakeHandle), e: (u32, WakeHandle))
    ensures
        entry_count(s.push(a), e) == entry_count(s, e) + (if a == e {
            1nat
        } else {
            0nat
        }),
{
    assert(s.push(a).filter(eq_entry(e)) == (if eq_entry(e)(a) {
        s.filter(eq_entry(e)).push(a)
    } else {
        s.filter(eq_entry(e))
    }));
}

/// Filtering keeps the count of an entry the predicate accepts and zeroes
/// the count of one it rejects.
proof fn lemma_entry_count_filter(
    s: Seq<(u32, WakeHandle)>,
    pred: spec_fn((u32, WakeHandle)) -> bool,
    e: (u32, WakeHandle),
)
    ensures
        entry_count(s.filter(pred), e) == (if pred(e) {
            entry_count(s, e)
        } else {
            0nat
        }),
    decreases s.len(),
{
    reveal(Seq::filter);
    if s.len() > 0 {
        let rest = s.drop_last();
        let a = s.last();
        lemma_entry_count_filter(rest, pred, e);
        lemma_entry_count_push(rest, a, e);
        assert(rest.push(a) =~= s);
        if pred(a) {
            assert(s.filter(pred) == rest.filter(pred).push(a));
            lemma_entry_count_push(rest.filter(pred), a, e);
        } else {
            assert(s.filter(pred) == rest.filter(pred));
        }
    }
}

/// Running compare-match interrupts in two legs is running them in one.
proof fn lemma_run_compa_add(m: TimerModel, a: nat, b: nat)
    ensures
        run_compa(m, a + b) == run_compa(run_compa(m, a), b),
    decreases b,
{
    if b > 0 {
        lemma_run_compa_add(m, a, (b - 1) as nat);
    }
}

/// While the millisecond tally stays at or below a queued deadline, no
/// compare-match invocation fires that deadline's entries, and they stay
/// queued: after `k` invocations that leave the tally at or below `d`, the
/// count of `(d, h)` is untouched and none of those invocations fired it.
pub proof fn deadline_not_fired_early(m: TimerModel, d: u32, h: WakeHandle, k: nat)
    requires
        m.elapsed_ms + k <= d,
    ensures
        run_compa(m, k).elapsed_ms == m.elapsed_ms + k,
        run_compa(m, k).ovf_count == m.ovf_count,
        entry_count(run_compa(m, k).waiters, (d, h)) == entry_count(m.waiters, (d, h)),
        forall|j: nat| j < k ==> entry_count(#[trigger] fired_at(m, j), (d, h)) == 0,
    decreases k,
{
    if k > 0 {
        let prev = run_compa(m, (k - 1) as nat);
        deadline_not_fired_early(m, d, h, (k - 1) as nat);
        let threshold = prev.elapsed_ms.wrapping_add(1);
        assert(threshold == m.elapsed_ms + k);
        lemma_entry_count_filter(prev.waiters, at_or_above(threshold), (d, h));
        lemma_entry_count_filter(prev.waiters, below(threshold), (d, h));
        assert(entry_count(fired_at(m, (k - 1) as nat), (d, h)) == 0);
    }
}

/// The compare-match invocation that takes the millisecond tally from `d`
/// to `d + 1` fires every queued entry with deadline `d` — each exactly as
/// often as it was queued — and leaves none of them queued.
pub proof fn deadline_fires_when_exceeded(m: TimerModel, d: u32, h: WakeHandle)
    requires
        m.elapsed_ms == d,
        d < u32::MAX,
    ensures
        entry_count(compa_fired(m), (d, h)) == entry_count(m.waiters, (d, h)),
        entry_count(compa_next(m).waiters, (d, h)) == 0,
{
    let threshold = m.elapsed_ms.wrapping_add(1);
    lemma_entry_count_filter(m.waiters, below(threshold), (d, h));
    lemma_entry_count_filter(m.waiters, at_or_above(threshold), (d, h));
}

/// An entry that is not queued can never fire: however many compare-match
/// invocations follow, its count stays zero in the queue and in everything
/// fired.
pub proof fn absent_entry_never_fires(m: TimerModel, d: u32, h: WakeHandle, k: nat)
    requires
        entry_count(m.waiters, (d, h)) == 0,
    ensures
        entry_count(run_compa(m, k).waiters, (d, h)) == 0,
        forall|j: nat| j < k ==> entry_count(#[trigger] fired_at(m, j), (d, h)) == 0,
    decreases k,
{
    if k > 0 {
        let prev = run_compa(m, (k - 1) as nat);
        absent_entry_never_fires(m, d, h, (k - 1) as nat);
        let threshold = prev.elapsed_ms.wrapping_add(1);
        lemma_entry_count_filter(prev.waiters, at_or_above(threshold), (d, h));
        lemma_entry_count_filter(prev.waiters, below(threshold), (d, h));
        assert(entry_count(fired_at(m, (k - 1) as nat), (d, h)) == 0);
    }
}

/// A compare-match invocation destroys and duplicates nothing: for any
/// (deadline, handle) pair, its count in what fired and its count in what
/// remains queued sum to its count before the invocation. An entry thus
/// leaves the queue exactly once, by firing.
pub proof fn compa_conserves_entries(m: TimerModel, e: (u32, WakeHandle))
    ensures
        entry_count(compa_fired(m), e) + entry_count(compa_next(m).waiters, e) == entry_count(
            m.waiters,
            e,
        ),
{
    let threshold = m.elapsed_ms.wrapping_add(1);
    lemma_entry_count_filter(m.waiters, below(threshold), e);
    lemma_entry_count_filter(m.waiters, at_or_above(threshold), e);
}

/// Strict, exactly-once firing. With the tally at `m.elapsed_ms` and a wake
/// queued for deadline `d`, invocation number `j` of the compare-match
/// handler fires it — as often as it was queued, so exactly once for a
/// single registration — precisely when `j` is the invocation that advances
/// the tally from `d` to `d + 1`; every invocation before leaves it queued
/// and untouched, and every invocation after cannot see it again. A
/// deadline already in the past when the tally first exceeds it fires at
/// that same first opportunity.
pub proof fn deadline_fires_exactly_once(m: TimerModel, d: u32, h: WakeHandle, j: nat)
    requires
        m.elapsed_ms <= d,
        d < u32::MAX,
    ensures
        j == d - m.elapsed_ms ==> entry_count(fired_at(m, j), (d, h)) == entry_count(
            m.waiters,
            (d, h),
        ),
        j != d - m.elapsed_ms ==> entry_count(fired_at(m, j), (d, h)) == 0,
{
    let reach = (d - m.elapsed_ms) as nat;
    if j < reach {
        deadline_not_fired_early(m, d, h, j + 1);
    } else {
        deadline_not_fired_early(m, d, h, reach);
        let at_d = run_compa(m, reach);
        deadline_fires_when_exceeded(at_d, d, h);
        if j > reach {
            assert(run_compa(m, reach + 1) == compa_next(at_d));
            lemma_run_compa_add(m, reach + 1, (j - reach - 1) as nat);
            absent_entry_never_fires(run_compa(m, reach + 1), d, h, (j - reach) as nat);
            assert(fired_at(m, j) == fired_at(run_compa(m, reach + 1), (j - reach - 1) as nat));
        }
    }
}

/// Two wake requests sharing one deadline both fire during the same
/// compare-match invocation: the one that first takes the tally past their
/// common deadline.
pub proof fn equal_deadlines_fire_together(m: TimerModel, d: u32, h1: WakeHandle, h2: WakeHandle)
    requires
        m.elapsed_ms <= d,
        d < u32::MAX,
        entry_count(m.waiters, (d, h1)) > 0,
        entry_count(m.waiters, (d, h2)) > 0,
    ensures
        entry_count(fired_at(m, (d - m.elapsed_ms) as nat), (d, h1)) == entry_count(
            m.waiters,
            (d, h1),
        ),
        entry_count(fired_at(m, (d - m.elapsed_ms) as nat), (d, h2)) == entry_count(
            m.waiters,
            (d, h2),
        ),
{
    deadline_fires_exactly_once(m, d, h1, (d - m.elapsed_ms) as nat);
    deadline_fires_exactly_once(m, d, h2, (d - m.elapsed_ms) as nat);
}

/// Overflow interrupts advance the wrap count one by one and touch nothing
/// else: after `n` of them from a fresh context the wrap count is `n`, and
/// the millisecond tally is still zero.
proof fn lemma_run_ovf_counts(n: nat)
    requires
        n <= u32::MAX,
    ensures
        run_ovf(init_model(), n).ovf_count == n,
        run_ovf(init_model(), n).elapsed_ms == 0,
        run_ovf(init_model(), n).waiters == init_model().waiters,
    decreases n,
{
    if n > 0 {
        lemma_run_ovf_counts((n - 1) as nat);
    }
}

/// What the microsecond clock reads after `n` overflow interrupts and no
/// compare-match interrupt from a fresh context: exactly `tcnt0` counter
/// ticks plus `n` wrap periods (modulo 32 bits) — or one wrap period more
/// when the flag register shows a pending, not yet counted, wrap from the
/// racy read window. The millisecond tally is still zero.
pub proof fn micros_counts_overflows(n: nat, tcnt0: u8, tifr0: u8)
    requires
        n <= u32::MAX,
    ensures
        run_ovf(init_model(), n).elapsed_ms == 0,
        micros_spec(tcnt0, tifr0, run_ovf(init_model(), n).ovf_count) == ((tcnt0 * TIMER0_TICK_US
            + n * TIMER0_OVF_US) % 0x1_0000_0000) || micros_spec(
            tcnt0,
            tifr0,
            run_ovf(init_model(), n).ovf_count,
        ) == ((tcnt0 * TIMER0_TICK_US + (n + 1) * TIMER0_OVF_US) % 0x1_0000_0000),
{
    lemma_run_ovf_counts(n);
    assert(tifr0 & 1 == 0 || tifr0 & 1 == 1) by (bit_vector);
}

/// Each compare-match invocation advances the millisecond tally by exactly
/// one, wrapping silently at 32 bits; overflow interrupts and (immutable)
/// microsecond or millisecond reads do not move it.
pub proof fn millis_advances_by_one(m: TimerModel)
    ensures
        m.elapsed_ms < u32::MAX ==> compa_next(m).elapsed_ms == m.elapsed_ms + 1,
        m.elapsed_ms == u32::MAX ==> compa_next(m).elapsed_ms == 0,
        ovf_step(m).elapsed_ms == m.elapsed_ms,
{
}

/// Millisecond wraparound: from the maximum representable tally, one more
/// compare-match invocation yields a tally of zero, fires nothing (no
/// deadline lies below zero), and leaves the queue as it was.
pub proof fn elapsed_ms_wraps_to_zero(m: TimerModel)
    requires
        m.elapsed_ms == u32::MAX,
    ensures
        compa_next(m).elapsed_ms == 0,
        compa_fired(m) == Seq::<(u32, WakeHandle)>::empty(),
        compa_next(m).waiters == m.waiters,
{
    lemma_no_entry_due(m.waiters, 0);
}

} // verus!
