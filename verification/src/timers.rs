//! The timer context: software counters advanced by the two interrupt entry
//! points, the microsecond and millisecond query functions, and deferred-wake
//! registration.
//!
//! The hardware side — programming the prescaler, reading the live counter
//! and flag registers, writing the compare register, and masking interrupts
//! for a critical section — belongs to the platform layer. It hands register
//! values in and carries register values and wake handles out; everything the
//! handlers and queries decide is computed here.

use vstd::prelude::*;
use crate::queue::due_entries;
use crate::queue::kept_entries;
use crate::queue::lemma_no_entry_due;
use crate::queue::WaiterQueue;
use crate::queue::WakeHandle;

verus! {

/// Microseconds per prescaled counter tick (prescaler 64 on a 16 MHz clock:
/// 64 / 16 MHz = 4 us).
pub const TIMER0_TICK_US: u32 = 4;

/// Microseconds per full wrap of the 8-bit counter: 4 us * 256 ticks.
pub const TIMER0_OVF_US: u32 = 1024;

/// Prescaled ticks in one millisecond: 1000 us / 4 us. The compare target
/// advances by this amount on each compare-match interrupt; the 8-bit
/// register wraps naturally.
pub const TIMER0_TICKS_PER_MS: u8 = 250;

/// The mathematical state of the timer subsystem: the two software counters,
/// the mirrored compare target, and the queued (deadline, wake handle) pairs
/// in queue order.
#[verifier::ext_equal]
pub ghost struct TimerModel {
    pub elapsed_ms: u32,
    pub ovf_count: u32,
    pub compare_target: u8,
    pub waiters: Seq<(u32, WakeHandle)>,
}

/// The state right after hardware initialization: both counters at zero, no
/// wake request queued, and the compare target one millisecond ahead of the
/// zeroed counter.
pub open spec fn init_model() -> TimerModel {
    TimerModel {
        elapsed_ms: 0,
        ovf_count: 0,
        compare_target: TIMER0_TICKS_PER_MS,
        waiters: Seq::<(u32, WakeHandle)>::empty(),
    }
}

/// One overflow interrupt: the wrap count advances by one and wraps silently
/// at its full range; nothing else moves.
pub open spec fn ovf_step(m: TimerModel) -> TimerModel {
    TimerModel {
        elapsed_ms: m.elapsed_ms,
        ovf_count: m.ovf_count.wrapping_add(1),
        compare_target: m.compare_target,
        waiters: m.waiters,
    }
}

/// The entries a compare-match interrupt fires from state `m`: exactly those
/// whose deadline lies strictly below the new millisecond tally. A deadline
/// `d` therefore fires only once the tally exceeds `d`, never when it merely
/// reaches it.
pub open spec fn compa_fired(m: TimerModel) -> Seq<(u32, WakeHandle)> {
    due_entries(m.waiters, m.elapsed_ms.wrapping_add(1))
}

/// The state after a compare-match interrupt from state `m`: the millisecond
/// tally advances by one (wrapping silently), the fired entries leave the
/// queue, and the compare target moves one millisecond ahead; the wrap count
/// is untouched.
pub open spec fn compa_next(m: TimerModel) -> TimerModel {
    TimerModel {
        elapsed_ms: m.elapsed_ms.wrapping_add(1),
        ovf_count: m.ovf_count,
        compare_target: m.compare_target.wrapping_add(TIMER0_TICKS_PER_MS),
        waiters: kept_entries(m.waiters, m.elapsed_ms.wrapping_add(1)),
    }
}

/// The wake handles of the entries of `s`, in order.
pub open spec fn handles_of(s: Seq<(u32, WakeHandle)>) -> Seq<WakeHandle> {
    s.map_values(|e: (u32, WakeHandle)| e.1)
}

/// The microsecond timestamp reconstructed from a live counter reading
/// `tcnt0`, a flag-register reading `tifr0` (bit 0 is the pending-overflow
/// flag), and the wrap count: counter ticks so far, plus one full wrap per
/// counted wrap, plus one more when a wrap is pending but not yet counted.
/// The 32-bit result wraps silently.
pub open spec fn micros_spec(tcnt0: u8, tifr0: u8, ovf_count: u32) -> u32 {
    (((tcnt0 * TIMER0_TICK_US) + (ovf_count + (tifr0 & 1)) * TIMER0_OVF_US)
        % 0x1_0000_0000) as u32
}

/// The timer subsystem's state, explicitly owned: the platform layer holds
/// one value of this type, hands it to the interrupt entry points when the
/// corresponding vectors fire, and to the query and registration functions
/// from foreground code (inside a critical section wherever one is required).
pub struct TimerContext {
    elapsed_ms: u32,
    ovf_count: u32,
    compare_target: u8,
    waiters: WaiterQueue,
}

impl View for TimerContext {
    type V = TimerModel;

    closed spec fn view(&self) -> TimerModel {
        TimerModel {
            elapsed_ms: self.elapsed_ms,
            ovf_count: self.ovf_count,
            compare_target: self.compare_target,
            waiters: self.waiters@,
        }
    }
}

impl TimerContext {
    /// Well-formedness: the queue's cached minimum agrees with its contents.
    /// Established by `init_timers` and preserved by every operation.
    pub closed spec fn wf(&self) -> bool {
        self.waiters.wf()
    }

    /// The wake queue's fixed capacity.
    pub closed spec fn waiter_capacity(&self) -> usize {
        self.waiters.spec_capacity()
    }

    /// The current compare target, for the platform layer to write back to
    /// the hardware compare register after each compare-match interrupt.
    pub fn compare_target(&self) -> (target: u8)
        ensures
            target == self@.compare_target,
    {
        self.compare_target
    }

    /// Protected microsecond timestamp, for foreground callers. The platform
    /// layer must read the counter and flag registers inside a critical
    /// section and pass the readings in. Wraps at 32 bits.
    pub fn micros(&self, tcnt0: u8, tifr0: u8) -> (us: u32)
        ensures
            us == micros_spec(tcnt0, tifr0, self@.ovf_count),
    {
        self.micros_no_interrupt(tcnt0, tifr0)
    }

    /// Unprotected microsecond timestamp, for callers already inside a
    /// critical section. If the register readings were taken with interrupts
    /// enabled, or a wrap slips between the two reads, the result can
    /// overshoot by one wrap period; it self-corrects on the next call once
    /// the pending wrap is counted.
    pub fn micros_no_interrupt(&self, tcnt0: u8, tifr0: u8) -> (us: u32)
        ensures
            us == micros_spec(tcnt0, tifr0, self@.ovf_count),
    {
        proof {
            assert(tifr0 & 1 <= 1) by (bit_vector);
        }
        let count_us: u64 = (tcnt0 as u64) * (TIMER0_TICK_US as u64);
        let extra_ovf: u64 = (tifr0 & 1) as u64;
        let wraps: u64 = (self.ovf_count as u64) + extra_ovf;
        proof {
            assert(TIMER0_TICK_US == 4 && TIMER0_OVF_US == 1024);
            vstd::arithmetic::mul::lemma_mul_inequality(tcnt0 as int, 255, 4);
            assert(count_us <= 1020);
            vstd::arithmetic::mul::lemma_mul_inequality(wraps as int, 0x1_0000_0000, 1024);
            assert(wraps * (TIMER0_OVF_US as u64) <= 0x400_0000_0000);
        }
        let wide: u64 = count_us + wraps * (TIMER0_OVF_US as u64);
        (wide % 0x1_0000_0000) as u32
    }

    /// Millisecond tally, for foreground callers inside a critical section
    /// (a 32-bit read is not one bus transaction on an 8-bit machine). Wraps
    /// at 32 bits, silently, after about 49.7 days.
    pub fn millis(&self) -> (ms: u32)
        ensures
            ms == self@.elapsed_ms,
    {
        self.elapsed_ms
    }

    /// Enqueues a wake request for the millisecond deadline
    /// `trigger_time_ms`, to be called from foreground code inside a
    /// critical section. When the queue is already at capacity the request
    /// is silently dropped and the handle will never fire — a deliberate,
    /// known-risky policy that keeps this path free of error propagation.
    pub fn register_timed_waker(&mut self, trigger_time_ms: u32, waker: WakeHandle)
        requires
            old(self).wf(),
        ensures
            final(self).wf(),
            final(self).waiter_capacity() == old(self).waiter_capacity(),
            final(self)@.elapsed_ms == old(self)@.elapsed_ms,
            final(self)@.ovf_count == old(self)@.ovf_count,
            final(self)@.compare_target == old(self)@.compare_target,
            old(self)@.waiters.len() < old(self).waiter_capacity() ==> final(self)@.waiters
                == old(self)@.waiters.push((trigger_time_ms, waker)),
            old(self)@.waiters.len() >= old(self).waiter_capacity() ==> final(self)@.waiters
                == old(self)@.waiters,
    {
        let _inserted = self.waiters.push(trigger_time_ms, waker);
    }

    /// Overflow interrupt entry point, to be called once per hardware
    /// counter wrap: counts the wrap and does nothing else.
    pub fn timer0_ovf(&mut self)
        requires
            old(self).wf(),
        ensures
            final(self).wf(),
            final(self).waiter_capacity() == old(self).waiter_capacity(),
            final(self)@ == ovf_step(old(self)@),
    {
        self.ovf_count = self.ovf_count.wrapping_add(1);
    }

    /// Compare-match interrupt entry point, to be called once per configured
    /// interval (about one millisecond): advances the millisecond tally,
    /// removes every queued entry whose deadline the new tally strictly
    /// exceeds, and moves the compare target one millisecond ahead. Returns
    /// the handles of the removed entries, in queue order, for the platform
    /// layer to wake.
    pub fn timer0_compa(&mut self) -> (fired: Vec<WakeHandle>)
        requires
            old(self).wf(),
        ensures
            final(self).wf(),
            final(self).waiter_capacity() == old(self).waiter_capacity(),
            final(self)@ == compa_next(old(self)@),
            fired@ == handles_of(compa_fired(old(self)@)),
    {
        self.elapsed_ms = self.elapsed_ms.wrapping_add(1);

        let mut fired: Vec<WakeHandle> = Vec::new();
        if self.elapsed_ms > self.waiters.min_key() {
            let drained = self.waiters.take_less_than(self.elapsed_ms);
            let ghost d = drained@;
            let n = drained.len();
            let mut i: usize = 0;
            while i < n
                invariant
                    i <= n,
                    n == d.len(),
                    drained@ == d,
                    fired@ == handles_of(d.subrange(0, i as int)),
                decreases n - i,
            {
                fired.push(drained[i].1);
                proof {
                    assert(d.subrange(0, i + 1 as int)
                        =~= d.subrange(0, i as int).push(d[i as int]));
                    assert(handles_of(d.subrange(0, i + 1 as int))
                        =~= handles_of(d.subrange(0, i as int)).push(d[i as int].1));
                }
                i = i + 1;
            }
            proof {
                assert(d.subrange(0, n as int) =~= d);
            }
        } else {
            proof {
                lemma_no_entry_due(old(self)@.waiters, self.elapsed_ms);
                assert(fired@ =~= handles_of(compa_fired(old(self)@)));
            }
        }

        self.compare_target = self.compare_target.wrapping_add(TIMER0_TICKS_PER_MS);
        proof {
            assert(self@ =~= compa_next(old(self)@));
        }
        fired
    }
}

/// One-time hardware-epoch setup: yields the context the rest of the API
/// works on, with both counters at zero, an empty wake queue of the given
/// fixed capacity, and the compare target one millisecond ahead. The
/// platform layer must at the same time program the prescaler, zero the
/// hardware counter, write `TIMER0_TICKS_PER_MS` to the compare register,
/// and enable the overflow and compare-match interrupts — and must do all of
/// this before any other call.
pub fn init_timers(waiter_capacity: usize) -> (t: TimerContext)
    ensures
        t.wf(),
        t@ == init_model(),
        t.waiter_capacity() == waiter_capacity,
{
    let t = TimerContext {
        elapsed_ms: 0,
        ovf_count: 0,
        compare_target: TIMER0_TICKS_PER_MS,
        waiters: WaiterQueue::new(waiter_capacity),
    };
    proof {
        assert(t@ =~= init_model());
    }
    t
}

} // verus!
