use tickclock::queue::WakeHandle;
use tickclock::timers::init_timers;
use tickclock::timers::TimerContext;

fn handle(id: u64) -> WakeHandle {
    WakeHandle { id }
}

fn drive_compa(t: &mut TimerContext, n: usize) -> Vec<WakeHandle> {
    let mut all = Vec::new();
    for _ in 0..n {
        all.extend(t.timer0_compa());
    }
    all
}

#[test]
fn micros_reads_counter_ticks() {
    let t = init_timers(8);
    assert_eq!(t.micros(100, 0), 400);
    assert_eq!(t.micros_no_interrupt(100, 0), 400);
    assert_eq!(t.micros(0, 0), 0);
    assert_eq!(t.micros(255, 0), 1020);
}

#[test]
fn micros_counts_overflow_wraps() {
    let mut t = init_timers(8);
    t.timer0_ovf();
    t.timer0_ovf();
    t.timer0_ovf();
    assert_eq!(t.micros(10, 0), 10 * 4 + 3 * 1024);
    // A set pending-overflow flag adds exactly one not-yet-counted wrap.
    assert_eq!(t.micros(10, 0x01), 10 * 4 + 4 * 1024);
    // Only bit 0 of the flag register is the pending-overflow flag.
    assert_eq!(t.micros(10, 0xfe), 10 * 4 + 3 * 1024);
    assert_eq!(t.micros(10, 0xff), 10 * 4 + 4 * 1024);
}

#[test]
fn millis_advances_once_per_compare_match() {
    let mut t = init_timers(8);
    assert_eq!(t.millis(), 0);
    for expected in 1..=5u32 {
        // However many microsecond reads happen in between, they do not
        // move the millisecond tally.
        let _ = t.micros(17, 0);
        let _ = t.micros_no_interrupt(99, 1);
        let _ = t.timer0_compa();
        let _ = t.micros(3, 0);
        assert_eq!(t.millis(), expected);
    }
}

#[test]
fn deadline_fires_strictly_after_and_only_once() {
    let mut t = init_timers(8);
    t.register_timed_waker(5, handle(42));
    // Five invocations bring the tally to 5 == deadline: nothing fires.
    let early = drive_compa(&mut t, 5);
    assert_eq!(early, vec![]);
    assert_eq!(t.millis(), 5);
    // The invocation that takes the tally to 6 > 5 fires it, exactly once.
    let now = t.timer0_compa();
    assert_eq!(now, vec![handle(42)]);
    assert_eq!(t.millis(), 6);
    // Ten more invocations never fire it again.
    let later = drive_compa(&mut t, 10);
    assert_eq!(later, vec![]);
    assert_eq!(t.millis(), 16);
}

#[test]
fn equal_deadlines_fire_in_same_invocation() {
    let mut t = init_timers(8);
    t.register_timed_waker(3, handle(1));
    t.register_timed_waker(3, handle(2));
    assert_eq!(drive_compa(&mut t, 3), vec![]);
    let fired = t.timer0_compa();
    assert_eq!(fired, vec![handle(1), handle(2)]);
    assert_eq!(drive_compa(&mut t, 5), vec![]);
}

#[test]
fn distinct_deadlines_fire_in_their_own_invocations() {
    let mut t = init_timers(8);
    t.register_timed_waker(1, handle(10));
    t.register_timed_waker(2, handle(20));
    t.register_timed_waker(1, handle(11));
    // Tally 1 does not exceed deadline 1 yet.
    assert_eq!(t.timer0_compa(), vec![]);
    // Tally 2 exceeds deadline 1: both deadline-1 handles, in queue order.
    assert_eq!(t.timer0_compa(), vec![handle(10), handle(11)]);
    // Tally 3 exceeds deadline 2.
    assert_eq!(t.timer0_compa(), vec![handle(20)]);
}

#[test]
fn past_deadline_fires_at_first_opportunity() {
    let mut t = init_timers(8);
    t.register_timed_waker(0, handle(7));
    let fired = t.timer0_compa();
    assert_eq!(fired, vec![handle(7)]);
}

#[test]
fn full_queue_drops_registration_silently() {
    let mut t = init_timers(1);
    t.register_timed_waker(2, handle(1));
    t.register_timed_waker(2, handle(2)); // dropped: queue is at capacity
    assert_eq!(drive_compa(&mut t, 2), vec![]);
    assert_eq!(t.timer0_compa(), vec![handle(1)]);
    assert_eq!(drive_compa(&mut t, 5), vec![]);
}

#[test]
fn compare_target_advances_one_millisecond_modulo_256() {
    let mut t = init_timers(8);
    assert_eq!(t.compare_target(), 250);
    let _ = t.timer0_compa();
    assert_eq!(t.compare_target(), 244); // (250 + 250) mod 256
    let _ = t.timer0_compa();
    assert_eq!(t.compare_target(), 238);
}
