//! The deferred-wake queue: a bounded collection of (deadline, wake handle)
//! pairs that keeps the minimum deadline available for cheap threshold
//! checks and can drain every entry whose deadline lies below a threshold.

use vstd::prelude::*;

verus! {

broadcast use vstd::seq_lib::group_filter_ensures, Seq::lemma_filter_push;

/// An opaque token standing for a suspended task to be resumed once its
/// deadline has passed. The scheduler never looks inside it; the platform
/// layer maps it back to whatever the task system uses to resume work.
#[derive(Clone, Copy, PartialEq, Eq, Structural, Debug)]
pub struct WakeHandle {
    pub id: u64,
}

/// Holds of an entry whose deadline lies strictly below `threshold`.
pub open spec fn below(threshold: u32) -> spec_fn((u32, WakeHandle)) -> bool {
    |e: (u32, WakeHandle)| e.0 < threshold
}

/// Holds of an entry whose deadline is at or above `threshold`.
pub open spec fn at_or_above(threshold: u32) -> spec_fn((u32, WakeHandle)) -> bool {
    |e: (u32, WakeHandle)| e.0 >= threshold
}

/// The entries of `s` whose deadline lies strictly below `threshold`,
/// in queue order. These are the entries due once the elapsed-millisecond
/// counter has reached `threshold`.
pub open spec fn due_entries(s: Seq<(u32, WakeHandle)>, threshold: u32) -> Seq<(u32, WakeHandle)> {
    s.filter(below(threshold))
}

/// The entries of `s` whose deadline is at or above `threshold`, in queue
/// order: what a drain below `threshold` leaves behind.
pub open spec fn kept_entries(s: Seq<(u32, WakeHandle)>, threshold: u32) -> Seq<(u32, WakeHandle)> {
    s.filter(at_or_above(threshold))
}

/// When no deadline in `s` lies below the threshold, a drain below it takes
/// nothing and keeps every entry.
pub proof fn lemma_no_entry_due(s: Seq<(u32, WakeHandle)>, threshold: u32)
    requires
        forall|i: int| 0 <= i < s.len() ==> (#[trigger] s[i]).0 >= threshold,
    ensures
        due_entries(s, threshold) == Seq::<(u32, WakeHandle)>::empty(),
        kept_entries(s, threshold) == s,
    decreases s.len(),
{
    reveal(Seq::filter);
    if s.len() > 0 {
        let rest = s.drop_last();
        assert(forall|i: int| 0 <= i < rest.len() ==> (#[trigger] rest[i]).0 >= threshold);
        lemma_no_entry_due(rest, threshold);
        assert(rest.push(s.last()) =~= s);
    }
}

/// A bounded queue of (deadline, wake handle) pairs. Deadlines need not be
/// unique. Insertion beyond the fixed capacity is a defined failure, not a
/// fault: `push` reports it and leaves the queue unchanged.
pub struct WaiterQueue {
    entries: Vec<(u32, WakeHandle)>,
    min: u32,
    capacity: usize,
}

impl View for WaiterQueue {
    type V = Seq<(u32, WakeHandle)>;

    closed spec fn view(&self) -> Seq<(u32, WakeHandle)> {
        self.entries@
    }
}

impl WaiterQueue {
    /// The cached minimum deadline: the least deadline queued, or `u32::MAX`
    /// when the queue is empty.
    pub closed spec fn spec_min(&self) -> u32 {
        self.min
    }

    /// The fixed capacity chosen at construction.
    pub closed spec fn spec_capacity(&self) -> usize {
        self.capacity
    }

    /// Well-formedness: the cached minimum is a lower bound on every queued
    /// deadline, is attained whenever the queue is not empty, and is
    /// `u32::MAX` when it is.
    pub open spec fn wf(&self) -> bool {
        &&& forall|i: int| 0 <= i < self@.len() ==> self.spec_min() <= (#[trigger] self@[i]).0
        &&& self@.len() == 0 ==> self.spec_min() == u32::MAX
        &&& self@.len() > 0 ==> exists|i: int|
            0 <= i < self@.len() && (#[trigger] self@[i]).0 == self.spec_min()
    }

    /// An empty queue with the given fixed capacity.
    pub fn new(capacity: usize) -> (q: WaiterQueue)
        ensures
            q.wf(),
            q@ == Seq::<(u32, WakeHandle)>::empty(),
            q.spec_capacity() == capacity,
            q.spec_min() == u32::MAX,
    {
        WaiterQueue { entries: Vec::new(), min: u32::MAX, capacity }
    }

    /// How many entries are queued.
    pub fn len(&self) -> (n: usize)
        ensures
            n == self@.len(),
    {
        self.entries.len()
    }

    /// The current minimum deadline, `u32::MAX` when the queue is empty.
    pub fn min_key(&self) -> (m: u32)
        ensures
            m == self.spec_min(),
    {
        self.min
    }

    /// Inserts a (deadline, wake handle) pair. Fails, leaving the queue
    /// unchanged, exactly when the queue is already at capacity.
    pub fn push(&mut self, key: u32, value: WakeHandle) -> (ok: bool)
        requires
            old(self).wf(),
        ensures
            final(self).wf(),
            final(self).spec_capacity() == old(self).spec_capacity(),
            ok == (old(self)@.len() < old(self).spec_capacity()),
            ok ==> final(self)@ == old(self)@.push((key, value)),
            !ok ==> final(self)@ == old(self)@,
    {
        if self.entries.len() < self.capacity {
            self.entries.push((key, value));
            if key < self.min {
                self.min = key;
            }
            proof {
                let s = self@;
                let n = s.len() - 1;
                assert(s[n].0 == key);
                if key < old(self).spec_min() {
                    assert(s[n].0 == self.spec_min());
                } else {
                    if old(self)@.len() == 0 {
                        assert(s[n].0 == self.spec_min());
                    } else {
                        let w = choose|i: int|
                            0 <= i < old(self)@.len() && (#[trigger] old(self)@[i]).0
                                == old(self).spec_min();
                        assert(s[w].0 == self.spec_min());
                    }
                }
            }
            true
        } else {
            false
        }
    }

    /// Removes and returns, in queue order, every entry whose deadline lies
    /// strictly below `threshold`; entries at or above it stay queued, in
    /// order, and the cached minimum is recomputed over them.
    pub fn take_less_than(&mut self, threshold: u32) -> (fired: Vec<(u32, WakeHandle)>)
        requires
            old(self).wf(),
        ensures
            final(self).wf(),
            final(self).spec_capacity() == old(self).spec_capacity(),
            fired@ == due_entries(old(self)@, threshold),
            final(self)@ == kept_entries(old(self)@, threshold),
    {
        let ghost s = self@;
        let mut fired: Vec<(u32, WakeHandle)> = Vec::new();
        let mut kept: Vec<(u32, WakeHandle)> = Vec::new();
        let mut new_min: u32 = u32::MAX;
        let n = self.entries.len();
        let mut i: usize = 0;
        while i < n
            invariant
                i <= n,
                n == s.len(),
                self@ == s,
                self.spec_capacity() == old(self).spec_capacity(),
                fired@ == due_entries(s.subrange(0, i as int), threshold),
                kept@ == kept_entries(s.subrange(0, i as int), threshold),
                forall|j: int| 0 <= j < kept@.len() ==> new_min <= (#[trigger] kept@[j]).0,
                kept@.len() == 0 ==> new_min == u32::MAX,
                kept@.len() > 0 ==> exists|j: int|
                    0 <= j < kept@.len() && (#[trigger] kept@[j]).0 == new_min,
            decreases n - i,
        {
            let e = self.entries[i];
            proof {
                assert(s.subrange(0, i + 1 as int) =~= s.subrange(0, i as int).push(s[i as int]));
            }
            if e.0 < threshold {
                fired.push(e);
            } else {
                let ghost kept_old = kept@;
                let ghost min_old = new_min;
                if e.0 < new_min {
                    new_min = e.0;
                }
                kept.push(e);
                proof {
                    if e.0 <= min_old {
                        assert(kept@[kept@.len() - 1].0 == new_min);
                    } else {
                        let w = choose|j: int|
                            0 <= j < kept_old.len() && (#[trigger] kept_old[j]).0 == min_old;
                        assert(kept@[w].0 == new_min);
                    }
                }
            }
            i = i + 1;
        }
        proof {
            assert(s.subrange(0, n as int) =~= s);
        }
        self.entries = kept;
        self.min = new_min;
        fired
    }
}

} // verus!
