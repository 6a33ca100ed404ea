//! Interrupt-driven clock and deferred-wake scheduling for a single-core
//! microcontroller without an operating system.
//!
//! One 8-bit hardware up-counter, read and reprogrammed by a thin platform
//! layer, drives two software counters: a count of full counter wraps
//! (advanced by the overflow interrupt) and a millisecond tally (advanced by
//! the compare-match interrupt, roughly once per millisecond). Foreground
//! code reconstructs microsecond and millisecond timestamps from those
//! counters and registers wake requests against future millisecond
//! deadlines; the compare-match handler drains and reports every request
//! whose deadline has passed.
//!
//! All state lives in an explicitly owned [`timers::TimerContext`]; the
//! platform layer is responsible for calling the interrupt entry points from
//! the corresponding vectors and for keeping foreground calls inside a
//! critical section where one is required.

pub mod laws;
pub mod queue;
pub mod timers;
