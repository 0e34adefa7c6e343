//! The timer tick counter and the service of an IRQ line.
use vstd::prelude::*;
use core::sync::atomic::{AtomicU64, Ordering};
use crate::pic::{irq_response, is_irq_line, spec_irq_response};

verus! {

/// The number of timer interrupts counted so far in `counter`. Interrupts
/// may count ticks at any moment, so nothing is known of the value read.
pub fn timer_ticks(counter: &AtomicU64) -> u64 {
    counter.load(Ordering::Relaxed)
}

/// Counts one timer tick in `counter`; the count wraps around at `u64::MAX`.
fn count_tick(counter: &AtomicU64) {
    counter.fetch_add(1, Ordering::Relaxed);
}

/// Serves IRQ `line`: counts one tick in `counter` when the line is the
/// timer's, and returns the vector whose end of interrupt the caller sends
/// to the PICs.
pub fn serve_irq(line: u8, counter: &AtomicU64) -> (end_of_interrupt: u8)
    requires
        is_irq_line(line as int),
    ensures
        end_of_interrupt == spec_irq_response(line as int).end_of_interrupt,
{
    let response = irq_response(line);
    if response.count_tick {
        count_tick(counter);
    }
    response.end_of_interrupt
}

} // verus!
