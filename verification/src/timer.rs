//! The 8-bit down-counters behind the delay and sound timers.

use vstd::prelude::*;

verus! {

/// The value a counter holds after one tick: one less, with a floor of zero.
pub open spec fn ticked(value: u8) -> u8 {
    if value == 0 {
        0u8
    } else {
        (value - 1) as u8
    }
}

/// The value a counter holds after `n` ticks in a row.
pub open spec fn ticked_n(value: u8, n: nat) -> u8
    decreases n,
{
    if n == 0 {
        value
    } else {
        ticked_n(ticked(value), (n - 1) as nat)
    }
}

/// Any number of ticks leaves `max(value - n, 0)`: the counter reaches zero
/// and stays there, it never wraps below it.
pub proof fn lemma_ticked_n_saturates(value: u8, n: nat)
    ensures
        ticked_n(value, n) == if n >= value { 0 } else { value - n },
        ticked_n(value, n) <= value,
        ticked_n(0, n) == 0,
    decreases n,
{
    if n > 0 {
        lemma_ticked_n_saturates(ticked(value), (n - 1) as nat);
        lemma_ticked_n_saturates(0, (n - 1) as nat);
    }
}

/// A periodic counter. It only ever counts down.
pub struct Timer {
    pub cycles: u8,
}

impl View for Timer {
    type V = u8;

    open spec fn view(&self) -> u8 {
        self.cycles
    }
}

impl Timer {
    /// A counter at rest.
    pub fn new() -> (timer: Self)
        ensures
            timer@ == 0,
    {
        Self { cycles: 0 }
    }

    /// Counts down by one, stopping at zero.
    pub fn decrement(&mut self)
        ensures
            final(self)@ == ticked(old(self)@),
    {
        self.cycles = self.cycles.saturating_sub(1);
    }
}

} // verus!
