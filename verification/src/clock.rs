use vstd::prelude::*;

verus! {

/// Number of values a tick counter can take before it starts over.
pub open spec fn tick_span() -> int {
    0x1_0000_0000
}

/// Counter of fixed simulation steps. Every periodic rule of the
/// simulation is a divisibility test on it.
#[derive(Clone, Copy, Debug, PartialEq, Eq, Structural)]
pub struct TickCounter {
    pub inner: u32,
}

impl TickCounter {
    /// A counter that reads zero.
    pub fn new() -> (counter: TickCounter)
        ensures
            counter.inner == 0,
    {
        TickCounter { inner: 0 }
    }

    /// The counter's reading after one more step: one higher, and zero after
    /// the highest value.
    pub open spec fn next(self) -> u32 {
        ((self.inner + 1) % tick_span()) as u32
    }

    /// Whether the reading is a multiple of `n`.
    pub open spec fn due(self, n: u32) -> bool {
        self.inner as int % n as int == 0
    }

    /// Advances the counter by one step, starting over at zero after the
    /// highest value.
    pub fn tick(&mut self)
        ensures
            final(self).inner == old(self).next(),
    {
        if self.inner == u32::MAX {
            self.inner = 0;
        } else {
            self.inner = self.inner + 1;
        }
    }

    /// Tells whether the current reading is a multiple of `n`.
    pub fn is_n(&self, n: u32) -> (hit: bool)
        requires
            n > 0,
        ensures
            hit == self.due(n),
    {
        self.inner % n == 0
    }
}

impl Default for TickCounter {
    fn default() -> (counter: TickCounter)
        ensures
            counter.inner == 0,
    {
        TickCounter { inner: 0 }
    }
}

/// The clock system of the fixed step: advances the counter once.
pub fn tick_counter(counter: &mut TickCounter)
    ensures
        final(counter).inner == old(counter).next(),
{
    counter.tick()
}

/// After `n` steps from a reading `start`, the counter reads `start + n`
/// reduced modulo the span of the counter.
pub open spec fn reading_after(start: u32, n: nat) -> u32
    decreases n,
{
    if n == 0 {
        start
    } else {
        (TickCounter { inner: reading_after(start, (n - 1) as nat) }).next()
    }
}

/// Stepping a counter `n` times adds `n` to its reading, modulo the span.
pub proof fn lemma_reading_after(start: u32, n: nat)
    ensures
        reading_after(start, n) == (start + n) % tick_span(),
    decreases n,
{
    if n > 0 {
        lemma_reading_after(start, (n - 1) as nat);
    }
}

} // verus!
