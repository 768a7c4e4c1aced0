// Timing of the granular pitch shifter: where the next input sample is
// written, and how far each of its two overlapping grains has run.
use vstd::prelude::*;

verus! {

/// Length of one grain, in samples.
pub const SHIFT_GRAIN_SIZE: usize = 2048;

/// Number of grain lengths the shifter's buffer holds.
pub const SHIFT_OVERLAP: usize = 4;

/// Length of the shifter's buffer, in samples.
pub const BUFFER_SIZE: usize = SHIFT_GRAIN_SIZE * SHIFT_OVERLAP;

/// Sample counters of the shifter: the buffer slot the next input goes to,
/// and the position of each of the two grains within its current run.
pub struct GrainClock {
    write_pos: usize,
    grain_counter_a: usize,
    grain_counter_b: usize,
}

/// A grain counter after one more sample: it counts up and starts over at 0
/// when it reaches the grain length.
pub open spec fn next_count(count: int) -> int {
    if count + 1 >= SHIFT_GRAIN_SIZE {
        0
    } else {
        count + 1
    }
}

impl GrainClock {
    /// The counters are in range, and grain B runs half a grain behind grain
    /// A, so the two grains always overlap by half.
    pub open spec fn inv(&self) -> bool {
        &&& self.spec_write_pos() < BUFFER_SIZE
        &&& self.spec_counter_a() < SHIFT_GRAIN_SIZE
        &&& self.spec_counter_b() < SHIFT_GRAIN_SIZE
        &&& self.spec_counter_b() == (self.spec_counter_a() + SHIFT_GRAIN_SIZE / 2) % (SHIFT_GRAIN_SIZE as int)
    }

    /// The buffer slot the next input sample goes to.
    pub closed spec fn spec_write_pos(&self) -> usize {
        self.write_pos
    }

    /// Samples since grain A started its current run.
    pub closed spec fn spec_counter_a(&self) -> usize {
        self.grain_counter_a
    }

    /// Samples since grain B started its current run.
    pub closed spec fn spec_counter_b(&self) -> usize {
        self.grain_counter_b
    }

    /// Counters at the start: writing at slot 0, grain A at its start and
    /// grain B half a grain in.
    pub fn new() -> (clock: Self)
        ensures
            clock.inv(),
            clock.spec_write_pos() == 0,
            clock.spec_counter_a() == 0,
            clock.spec_counter_b() == SHIFT_GRAIN_SIZE / 2,
    {
        GrainClock { write_pos: 0, grain_counter_a: 0, grain_counter_b: SHIFT_GRAIN_SIZE / 2 }
    }

    /// Puts the counters back to where they start.
    pub fn reset(&mut self)
        ensures
            final(self).inv(),
            final(self).spec_write_pos() == 0,
            final(self).spec_counter_a() == 0,
            final(self).spec_counter_b() == SHIFT_GRAIN_SIZE / 2,
    {
        self.write_pos = 0;
        self.grain_counter_a = 0;
        self.grain_counter_b = SHIFT_GRAIN_SIZE / 2;
    }

    /// The buffer slot the next input sample goes to.
    pub fn write_pos(&self) -> (pos: usize)
        ensures
            pos == self.spec_write_pos(),
    {
        self.write_pos
    }

    /// Samples since grain A started its current run.
    pub fn grain_counter_a(&self) -> (count: usize)
        ensures
            count == self.spec_counter_a(),
    {
        self.grain_counter_a
    }

    /// Samples since grain B started its current run.
    pub fn grain_counter_b(&self) -> (count: usize)
        ensures
            count == self.spec_counter_b(),
    {
        self.grain_counter_b
    }

    /// Counts one sample. Returns, for grain A and grain B, whether the grain
    /// starts a new run, which it must then read from the slot just written.
    pub fn advance(&mut self) -> (restart: (bool, bool))
        requires
            old(self).inv(),
        ensures
            final(self).inv(),
            final(self).spec_write_pos() == (old(self).spec_write_pos() + 1) % (BUFFER_SIZE as int),
            final(self).spec_counter_a() == next_count(old(self).spec_counter_a() as int),
            final(self).spec_counter_b() == next_count(old(self).spec_counter_b() as int),
            restart.0 == (final(self).spec_counter_a() == 0),
            restart.1 == (final(self).spec_counter_b() == 0),
    {
        self.grain_counter_a = self.grain_counter_a + 1;
        self.grain_counter_b = self.grain_counter_b + 1;
        let mut restart_a = false;
        let mut restart_b = false;
        if self.grain_counter_a >= SHIFT_GRAIN_SIZE {
            self.grain_counter_a = 0;
            restart_a = true;
        }
        if self.grain_counter_b >= SHIFT_GRAIN_SIZE {
            self.grain_counter_b = 0;
            restart_b = true;
        }
        self.write_pos = (self.write_pos + 1) % BUFFER_SIZE;
        (restart_a, restart_b)
    }
}

/// A grain counter counts the samples of its run modulo the grain length.
pub proof fn law_grain_counter_counts_modulo_grain(count: int)
    requires
        0 <= count < SHIFT_GRAIN_SIZE,
    ensures
        next_count(count) == (count + 1) % (SHIFT_GRAIN_SIZE as int),
{
    if count + 1 < SHIFT_GRAIN_SIZE {
        vstd::arithmetic::div_mod::lemma_small_mod((count + 1) as nat, SHIFT_GRAIN_SIZE as nat);
    } else {
        vstd::arithmetic::div_mod::lemma_mod_self_0(SHIFT_GRAIN_SIZE as int);
    }
}

/// The two grains never start a new run on the same sample: each restart
/// falls in the middle of the other grain's run.
pub proof fn law_grains_restart_apart(a: int)
    requires
        0 <= a < SHIFT_GRAIN_SIZE,
    ensures
        !(next_count(a) == 0 && next_count((a + SHIFT_GRAIN_SIZE / 2) % (SHIFT_GRAIN_SIZE as int)) == 0),
        next_count(a) == 0 ==> next_count((a + SHIFT_GRAIN_SIZE / 2) % (SHIFT_GRAIN_SIZE as int))
            == SHIFT_GRAIN_SIZE / 2,
{
}

} // verus!
