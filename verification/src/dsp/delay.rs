// A delay line: a ring buffer that remembers the most recent samples written
// to it.
use vstd::prelude::*;

verus! {

/// Position in the buffer of the sample written `k + 1` writes ago, when the
/// next write goes to `write_pos` of a buffer of `len` slots.
pub open spec fn slot(write_pos: int, len: int, k: int) -> int {
    (write_pos + len - 1 - k) % len
}

/// The view of a line after writing `sample` to one whose view was `view`.
pub open spec fn shifted_in<T>(view: Seq<T>, sample: T) -> Seq<T> {
    seq![sample] + view.drop_last()
}

/// The view of a line after writing `samples`, in order, to one whose view
/// was `view`.
pub open spec fn after_writes<T>(view: Seq<T>, samples: Seq<T>) -> Seq<T>
    decreases samples.len(),
{
    if samples.len() == 0 {
        view
    } else {
        shifted_in(after_writes(view, samples.drop_last()), samples.last())
    }
}

/// The sample that a tap `delay` writes back reads from a line whose view is
/// `view`: a delay of 0 reads the oldest sample, like the full length does.
pub open spec fn tapped<T>(view: Seq<T>, delay: int) -> T {
    if delay == 0 {
        view.last()
    } else {
        view[delay - 1]
    }
}

/// A tap `delay` writes back, for `1 <= delay <= len`, after writing
/// `samples` reads the sample written `delay` writes before the end of
/// `samples`, and the tap at 0 reads the same as the tap at the full length.
pub proof fn law_tap_reads_earlier_write<T>(view: Seq<T>, samples: Seq<T>, delay: int)
    requires
        view.len() >= 1,
        1 <= delay <= samples.len(),
        delay <= view.len(),
    ensures
        tapped(after_writes(view, samples), delay) == samples[samples.len() - delay],
        tapped(after_writes(view, samples), 0) == tapped(after_writes(view, samples), view.len() as int),
{
    law_delay_reads_earlier_write(view, samples, delay);
}

/// A line remembers as many samples as it did before any writes, and reading
/// it `delay` writes back gives the sample written `delay` writes ago.
pub proof fn law_delay_reads_earlier_write<T>(view: Seq<T>, samples: Seq<T>, delay: int)
    requires
        view.len() >= 1,
        1 <= delay <= samples.len(),
        delay <= view.len(),
    ensures
        after_writes(view, samples).len() == view.len(),
        after_writes(view, samples)[delay - 1] == samples[samples.len() - delay],
    decreases samples.len(),
{
    lemma_after_writes_len(view, samples);
    let before = samples.drop_last();
    if delay > 1 {
        law_delay_reads_earlier_write(view, before, delay - 1);
    }
}

/// Writing keeps the number of remembered samples.
pub proof fn lemma_after_writes_len<T>(view: Seq<T>, samples: Seq<T>)
    requires
        view.len() >= 1,
    ensures
        after_writes(view, samples).len() == view.len(),
    decreases samples.len(),
{
    if samples.len() > 0 {
        lemma_after_writes_len(view, samples.drop_last());
    }
}

/// `x % m` for `0 <= x < 2 * m`.
proof fn lemma_mod_below_twice(x: int, m: int)
    requires
        0 < m,
        0 <= x < 2 * m,
    ensures
        x % m == if x < m {
            x
        } else {
            x - m
        },
{
    if x < m {
        vstd::arithmetic::div_mod::lemma_small_mod(x as nat, m as nat);
    } else {
        vstd::arithmetic::div_mod::lemma_small_mod((x - m) as nat, m as nat);
        vstd::arithmetic::div_mod::lemma_mod_add_multiples_vanish(x - m, m);
    }
}

/// A line of `len` samples: the one written `k + 1` writes ago stands at
/// position `k` of its view; slots never written hold the silence it was
/// made with.
pub struct DelayLine<T> {
    buffer: Vec<T>,
    write_pos: usize,
    max_delay_samples: usize,
}

impl<T> DelayLine<T> {
    /// The buffer has one slot per remembered sample, at least one, and the
    /// next write goes to one of them.
    pub closed spec fn inv(&self) -> bool {
        &&& self.max_delay_samples >= 1
        &&& self.buffer@.len() == self.max_delay_samples
        &&& self.write_pos < self.max_delay_samples
    }

    /// The remembered samples, most recent first.
    pub closed spec fn view(&self) -> Seq<T> {
        Seq::new(
            self.max_delay_samples as nat,
            |k: int| self.buffer@[slot(self.write_pos as int, self.max_delay_samples as int, k)],
        )
    }
}

impl<T: Copy> DelayLine<T> {
    /// A line of `max(max_delay_samples, 1)` slots, all silent.
    pub fn new(max_delay_samples: usize, silence: T) -> (line: Self)
        ensures
            line.inv(),
            line.view() == Seq::new(
                if max_delay_samples >= 1 {
                    max_delay_samples as nat
                } else {
                    1
                },
                |k: int| silence,
            ),
    {
        let len = if max_delay_samples >= 1 {
            max_delay_samples
        } else {
            1
        };
        let line = DelayLine { buffer: silent_buffer(len, silence), write_pos: 0, max_delay_samples: len };
        proof {
            assert forall|k: int| 0 <= k < len implies 0 <= #[trigger] slot(0, len as int, k) < len by {
                lemma_mod_below_twice(len - 1 - k, len as int);
            }
        }
        assert(line.view() =~= Seq::new(len as nat, |k: int| silence));
        line
    }

    /// The number of samples the line remembers.
    pub fn capacity(&self) -> (len: usize)
        requires
            self.inv(),
        ensures
            len == self.view().len(),
    {
        self.max_delay_samples
    }

    /// Writes `sample`: it becomes the most recent sample, and the oldest one
    /// is forgotten.
    pub fn write(&mut self, sample: T)
        requires
            old(self).inv(),
        ensures
            final(self).inv(),
            final(self).view() == shifted_in(old(self).view(), sample),
    {
        let ghost old_view = self.view();
        let ghost w = self.write_pos as int;
        let ghost len = self.max_delay_samples as int;
        let pos = self.write_pos;
        self.buffer.set(pos, sample);
        self.write_pos = (pos + 1) % self.max_delay_samples;
        proof {
            let w2 = self.write_pos as int;
            if pos + 1 < len {
                vstd::arithmetic::div_mod::lemma_small_mod((pos + 1) as nat, len as nat);
            } else {
                vstd::arithmetic::div_mod::lemma_mod_self_0(len);
            }
            assert forall|k: int| 0 <= k < len implies {
                &&& slot(w2, len, k) == if k == 0 {
                    w
                } else {
                    slot(w, len, k - 1)
                }
                &&& k > 0 ==> slot(w, len, k - 1) != w
                &&& 0 <= slot(w, len, k) < len
            } by {
                lemma_mod_below_twice(w2 + len - 1 - k, len);
                lemma_mod_below_twice(w + len - 1 - k, len);
                if k > 0 {
                    lemma_mod_below_twice(w + len - k, len);
                }
            }
            assert(self.view() =~= seq![sample] + old_view.drop_last());
        }
    }

    /// The sample written `delay` writes ago, for `1 <= delay <= capacity`;
    /// a delay of 0 reads the oldest sample, like the full capacity does.
    pub fn tap(&self, delay: usize) -> (sample: T)
        requires
            self.inv(),
            delay <= self.view().len(),
        ensures
            sample == tapped(self.view(), delay as int),
    {
        let len = self.max_delay_samples;
        let pos = self.write_pos;
        let idx = if delay <= pos {
            pos - delay
        } else {
            pos + (len - delay)
        };
        proof {
            let k = if delay == 0 {
                len - 1
            } else {
                delay - 1
            };
            lemma_mod_below_twice(pos + len - 1 - k, len as int);
            assert(idx == slot(pos as int, len as int, k));
        }
        self.buffer[idx]
    }

    /// Silences every remembered sample.
    pub fn reset(&mut self, silence: T)
        requires
            old(self).inv(),
        ensures
            final(self).inv(),
            final(self).view() == Seq::new(old(self).view().len(), |k: int| silence),
    {
        let len = self.max_delay_samples;
        self.buffer = silent_buffer(len, silence);
        self.write_pos = 0;
        proof {
            assert forall|k: int| 0 <= k < len implies 0 <= #[trigger] slot(0, len as int, k) < len by {
                lemma_mod_below_twice(len - 1 - k, len as int);
            }
        }
        assert(self.view() =~= Seq::new(len as nat, |k: int| silence));
    }

    /// Gives the line `max(new_max, 1)` slots. A line that changes length
    /// starts over silent; one that keeps its length keeps its samples.
    pub fn resize(&mut self, new_max: usize, silence: T)
        requires
            old(self).inv(),
        ensures
            final(self).inv(),
            ({
                let len = if new_max >= 1 {
                    new_max as nat
                } else {
                    1
                };
                if len != old(self).view().len() {
                    final(self).view() == Seq::new(len, |k: int| silence)
                } else {
                    final(self).view() == old(self).view()
                }
            }),
    {
        let len = if new_max >= 1 {
            new_max
        } else {
            1
        };
        if len != self.max_delay_samples {
            *self = DelayLine::new(len, silence);
        }
    }
}

/// A buffer of `len` copies of `silence`.
fn silent_buffer<T: Copy>(len: usize, silence: T) -> (buffer: Vec<T>)
    ensures
        buffer@ == Seq::new(len as nat, |k: int| silence),
{
    let mut buffer: Vec<T> = Vec::new();
    let mut i: usize = 0;
    while i < len
        invariant
            i <= len,
            buffer@ == Seq::new(i as nat, |k: int| silence),
        decreases len - i,
    {
        buffer.push(silence);
        i = i + 1;
        assert(buffer@ =~= Seq::new(i as nat, |k: int| silence));
    }
    buffer
}

} // verus!
