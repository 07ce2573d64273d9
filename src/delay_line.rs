//! A capped history of samples, oldest first, that evicts its oldest entry
//! once it is full and reads a given number of steps behind the newest one.

use std::collections::VecDeque;
use vstd::prelude::*;

verus! {

broadcast use vstd::std_specs::vecdeque::group_vec_dequeue_axioms;

/// The history after `sample` is appended to `history` in a buffer that holds
/// at most `capacity` samples: when the append overflows, the oldest sample
/// leaves.
pub open spec fn after_write<T>(history: Seq<T>, sample: T, capacity: nat) -> Seq<T> {
    let grown = history.push(sample);
    if grown.len() > capacity {
        grown.drop_first()
    } else {
        grown
    }
}

/// What a read `delay` steps behind the newest sample of `history` yields.
/// The position is `len - delay`, saturating at the oldest sample; a position
/// past the newest one (a delay of zero, or an empty history) gives `silence`.
pub open spec fn sample_behind<T>(history: Seq<T>, delay: nat, silence: T) -> T {
    let index: int = if delay >= history.len() { 0 } else { history.len() - delay };
    if index < history.len() {
        history[index]
    } else {
        silence
    }
}

/// The history after each of `samples` is written in turn, first to last.
pub open spec fn after_writes<T>(history: Seq<T>, samples: Seq<T>, capacity: nat) -> Seq<T>
    decreases samples.len(),
{
    if samples.len() == 0 {
        history
    } else {
        after_write(after_writes(history, samples.drop_last(), capacity), samples.last(), capacity)
    }
}

/// The last `capacity` entries of `s`, or all of `s` when it is shorter.
pub open spec fn newest<T>(s: Seq<T>, capacity: nat) -> Seq<T> {
    if s.len() > capacity {
        s.subrange(s.len() - capacity, s.len() as int)
    } else {
        s
    }
}

/// Keeping the newest entries and then appending one keeps the same entries
/// as appending first.
proof fn lemma_newest_push<T>(s: Seq<T>, x: T, capacity: nat)
    ensures
        newest(newest(s, capacity).push(x), capacity) == newest(s.push(x), capacity),
{
    if s.len() > capacity {
        assert(newest(newest(s, capacity).push(x), capacity) =~= newest(s.push(x), capacity));
    }
}

/// Whatever samples are written, a line that starts within its capacity
/// never holds more than `capacity` samples, and it holds exactly the newest
/// `capacity` of everything it has seen, in order: once full, each write
/// evicts the oldest sample.
pub proof fn lemma_writes_keep_newest<T>(history: Seq<T>, samples: Seq<T>, capacity: nat)
    requires
        history.len() <= capacity,
    ensures
        after_writes(history, samples, capacity).len() <= capacity,
        after_writes(history, samples, capacity) == newest(history + samples, capacity),
    decreases samples.len(),
{
    if samples.len() == 0 {
        assert(history + samples =~= history);
    } else {
        let prefix = samples.drop_last();
        let x = samples.last();
        lemma_writes_keep_newest(history, prefix, capacity);
        lemma_newest_push(history + prefix, x, capacity);
        assert((history + prefix).push(x) =~= history + samples);
        let before = after_writes(history, prefix, capacity);
        assert(after_write(before, x, capacity) =~= newest(before.push(x), capacity));
    }
}

/// A read further back than the history reaches yields its oldest sample, or
/// `silence` when the history is empty.
pub proof fn lemma_read_clamps<T>(history: Seq<T>, delay: nat, silence: T)
    requires
        delay >= history.len(),
    ensures
        sample_behind(history, delay, silence) == (if history.len() == 0 {
            silence
        } else {
            history[0]
        }),
{
}

/// A bounded first-in, first-out history of samples.
pub struct DelayLine<T> {
    buffer: VecDeque<T>,
    max_delay: usize,
}

impl<T> DelayLine<T> {
    /// The stored samples, oldest first.
    pub closed spec fn samples(&self) -> Seq<T> {
        self.buffer@
    }

    /// The largest number of samples the line holds.
    pub closed spec fn capacity(&self) -> nat {
        self.max_delay as nat
    }

    /// The line holds no more samples than its capacity.
    pub open spec fn wf(&self) -> bool {
        self.samples().len() <= self.capacity()
    }
}

impl<T: Copy> DelayLine<T> {

    /// An empty line that holds at most `max_delay_samples` samples.
    pub fn new(max_delay_samples: usize) -> (r: Self)
        ensures
            r.wf(),
            r.samples() == Seq::<T>::empty(),
            r.capacity() == max_delay_samples,
    {
        DelayLine { buffer: VecDeque::with_capacity(max_delay_samples), max_delay: max_delay_samples }
    }

    /// The capacity given at construction.
    pub fn max_delay(&self) -> (r: usize)
        ensures
            r == self.capacity(),
    {
        self.max_delay
    }

    /// The number of stored samples.
    pub fn len(&self) -> (r: usize)
        ensures
            r == self.samples().len(),
    {
        self.buffer.len()
    }

    /// Appends `sample` as the newest entry, evicting the oldest one when the
    /// line would otherwise hold more than its capacity.
    pub fn write(&mut self, sample: T)
        requires
            old(self).wf(),
        ensures
            final(self).wf(),
            final(self).capacity() == old(self).capacity(),
            final(self).samples() == after_write(old(self).samples(), sample, old(self).capacity()),
    {
        self.buffer.push_back(sample);
        if self.buffer.len() > self.max_delay {
            self.buffer.pop_front();
        }
    }

    /// The sample `delay_samples` steps behind the newest one, clamped to the
    /// oldest stored sample; `silence` when no sample stands at that position.
    pub fn read(&self, delay_samples: usize, silence: T) -> (r: T)
        ensures
            r == sample_behind(self.samples(), delay_samples as nat, silence),
    {
        let len = self.buffer.len();
        let index = len.saturating_sub(delay_samples);
        if index < len {
            self.buffer[index]
        } else {
            silence
        }
    }
}

} // verus!
