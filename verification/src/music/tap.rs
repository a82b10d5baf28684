//! The tap on the audio stream: a ring buffer that keeps the latest samples for the
//! spectrum analyzer and the waveform.

use vstd::prelude::*;

verus! {

/// The fewest samples the ring holds: one analysis window.
pub const FFT_SIZE: usize = 2048;

/// The slot, in a ring of `cap` slots whose next write goes to `w`, of the sample pushed
/// `k` pushes before the latest.
pub open spec fn slot(w: int, k: int, cap: int) -> int {
    if k + 1 <= w {
        w - 1 - k
    } else {
        w + cap - 1 - k
    }
}

pub struct SampleRing<T> {
    ring: Vec<T>,
    write_idx: usize,
    filled: usize,
    /// Every sample pushed since the ring was made or cleared, oldest first.
    history: Ghost<Seq<T>>,
}

impl<T: Copy> SampleRing<T> {
    /// The samples pushed since the ring was made or cleared, oldest first.
    pub closed spec fn pushed(&self) -> Seq<T> {
        self.history@
    }

    /// How many samples the ring holds.
    pub closed spec fn capacity(&self) -> nat {
        self.ring@.len()
    }

    /// How many of the latest samples the ring can give back.
    pub closed spec fn kept(&self) -> nat {
        self.filled as nat
    }

    /// The ring keeps the latest `kept()` samples: as many as were pushed, up to its
    /// capacity.
    pub closed spec fn wf(&self) -> bool {
        let cap = self.ring@.len() as int;
        &&& cap >= FFT_SIZE
        &&& cap < usize::MAX / 2
        &&& self.write_idx < cap
        &&& self.filled as int == if self.history@.len() < cap {
            self.history@.len() as int
        } else {
            cap
        }
        &&& forall|k: int|
            0 <= k < self.filled ==> #[trigger] self.ring@[slot(self.write_idx as int, k, cap)]
                == self.history@[self.history@.len() - 1 - k]
    }

    /// An empty ring of `capacity` slots (at least `FFT_SIZE`), each holding `fill`.
    pub fn new(capacity: usize, fill: T) -> (r: Self)
        requires
            capacity < usize::MAX / 2,
        ensures
            r.wf(),
            r.pushed() == Seq::<T>::empty(),
            r.capacity() == if capacity > FFT_SIZE {
                capacity
            } else {
                FFT_SIZE
            },
    {
        let cap = if capacity > FFT_SIZE {
            capacity
        } else {
            FFT_SIZE
        };
        let mut ring: Vec<T> = Vec::new();
        let mut i: usize = 0;
        while i < cap
            invariant
                i <= cap,
                ring@.len() == i,
            decreases cap - i,
        {
            ring.push(fill);
            i += 1;
        }
        SampleRing { ring, write_idx: 0, filled: 0, history: Ghost(Seq::empty()) }
    }

    /// Records one sample, overwriting the oldest once the ring is full.
    pub fn push(&mut self, sample: T)
        requires
            old(self).wf(),
        ensures
            final(self).wf(),
            final(self).pushed() == old(self).pushed().push(sample),
            final(self).capacity() == old(self).capacity(),
    {
        let cap = self.ring.len();
        let w = self.write_idx;
        self.ring.set(w, sample);
        self.write_idx = if w + 1 == cap {
            0
        } else {
            w + 1
        };
        self.filled = if self.filled + 1 < cap {
            self.filled + 1
        } else {
            cap
        };
        let ghost old_history = self.history@;
        self.history = Ghost(old_history.push(sample));
        proof {
            let nw = self.write_idx as int;
            let c = cap as int;
            assert forall|k: int| 0 <= k < self.filled implies #[trigger] self.ring@[slot(nw, k, c)]
                == self.history@[self.history@.len() - 1 - k] by {
                if k == 0 {
                    assert(slot(nw, 0, c) == w);
                } else {
                    assert(slot(nw, k, c) == slot(w as int, k - 1, c));
                    assert(slot(w as int, k - 1, c) != w);
                    assert(self.ring@[slot(w as int, k - 1, c)] == old(self).ring@[slot(
                        w as int,
                        k - 1,
                        c,
                    )]);
                }
            }
        }
    }

    /// The latest `len` samples (all of them, if fewer were kept), oldest first.
    pub fn snapshot_latest(&self, len: usize) -> (r: Vec<T>)
        requires
            self.wf(),
        ensures
            ({
                let take = if len < self.kept() {
                    len as int
                } else {
                    self.kept() as int
                };
                r@ == self.pushed().subrange(self.pushed().len() - take, self.pushed().len() as int)
            }),
    {
        if self.filled == 0 {
            assert(self.history@.subrange(self.history@.len() as int, self.history@.len() as int)
                =~= Seq::<T>::empty());
            return Vec::new();
        }
        let cap = self.ring.len();
        let take = if len < self.filled {
            len
        } else {
            self.filled
        };
        let w = self.write_idx;
        let mut out: Vec<T> = Vec::new();
        let mut i: usize = 0;
        let ghost h = self.history@;
        while i < take
            invariant
                self.wf(),
                cap == self.ring@.len(),
                w == self.write_idx,
                h == self.history@,
                take <= self.filled,
                i <= take,
                out@ == h.subrange(h.len() - take, h.len() - take + i),
            decreases take - i,
        {
            let raw = w + cap - take + i;
            let idx = if raw >= cap {
                raw - cap
            } else {
                raw
            };
            proof {
                let k = take - 1 - i;
                assert(idx == slot(w as int, k as int, cap as int));
            }
            out.push(self.ring[idx]);
            assert(out@ =~= h.subrange(h.len() - take, h.len() - take + i + 1));
            i += 1;
        }
        out
    }

    /// Forgets every sample; each slot holds `fill` again.
    pub fn clear(&mut self, fill: T)
        requires
            old(self).wf(),
        ensures
            final(self).wf(),
            final(self).pushed() == Seq::<T>::empty(),
            final(self).capacity() == old(self).capacity(),
    {
        self.write_idx = 0;
        self.filled = 0;
        let cap = self.ring.len();
        let mut i: usize = 0;
        while i < cap
            invariant
                i <= cap,
                cap == self.ring@.len(),
                FFT_SIZE <= cap < usize::MAX / 2,
                self.write_idx == 0,
                self.filled == 0,
            decreases cap - i,
        {
            self.ring.set(i, fill);
            i += 1;
        }
        self.history = Ghost(Seq::empty());
    }
}

} // verus!
