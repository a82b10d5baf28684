//! The play queue: an ordered list of tracks, a cursor, and the shuffle and
//! repeat settings that decide where the cursor goes next.

use rand::RngExt;
use std::time::Duration;
use vstd::prelude::*;

use super::{RepeatMode, TrackMeta};

verus! {

/// `rand::rng().random_range(0..bound)`: a random index below `bound`.
#[verifier::external_body]
fn random_below(bound: usize) -> (r: usize)
    requires
        bound > 0,
    ensures
        r < bound,
{
    rand::rng().random_range(0..bound)
}

/// The abstract state of a queue.
pub struct QueueModel {
    pub tracks: Seq<TrackMeta>,
    pub current: Option<int>,
    pub shuffle: bool,
    pub repeat_mode: RepeatMode,
}

/// The cursor is on a track exactly when the queue is not empty.
pub open spec fn queue_wf(m: QueueModel) -> bool {
    match m.current {
        Some(i) => 0 <= i < m.tracks.len(),
        None => m.tracks.len() == 0,
    }
}

/// The cursor, or the first track when there is none.
pub open spec fn cursor(m: QueueModel) -> int {
    match m.current {
        Some(i) => i,
        None => 0,
    }
}

/// Whether `r` is a possible next position: repeat-one stays put on automatic
/// advance; shuffle jumps to any other track; otherwise the following track,
/// wrapping to the first under repeat-all and stopping at the end otherwise.
pub open spec fn next_index_ok(m: QueueModel, manual: bool, r: Option<int>) -> bool {
    let n = m.tracks.len();
    let cur = cursor(m);
    if n == 0 {
        r is None
    } else if m.repeat_mode == RepeatMode::One && !manual {
        r == Some(cur)
    } else if m.shuffle && n > 1 {
        r matches Some(k) && 0 <= k < n && k != cur
    } else if cur + 1 >= n {
        r == if m.repeat_mode == RepeatMode::All {
            Some(0int)
        } else {
            None::<int>
        }
    } else {
        r == Some(cur + 1)
    }
}

/// Whether `r` is a possible previous position: shuffle jumps to any other
/// track; otherwise the preceding track, wrapping to the last under repeat-all
/// and staying on the first otherwise.
pub open spec fn prev_index_ok(m: QueueModel, r: Option<int>) -> bool {
    let n = m.tracks.len();
    let cur = cursor(m);
    if n == 0 {
        r is None
    } else if m.shuffle && n > 1 {
        r matches Some(k) && 0 <= k < n && k != cur
    } else if cur == 0 {
        r == if m.repeat_mode == RepeatMode::All {
            Some(n - 1)
        } else {
            Some(0int)
        }
    } else {
        r == Some(cur - 1)
    }
}

/// After a move: the cursor on `r` if there is one, and the track it designates.
pub open spec fn moved(old: QueueModel, new: QueueModel, r: Option<int>, t: Option<&TrackMeta>) -> bool {
    &&& new.tracks == old.tracks
    &&& new.shuffle == old.shuffle
    &&& new.repeat_mode == old.repeat_mode
    &&& match r {
        Some(k) => new.current == Some(k) && t == Some(&old.tracks[k]),
        None => new.current == old.current && t is None,
    }
}

#[derive(Debug, Clone)]
pub struct TrackQueue {
    tracks: Vec<TrackMeta>,
    current_index: Option<usize>,
    shuffle: bool,
    repeat_mode: RepeatMode,
}

impl View for TrackQueue {
    type V = QueueModel;

    closed spec fn view(&self) -> QueueModel {
        QueueModel {
            tracks: self.tracks@,
            current: match self.current_index {
                Some(i) => Some(i as int),
                None => None,
            },
            shuffle: self.shuffle,
            repeat_mode: self.repeat_mode,
        }
    }
}

impl TrackQueue {
    pub fn new(shuffle: bool, repeat_mode: RepeatMode) -> (q: Self)
        ensures
            q@.tracks.len() == 0,
            q@.current is None,
            q@.shuffle == shuffle,
            q@.repeat_mode == repeat_mode,
            queue_wf(q@),
    {
        TrackQueue { tracks: Vec::new(), current_index: None, shuffle, repeat_mode }
    }

    /// Replaces the queue; the cursor goes to the first track.
    pub fn load(&mut self, tracks: Vec<TrackMeta>)
        ensures
            final(self)@.tracks == tracks@,
            final(self)@.current == if tracks@.len() == 0 {
                None::<int>
            } else {
                Some(0int)
            },
            final(self)@.shuffle == old(self)@.shuffle,
            final(self)@.repeat_mode == old(self)@.repeat_mode,
            queue_wf(final(self)@),
    {
        let empty = tracks.len() == 0;
        self.tracks = tracks;
        self.current_index = if empty {
            None
        } else {
            Some(0)
        };
    }

    /// Append tracks to the end of the queue without resetting the current
    /// playback position.
    pub fn append(&mut self, tracks: Vec<TrackMeta>)
        requires
            queue_wf(old(self)@),
        ensures
            final(self)@.tracks == old(self)@.tracks + tracks@,
            final(self)@.current == if old(self)@.tracks.len() == 0 && tracks@.len() > 0 {
                Some(0int)
            } else {
                old(self)@.current
            },
            final(self)@.shuffle == old(self)@.shuffle,
            final(self)@.repeat_mode == old(self)@.repeat_mode,
            queue_wf(final(self)@),
    {
        if self.tracks.len() == 0 {
            assert(Seq::<TrackMeta>::empty() + tracks@ =~= tracks@);
            self.load(tracks);
        } else {
            let mut tracks = tracks;
            self.tracks.append(&mut tracks);
        }
    }

    pub fn tracks(&self) -> (r: &[TrackMeta])
        ensures
            r@ == self@.tracks,
    {
        self.tracks.as_slice()
    }

    pub fn current_index(&self) -> (r: Option<usize>)
        ensures
            match r {
                Some(i) => self@.current == Some(i as int),
                None => self@.current is None,
            },
    {
        self.current_index
    }

    pub fn current(&self) -> (r: Option<&TrackMeta>)
        requires
            queue_wf(self@),
        ensures
            match self@.current {
                Some(i) => r == Some(&self@.tracks[i]),
                None => r is None,
            },
    {
        match self.current_index {
            Some(idx) => Some(&self.tracks[idx]),
            None => None,
        }
    }

    /// Moves the cursor to `index`, if there is such a track.
    pub fn select(&mut self, index: usize) -> (r: Option<&TrackMeta>)
        requires
            queue_wf(old(self)@),
        ensures
            moved(
                old(self)@,
                final(self)@,
                if index < old(self)@.tracks.len() {
                    Some(index as int)
                } else {
                    None
                },
                r,
            ),
            queue_wf(final(self)@),
    {
        if index >= self.tracks.len() {
            return None;
        }
        self.current_index = Some(index);
        Some(&self.tracks[index])
    }

    /// Advances the cursor (see `next_index_ok`); `manual` is a user skip.
    pub fn next(&mut self, manual: bool) -> (r: Option<&TrackMeta>)
        requires
            queue_wf(old(self)@),
        ensures
            exists|k: Option<int>| next_index_ok(old(self)@, manual, k) && moved(old(self)@, final(self)@, k, r),
            queue_wf(final(self)@),
    {
        let next = self.next_index(manual);
        match next {
            Some(k) => {
                self.current_index = Some(k);
                let r = Some(&self.tracks[k]);
                assert(moved(old(self)@, self@, Some(k as int), r));
                r
            },
            None => {
                assert(moved(old(self)@, self@, None, None));
                None
            },
        }
    }

    /// Steps the cursor back (see `prev_index_ok`).
    pub fn prev(&mut self) -> (r: Option<&TrackMeta>)
        requires
            queue_wf(old(self)@),
        ensures
            exists|k: Option<int>| prev_index_ok(old(self)@, k) && moved(old(self)@, final(self)@, k, r),
            queue_wf(final(self)@),
    {
        let prev = self.prev_index();
        match prev {
            Some(k) => {
                self.current_index = Some(k);
                let r = Some(&self.tracks[k]);
                assert(moved(old(self)@, self@, Some(k as int), r));
                r
            },
            None => {
                assert(moved(old(self)@, self@, None, None));
                None
            },
        }
    }

    pub fn toggle_shuffle(&mut self) -> (r: bool)
        ensures
            final(self)@ == (QueueModel { shuffle: !old(self)@.shuffle, ..old(self)@ }),
            r == final(self)@.shuffle,
    {
        self.shuffle = !self.shuffle;
        self.shuffle
    }

    pub fn set_repeat_mode(&mut self, repeat_mode: RepeatMode)
        ensures
            final(self)@ == (QueueModel { repeat_mode, ..old(self)@ }),
    {
        self.repeat_mode = repeat_mode;
    }

    pub fn repeat_mode(&self) -> (r: RepeatMode)
        ensures
            r == self@.repeat_mode,
    {
        self.repeat_mode
    }

    pub fn shuffle(&self) -> (r: bool)
        ensures
            r == self@.shuffle,
    {
        self.shuffle
    }

    /// Records the length of the current track, once playback has found it.
    pub fn set_current_duration(&mut self, duration: Duration)
        requires
            queue_wf(old(self)@),
        ensures
            final(self)@.current == old(self)@.current,
            final(self)@.shuffle == old(self)@.shuffle,
            final(self)@.repeat_mode == old(self)@.repeat_mode,
            final(self)@.tracks.len() == old(self)@.tracks.len(),
            forall|i: int|
                0 <= i < old(self)@.tracks.len() ==> #[trigger] final(self)@.tracks[i] == if old(
                    self,
                )@.current == Some(i) {
                    TrackMeta { duration: Some(duration), ..old(self)@.tracks[i] }
                } else {
                    old(self)@.tracks[i]
                },
            queue_wf(final(self)@),
    {
        if let Some(idx) = self.current_index {
            let mut track = self.tracks.remove(idx);
            track.duration = Some(duration);
            self.tracks.insert(idx, track);
        }
    }

    fn next_index(&self, manual: bool) -> (r: Option<usize>)
        requires
            queue_wf(self@),
        ensures
            next_index_ok(
                self@,
                manual,
                match r {
                    Some(k) => Some(k as int),
                    None => None,
                },
            ),
            r matches Some(k) ==> k < self@.tracks.len(),
    {
        let n = self.tracks.len();
        if n == 0 {
            return None;
        }
        let current = match self.current_index {
            Some(c) => c,
            None => 0,
        };
        if self.repeat_mode == RepeatMode::One && !manual {
            return Some(current);
        }
        if self.shuffle && n > 1 {
            return Some(Self::other_index(current, n));
        }
        let at_end = current + 1 >= n;
        if at_end {
            return match self.repeat_mode {
                RepeatMode::All => Some(0),
                RepeatMode::Off | RepeatMode::One => None,
            };
        }
        Some(current + 1)
    }

    fn prev_index(&self) -> (r: Option<usize>)
        requires
            queue_wf(self@),
        ensures
            prev_index_ok(
                self@,
                match r {
                    Some(k) => Some(k as int),
                    None => None,
                },
            ),
            r matches Some(k) ==> k < self@.tracks.len(),
    {
        let n = self.tracks.len();
        if n == 0 {
            return None;
        }
        let current = match self.current_index {
            Some(c) => c,
            None => 0,
        };
        if self.shuffle && n > 1 {
            return Some(Self::other_index(current, n));
        }
        if current == 0 {
            return match self.repeat_mode {
                RepeatMode::All => Some(n - 1),
                RepeatMode::Off | RepeatMode::One => Some(0),
            };
        }
        Some(current - 1)
    }

    /// A uniformly random index below `n` other than `current`.
    fn other_index(current: usize, n: usize) -> (r: usize)
        requires
            current < n,
            n > 1,
        ensures
            r < n,
            r != current,
    {
        skip_current(current, random_below(n - 1))
    }
}

/// The index that a draw `draw` among the `n - 1` other tracks names: the draws count
/// the tracks in order, passing over `current`.
pub fn skip_current(current: usize, draw: usize) -> (r: usize)
    requires
        draw < usize::MAX,
    ensures
        r == if draw >= current {
            draw + 1
        } else {
            draw as int
        },
        r != current,
{
    if draw >= current {
        draw + 1
    } else {
        draw
    }
}

/// Every queue operation keeps the cursor on a track of a non-empty queue.
pub proof fn law_cursor_stays_in_queue(m: QueueModel, manual: bool, r: Option<int>)
    requires
        queue_wf(m),
        next_index_ok(m, manual, r) || prev_index_ok(m, r),
    ensures
        r matches Some(k) ==> 0 <= k < m.tracks.len(),
        m.tracks.len() > 0 ==> r is Some || (!m.shuffle || m.tracks.len() <= 1),
{
}

/// Under repeat-all, stepping forward from the last track wraps to the first,
/// and stepping back from the first wraps to the last.
pub proof fn law_repeat_all_wraps(m: QueueModel, r: Option<int>, p: Option<int>)
    requires
        queue_wf(m),
        m.tracks.len() > 0,
        !m.shuffle,
        m.repeat_mode == RepeatMode::All,
        next_index_ok(m, true, r),
        prev_index_ok(m, p),
    ensures
        cursor(m) == m.tracks.len() - 1 ==> r == Some(0int),
        cursor(m) == 0 ==> p == Some(m.tracks.len() - 1),
{
}

/// Without shuffle, a manual skip forward followed by a step back returns to the
/// track one started on (away from the ends of the queue).
pub proof fn law_next_then_prev(m: QueueModel, r: Option<int>, p: Option<int>)
    requires
        queue_wf(m),
        !m.shuffle,
        next_index_ok(m, true, r),
        r matches Some(k) && k == cursor(m) + 1,
        prev_index_ok(QueueModel { current: r, ..m }, p),
    ensures
        p == Some(cursor(m)),
{
}

/// Without shuffle, stepping forward from any track but the last moves on to the
/// following track, for a manual skip and for the automatic advance at a track's end
/// alike, under repeat off and repeat all; only repeat-one on an automatic advance stays
/// on the track.
pub proof fn law_next_moves_on(m: QueueModel, manual: bool, r: Option<int>)
    requires
        queue_wf(m),
        !m.shuffle,
        m.current is Some,
        m.current->0 + 1 < m.tracks.len(),
        next_index_ok(m, manual, r),
    ensures
        m.repeat_mode == RepeatMode::One && !manual ==> r == m.current,
        !(m.repeat_mode == RepeatMode::One && !manual) ==> r == Some(m.current->0 + 1),
{
}

/// Stepping forward gives no track only on an empty queue, or past the last track
/// without repeat-all (and not a repeat-one advance); a queue of two or more tracks
/// under shuffle always gives one.
pub proof fn law_next_stops_only_at_the_end(m: QueueModel, manual: bool, r: Option<int>)
    requires
        queue_wf(m),
        next_index_ok(m, manual, r),
        r is None,
    ensures
        m.tracks.len() == 0 || ({
            &&& m.current->0 + 1 == m.tracks.len()
            &&& m.repeat_mode != RepeatMode::All
            &&& !(m.repeat_mode == RepeatMode::One && !manual)
            &&& !(m.shuffle && m.tracks.len() > 1)
        }),
{
}

/// Without shuffle, stepping back from any track but the first moves to the track
/// before it; from the first it wraps to the last under repeat-all and stays on the first
/// otherwise. Stepping back on a non-empty queue always gives a track.
pub proof fn law_prev_steps_back(m: QueueModel, r: Option<int>)
    requires
        queue_wf(m),
        !m.shuffle,
        m.current is Some,
        prev_index_ok(m, r),
    ensures
        m.current->0 > 0 ==> r == Some(m.current->0 - 1),
        m.current->0 == 0 && m.repeat_mode == RepeatMode::All ==> r == Some(m.tracks.len() - 1),
        m.current->0 == 0 && m.repeat_mode != RepeatMode::All ==> r == Some(0int),
{
}

} // verus!
