//! The player's decisions, apart from the audio device: moving the selection,
//! volume, when to apply a pending seek, and the statistics of the queue's sources.

use vstd::prelude::*;

use super::{ProviderKind, SourceInfo, TrackMeta};

verus! {

/// How long seek requests are gathered before one is applied, in milliseconds.
pub const SEEK_DEBOUNCE_MS: u64 = 120;

/// The least time between two applied seeks, in milliseconds.
pub const SEEK_COOLDOWN_MS: u64 = 180;

/// The selection after moving it by `delta` rows in a queue of `len` tracks:
/// upwards it stops at the first track, downwards at the last.
pub open spec fn spec_move_selection(selected: nat, delta: int, len: nat) -> nat {
    if len == 0 {
        0
    } else if delta < 0 {
        if selected >= -delta {
            (selected + delta) as nat
        } else {
            0
        }
    } else if selected + delta < len {
        (selected + delta) as nat
    } else {
        (len - 1) as nat
    }
}

pub fn move_selection(selected: usize, delta: i32, len: usize) -> (r: usize)
    ensures
        r == spec_move_selection(selected as nat, delta as int, len as nat),
{
    if len == 0 {
        return 0;
    }
    if delta < 0 {
        let step: u32 = if delta == i32::MIN {
            0x8000_0000
        } else {
            (-delta) as u32
        };
        let step = step as usize;
        if selected >= step {
            selected - step
        } else {
            0
        }
    } else {
        let step = delta as usize;
        if step < len && selected < len - step {
            selected + step
        } else {
            len - 1
        }
    }
}

/// The track played by Enter: the selection, or the last track if it lies past the end.
pub fn clamp_selection(index: usize, len: usize) -> (r: usize)
    ensures
        r == if len == 0 {
            0
        } else if index < len {
            index
        } else {
            (len - 1) as usize
        },
{
    if len == 0 {
        0
    } else if index < len {
        index
    } else {
        len - 1
    }
}

/// The volume actually applied, in percent: nothing while muted.
pub fn effective_volume_percent(volume: u8, muted: bool) -> (r: u8)
    ensures
        r == if muted {
            0
        } else {
            volume
        },
{
    if muted {
        0
    } else {
        volume
    }
}

/// A requested volume, capped at 100.
pub fn clamp_volume(volume: u8) -> (r: u8)
    ensures
        r == if volume > 100 {
            100
        } else {
            volume
        },
{
    if volume > 100 {
        100
    } else {
        volume
    }
}

/// Seeking is possible in local files and in streams whose length is known.
pub fn can_seek(provider: ProviderKind, duration_known: bool) -> (r: bool)
    ensures
        r == (provider == ProviderKind::Local || duration_known),
{
    match provider {
        ProviderKind::Local => true,
        _ => duration_known,
    }
}

/// Whether a pending seek is applied at `now`: there is one, no request came in
/// the last `SEEK_DEBOUNCE_MS`, and none was applied in the last `SEEK_COOLDOWN_MS`.
pub open spec fn spec_seek_due(now: nat, pending: int, requested_at: Option<u64>, applied_at: Option<u64>) -> bool {
    &&& pending != 0
    &&& !(requested_at matches Some(t) && (if now >= t { now - t } else { 0 }) < SEEK_DEBOUNCE_MS)
    &&& !(applied_at matches Some(t) && (if now >= t { now - t } else { 0 }) < SEEK_COOLDOWN_MS)
}

pub fn seek_due(now: u64, pending: i64, requested_at: Option<u64>, applied_at: Option<u64>) -> (r: bool)
    ensures
        r == spec_seek_due(now as nat, pending as int, requested_at, applied_at),
{
    if pending == 0 {
        return false;
    }
    if let Some(t) = requested_at {
        let since = if now >= t {
            now - t
        } else {
            0
        };
        if since < SEEK_DEBOUNCE_MS {
            return false;
        }
    }
    if let Some(t) = applied_at {
        let since = if now >= t {
            now - t
        } else {
            0
        };
        if since < SEEK_COOLDOWN_MS {
            return false;
        }
    }
    true
}

/// The number of tracks in `tracks` from `kind`.
pub open spec fn count_of(tracks: Seq<TrackMeta>, kind: ProviderKind) -> nat
    decreases tracks.len(),
{
    if tracks.len() == 0 {
        0
    } else {
        count_of(tracks.drop_last(), kind) + if tracks.last().provider == kind {
            1nat
        } else {
            0nat
        }
    }
}

/// The providers in the alphabetical order of their labels.
pub open spec fn providers_by_label() -> Seq<ProviderKind> {
    seq![
        ProviderKind::Local,
        ProviderKind::Podcast,
        ProviderKind::Radio,
        ProviderKind::HttpStream,
        ProviderKind::YtDlp,
    ]
}

/// The statistics of the first `k` providers (in label order) that occur in `tracks`.
pub open spec fn summary_upto(tracks: Seq<TrackMeta>, k: nat) -> Seq<SourceInfo>
    decreases k,
{
    if k == 0 {
        Seq::empty()
    } else {
        let prev = summary_upto(tracks, (k - 1) as nat);
        let kind = providers_by_label()[k - 1];
        let n = count_of(tracks, kind);
        if n > 0 {
            prev.push(SourceInfo { kind, count: n as usize })
        } else {
            prev
        }
    }
}

fn count_provider(tracks: &[TrackMeta], kind: ProviderKind) -> (n: usize)
    ensures
        n == count_of(tracks@, kind),
{
    let mut n: usize = 0;
    let mut i: usize = 0;
    while i < tracks.len()
        invariant
            i <= tracks.len(),
            n == count_of(tracks@.take(i as int), kind),
            n <= i,
        decreases tracks.len() - i,
    {
        assert(tracks@.take(i + 1).drop_last() =~= tracks@.take(i as int));
        if tracks[i].provider == kind {
            n += 1;
        }
        i += 1;
    }
    assert(tracks@.take(tracks.len() as int) =~= tracks@);
    n
}

/// How many tracks of the queue come from each provider, for the providers that
/// occur, ordered by label.
pub fn source_summary(tracks: &[TrackMeta]) -> (r: Vec<SourceInfo>)
    ensures
        r@ == summary_upto(tracks@, 5),
{
    let order = [
        ProviderKind::Local,
        ProviderKind::Podcast,
        ProviderKind::Radio,
        ProviderKind::HttpStream,
        ProviderKind::YtDlp,
    ];
    assert(order@ =~= providers_by_label());
    let mut r: Vec<SourceInfo> = Vec::new();
    let mut k: usize = 0;
    while k < 5
        invariant
            k <= 5,
            order@ == providers_by_label(),
            r@ == summary_upto(tracks@, k as nat),
        decreases 5 - k,
    {
        let kind = order[k];
        let n = count_provider(tracks, kind);
        if n > 0 {
            r.push(SourceInfo { kind, count: n });
        }
        k += 1;
    }
    r
}

/// Moving the selection never leaves a non-empty queue, and moving down then up
/// by the same step returns to the start when neither end is reached.
pub proof fn law_selection_stays_in_queue(selected: nat, delta: int, len: nat)
    requires
        len > 0,
        selected < len,
    ensures
        spec_move_selection(selected, delta, len) < len,
        delta > 0 && selected + delta < len ==> spec_move_selection(
            spec_move_selection(selected, delta, len),
            -delta,
            len,
        ) == selected,
{
}

} // verus!
