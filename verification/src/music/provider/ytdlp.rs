//! Tracks resolved by yt-dlp: what to keep of the entries that `yt-dlp --dump-json`
//! reports, one JSON object per line.

use std::time::Duration;
use vstd::prelude::*;
use vstd::string::*;

use crate::music::{id_after, spec_next_id, take_id, ProviderKind, TrackMeta};

verus! {

/// One entry of yt-dlp's output; a playlist carries its entries in `entries`.
/// `duration` holds a positive length only.
#[derive(Debug)]
pub struct YtDlpEntry {
    pub title: Option<String>,
    pub uploader: Option<String>,
    pub channel: Option<String>,
    pub duration: Option<Duration>,
    pub url: Option<String>,
    pub entries: Option<Vec<YtDlpEntry>>,
}

/// What a track keeps of an entry: (title, artist, duration, address).
pub type EntryTrack = (Seq<char>, Seq<char>, Option<Duration>, Seq<char>);

/// An entry becomes a track only if it has an address: titled "Untitled" without a
/// title, credited to the uploader, else the channel, else "Unknown".
pub open spec fn spec_entry_track(e: YtDlpEntry) -> Option<EntryTrack> {
    match e.url {
        None => None,
        Some(u) => Some(
            (
                match e.title {
                    Some(t) => t@,
                    None => "Untitled"@,
                },
                match e.uploader {
                    Some(a) => a@,
                    None => match e.channel {
                        Some(c) => c@,
                        None => "Unknown"@,
                    },
                },
                e.duration,
                u@,
            ),
        ),
    }
}

/// The tracks of a list of entries, in order.
pub open spec fn entries_tracks(es: Seq<YtDlpEntry>) -> Seq<EntryTrack>
    decreases es.len(),
{
    if es.len() == 0 {
        Seq::empty()
    } else {
        let prev = entries_tracks(es.drop_last());
        match spec_entry_track(es.last()) {
            Some(t) => prev.push(t),
            None => prev,
        }
    }
}

/// The tracks of yt-dlp's output lines: a playlist line stands for its entries,
/// any other line for itself.
pub open spec fn lines_tracks(lines: Seq<YtDlpEntry>) -> Seq<EntryTrack>
    decreases lines.len(),
{
    if lines.len() == 0 {
        Seq::empty()
    } else {
        let last = lines.last();
        lines_tracks(lines.drop_last()) + match last.entries {
            Some(subs) => entries_tracks(subs@),
            None => entries_tracks(seq![last]),
        }
    }
}

pub open spec fn is_ytdlp_track(t: TrackMeta, id: u64, e: EntryTrack) -> bool {
    &&& t.id == id
    &&& t.title@ == e.0
    &&& t.artist@ == e.1
    &&& t.duration == e.2
    &&& t.provider == ProviderKind::YtDlp
    &&& t.path_or_url@ == e.3
}

pub open spec fn are_ytdlp_tracks(tracks: Seq<TrackMeta>, es: Seq<EntryTrack>, base: u64) -> bool {
    &&& tracks.len() == es.len()
    &&& forall|i: int|
        0 <= i < tracks.len() ==> is_ytdlp_track(#[trigger] tracks[i], id_after(base, i as nat), es[i])
}

/// The track of one entry, if it has an address.
pub fn entry_to_track(entry: &YtDlpEntry, next_id: &mut u64) -> (r: Option<TrackMeta>)
    ensures
        match spec_entry_track(*entry) {
            Some(e) => r matches Some(t) && is_ytdlp_track(t, *old(next_id), e) && *final(next_id)
                == spec_next_id(*old(next_id)),
            None => r is None && *final(next_id) == *old(next_id),
        },
{
    let url = match &entry.url {
        Some(u) => u.clone(),
        None => return None,
    };
    let title = match &entry.title {
        Some(t) => t.clone(),
        None => String::from_str("Untitled"),
    };
    let artist = match &entry.uploader {
        Some(a) => a.clone(),
        None => match &entry.channel {
            Some(c) => c.clone(),
            None => String::from_str("Unknown"),
        },
    };
    let id = take_id(next_id);
    Some(
        TrackMeta {
            id,
            title,
            artist,
            duration: entry.duration,
            provider: ProviderKind::YtDlp,
            path_or_url: url,
        },
    )
}

fn push_entry_tracks(
    entries: &[YtDlpEntry],
    tracks: &mut Vec<TrackMeta>,
    base: Ghost<u64>,
    done: Ghost<Seq<EntryTrack>>,
    next_id: &mut u64,
)
    requires
        are_ytdlp_tracks(old(tracks)@, done@, base@),
        *old(next_id) == id_after(base@, old(tracks)@.len()),
    ensures
        are_ytdlp_tracks(final(tracks)@, done@ + entries_tracks(entries@), base@),
        *final(next_id) == id_after(base@, final(tracks)@.len()),
{
    let mut i: usize = 0;
    while i < entries.len()
        invariant
            i <= entries.len(),
            are_ytdlp_tracks(tracks@, done@ + entries_tracks(entries@.take(i as int)), base@),
            *next_id == id_after(base@, tracks@.len()),
        decreases entries.len() - i,
    {
        assert(entries@.take(i + 1).drop_last() =~= entries@.take(i as int));
        let ghost prev = done@ + entries_tracks(entries@.take(i as int));
        let ghost n = tracks@.len();
        match entry_to_track(&entries[i], next_id) {
            Some(t) => {
                tracks.push(t);
                assert(done@ + entries_tracks(entries@.take(i + 1)) =~= prev.push(
                    spec_entry_track(entries@[i as int])->0,
                ));
                assert(id_after(base@, tracks@.len()) == spec_next_id(id_after(base@, n)));
            },
            None => {
                assert(done@ + entries_tracks(entries@.take(i + 1)) =~= prev);
            },
        }
        i += 1;
    }
    assert(entries@.take(entries.len() as int) =~= entries@);
}

/// The tracks of yt-dlp's output, one parsed entry per output line; ids from `next_id`.
pub fn tracks_from_entries(lines: &[YtDlpEntry], next_id: &mut u64) -> (tracks: Vec<TrackMeta>)
    ensures
        are_ytdlp_tracks(tracks@, lines_tracks(lines@), *old(next_id)),
        *final(next_id) == id_after(*old(next_id), tracks@.len()),
{
    let ghost base = *next_id;
    let mut tracks: Vec<TrackMeta> = Vec::new();
    let mut i: usize = 0;
    while i < lines.len()
        invariant
            i <= lines.len(),
            are_ytdlp_tracks(tracks@, lines_tracks(lines@.take(i as int)), base),
            *next_id == id_after(base, tracks@.len()),
        decreases lines.len() - i,
    {
        assert(lines@.take(i + 1).drop_last() =~= lines@.take(i as int));
        let ghost done = lines_tracks(lines@.take(i as int));
        match &lines[i].entries {
            Some(subs) => {
                push_entry_tracks(subs.as_slice(), &mut tracks, Ghost(base), Ghost(done), next_id);
            },
            None => {
                let ghost n = tracks@.len();
                let ghost single = seq![lines@[i as int]];
                assert(single.drop_last() =~= Seq::<YtDlpEntry>::empty());
                assert(single.last() == lines@[i as int]);
                assert(entries_tracks(Seq::<YtDlpEntry>::empty()) == Seq::<EntryTrack>::empty());
                assert(entries_tracks(single) == match spec_entry_track(lines@[i as int]) {
                    Some(t) => Seq::<EntryTrack>::empty().push(t),
                    None => Seq::<EntryTrack>::empty(),
                });
                match entry_to_track(&lines[i], next_id) {
                    Some(t) => {
                        tracks.push(t);
                        assert(done + entries_tracks(single) =~= done.push(
                            spec_entry_track(lines@[i as int])->0,
                        ));
                        assert(id_after(base, tracks@.len()) == spec_next_id(id_after(base, n)));
                    },
                    None => {
                        assert(done + entries_tracks(single) =~= done);
                    },
                }
            },
        }
        i += 1;
    }
    assert(lines@.take(lines.len() as int) =~= lines@);
    tracks
}

} // verus!
