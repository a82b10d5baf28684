//! Internet radio: M3U and PLS playlists, and the user's saved stations.

use vstd::prelude::*;
use vstd::string::*;

use crate::music::{id_after, spec_next_id, take_id, ProviderKind, TrackMeta};
use crate::text::{
    chars_of, contains, contains_str, ends_with, equals_str, find_char, find_from,
    lemma_find_from_bounds, lemma_rfind_before_bounds, lower, lower_chars, parse_unsigned,
    parse_usize_chars, rfind_before, rfind_char, slice_chars, split, split_chars, starts_with,
    starts_with_str, string_of, trim, trim_chars,
};

verus! {

/// A saved station of `radios.toml`.
#[derive(Debug)]
pub struct RadioEntry {
    pub name: String,
    pub url: String,
}

impl Clone for RadioEntry {
    fn clone(&self) -> (c: Self)
        ensures
            c == *self,
    {
        RadioEntry { name: self.name.clone(), url: self.url.clone() }
    }
}

// ---------------------------------------------------------------------------
// Track shapes
// ---------------------------------------------------------------------------

/// A radio track with the given id, title and address.
pub open spec fn is_station_track(t: TrackMeta, id: u64, title: Seq<char>, url: Seq<char>) -> bool {
    &&& t.id == id
    &&& t.title@ == title
    &&& t.artist@ == "Radio"@
    &&& t.duration is None
    &&& t.provider == ProviderKind::Radio
    &&& t.path_or_url@ == url
}

/// `tracks` are the stations `entries` (title, address), numbered from `base`.
pub open spec fn are_station_tracks(
    tracks: Seq<TrackMeta>,
    entries: Seq<(Seq<char>, Seq<char>)>,
    base: u64,
) -> bool {
    &&& tracks.len() == entries.len()
    &&& forall|i: int|
        0 <= i < tracks.len() ==> is_station_track(
            #[trigger] tracks[i],
            id_after(base, i as nat),
            entries[i].0,
            entries[i].1,
        )
}

fn station_track(title: String, url: String, next_id: &mut u64) -> (t: TrackMeta)
    ensures
        is_station_track(t, *old(next_id), title@, url@),
        *final(next_id) == spec_next_id(*old(next_id)),
{
    let id = take_id(next_id);
    TrackMeta {
        id,
        title,
        artist: String::from_str("Radio"),
        duration: None,
        provider: ProviderKind::Radio,
        path_or_url: url,
    }
}

// ---------------------------------------------------------------------------
// Names from addresses
// ---------------------------------------------------------------------------

/// The last path segment of `url`, without its query string.
pub open spec fn spec_name_from_url(url: Seq<char>) -> Seq<char> {
    let tail = url.skip(rfind_before(url, '/', url.len() as int) + 1);
    tail.take(find_from(tail, '?', 0))
}

/// The last path segment of `url`, without its query string.
pub fn extract_name_from_url(url: &str) -> (r: String)
    ensures
        r@ == spec_name_from_url(url@),
{
    let v = chars_of(url);
    string_of(&name_from_url_chars(&v))
}

fn name_from_url_chars(v: &Vec<char>) -> (r: Vec<char>)
    ensures
        r@ == spec_name_from_url(v@),
{
    proof {
        lemma_rfind_before_bounds(v@, '/', v@.len() as int);
    }
    let n = v.len();
    let start = match rfind_char(v, '/') {
        Some(j) => j + 1,
        None => 0,
    };
    let tail = slice_chars(v, start, v.len());
    assert(tail@ =~= v@.skip(rfind_before(v@, '/', v@.len() as int) + 1));
    let q = find_char(&tail, '?', 0);
    let r = slice_chars(&tail, 0, q);
    assert(r@ =~= tail@.take(q as int));
    r
}

// ---------------------------------------------------------------------------
// M3U
// ---------------------------------------------------------------------------

/// The state of the M3U reader: stations so far (title, address), and the title
/// announced by the last `#EXTINF` line.
pub type M3uState = (Seq<(Seq<char>, Seq<char>)>, Option<Seq<char>>);

/// One line of an M3U playlist.
pub open spec fn m3u_step(st: M3uState, raw: Seq<char>) -> M3uState {
    let line = trim(raw);
    if line.len() == 0 || line == "#EXTM3U"@ {
        st
    } else if starts_with(line, "#EXTINF:"@) {
        let rest = line.skip("#EXTINF:"@.len() as int);
        let c = find_from(rest, ',', 0);
        if c < rest.len() {
            (st.0, Some(trim(rest.skip(c + 1))))
        } else {
            st
        }
    } else if line[0] == '#' {
        st
    } else {
        let title = match st.1 {
            Some(t) => t,
            None => spec_name_from_url(line),
        };
        (st.0.push((title, line)), None)
    }
}

pub open spec fn m3u_fold(lines: Seq<Seq<char>>) -> M3uState
    decreases lines.len(),
{
    if lines.len() == 0 {
        (Seq::empty(), None)
    } else {
        m3u_step(m3u_fold(lines.drop_last()), lines.last())
    }
}

/// The stations (title, address) of an M3U playlist, in order.
pub open spec fn spec_parse_m3u(content: Seq<char>) -> Seq<(Seq<char>, Seq<char>)> {
    m3u_fold(split(content, '\n')).0
}

/// Reads an M3U playlist: one track per address line, titled by the preceding
/// `#EXTINF` line or else by the address; ids are taken from `next_id`.
pub fn parse_m3u(content: &str, next_id: &mut u64) -> (tracks: Vec<TrackMeta>)
    ensures
        are_station_tracks(tracks@, spec_parse_m3u(content@), *old(next_id)),
        *final(next_id) == id_after(*old(next_id), tracks@.len()),
{
    let v = chars_of(content);
    let lines = split_chars(&v, '\n');
    let ghost lv = lines@.map_values(|p: Vec<char>| p@);
    let ghost base = *next_id;
    let extinf = chars_of("#EXTINF:");
    let mut tracks: Vec<TrackMeta> = Vec::new();
    let mut pending: Option<Vec<char>> = None;
    let mut i: usize = 0;
    while i < lines.len()
        invariant
            i <= lines.len(),
            lv == lines@.map_values(|p: Vec<char>| p@),
            lv == split(content@, '\n'),
            extinf@ == "#EXTINF:"@,
            m3u_fold(lv.take(i as int)).0 == tracks@.map_values(
                |t: TrackMeta| (t.title@, t.path_or_url@),
            ),
            m3u_fold(lv.take(i as int)).1 == match pending {
                Some(p) => Some(p@),
                None => None,
            },
            are_station_tracks(tracks@, m3u_fold(lv.take(i as int)).0, base),
            *next_id == id_after(base, tracks@.len()),
        decreases lines.len() - i,
    {
        let ghost before = m3u_fold(lv.take(i as int));
        let ghost old_tracks = tracks@;
        assert(lv.take(i + 1).drop_last() =~= lv.take(i as int));
        assert(lv.take(i + 1).last() == lines@[i as int]@);
        let line = trim_chars(&lines[i]);
        if line.len() == 0 || equals_str(&line, "#EXTM3U") {
        } else if starts_with_str(&line, "#EXTINF:") {
            let rest = slice_chars(&line, extinf.len(), line.len());
            assert(rest@ =~= line@.skip("#EXTINF:"@.len() as int));
            let c = find_char(&rest, ',', 0);
            if c < rest.len() {
                let after = slice_chars(&rest, c + 1, rest.len());
                assert(after@ =~= rest@.skip(c + 1));
                pending = Some(trim_chars(&after));
            }
        } else if line[0] == '#' {
        } else {
            let title = match pending {
                Some(p) => string_of(&p),
                None => string_of(&name_from_url_chars(&line)),
            };
            let t = station_track(title, string_of(&line), next_id);
            tracks.push(t);
            pending = None;
            proof {
                assert(tracks@.map_values(|t: TrackMeta| (t.title@, t.path_or_url@)) =~= old_tracks.map_values(
                    |t: TrackMeta| (t.title@, t.path_or_url@),
                ).push((t.title@, t.path_or_url@)));
                assert(id_after(base, tracks@.len()) == spec_next_id(id_after(base, old_tracks.len())));
            }
        }
        i += 1;
    }
    assert(lv.take(lines.len() as int) =~= lv);
    tracks
}

// ---------------------------------------------------------------------------
// PLS
// ---------------------------------------------------------------------------

/// What one line of a PLS playlist declares.
pub enum PlsLine {
    File(nat, Seq<char>),
    Title(nat, Seq<char>),
    Neither,
}

/// `<prefix><number>=<value>`: the number and the trimmed value, if the number parses.
pub open spec fn pls_keyed(line: Seq<char>, prefix: Seq<char>) -> Option<(nat, Seq<char>)> {
    let rest = line.skip(prefix.len() as int);
    let e = find_from(rest, '=', 0);
    if e < rest.len() {
        match parse_unsigned(trim(rest.take(e)), usize::MAX as int) {
            Some(n) => Some((n as nat, trim(rest.skip(e + 1)))),
            None => None,
        }
    } else {
        None
    }
}

pub open spec fn pls_line(raw: Seq<char>) -> PlsLine {
    let line = trim(raw);
    if starts_with(line, "File"@) {
        match pls_keyed(line, "File"@) {
            Some(kv) => PlsLine::File(kv.0, kv.1),
            None => PlsLine::Neither,
        }
    } else if starts_with(line, "Title"@) {
        match pls_keyed(line, "Title"@) {
            Some(kv) => PlsLine::Title(kv.0, kv.1),
            None => PlsLine::Neither,
        }
    } else {
        PlsLine::Neither
    }
}

/// The `File<n>=` entries of the lines, in order.
pub open spec fn pls_files(lines: Seq<Seq<char>>) -> Seq<(nat, Seq<char>)>
    decreases lines.len(),
{
    if lines.len() == 0 {
        Seq::empty()
    } else {
        let prev = pls_files(lines.drop_last());
        match pls_line(lines.last()) {
            PlsLine::File(n, u) => prev.push((n, u)),
            _ => prev,
        }
    }
}

/// The `Title<n>=` entries of the lines, in order.
pub open spec fn pls_titles(lines: Seq<Seq<char>>) -> Seq<(nat, Seq<char>)>
    decreases lines.len(),
{
    if lines.len() == 0 {
        Seq::empty()
    } else {
        let prev = pls_titles(lines.drop_last());
        match pls_line(lines.last()) {
            PlsLine::Title(n, t) => prev.push((n, t)),
            _ => prev,
        }
    }
}

/// Index of the first entry of `s` at or after `i` whose number exceeds `key`.
pub open spec fn first_greater(s: Seq<(nat, Seq<char>)>, key: nat, i: int) -> int
    decreases s.len() - i,
{
    if i >= s.len() || i < 0 || s[i].0 > key {
        i
    } else {
        first_greater(s, key, i + 1)
    }
}

/// Inserts `x` after every entry whose number is at most its own.
pub open spec fn insert_by_number(s: Seq<(nat, Seq<char>)>, x: (nat, Seq<char>)) -> Seq<
    (nat, Seq<char>),
> {
    s.insert(first_greater(s, x.0, 0), x)
}

/// The entries sorted by number, keeping the order of entries with equal numbers
/// (`sort_by_key`, a stable sort).
pub open spec fn sort_by_number(s: Seq<(nat, Seq<char>)>) -> Seq<(nat, Seq<char>)>
    decreases s.len(),
{
    if s.len() == 0 {
        s
    } else {
        insert_by_number(sort_by_number(s.drop_last()), s.last())
    }
}

/// The title of the first `Title<n>=` entry numbered `n`.
pub open spec fn title_for(titles: Seq<(nat, Seq<char>)>, n: nat, i: int) -> Option<Seq<char>>
    decreases titles.len() - i,
{
    if i < 0 || i >= titles.len() {
        None
    } else if titles[i].0 == n {
        Some(titles[i].1)
    } else {
        title_for(titles, n, i + 1)
    }
}

/// The stations (title, address) of a PLS playlist: the `File` entries sorted by
/// number, each titled by its `Title` entry or else by its address.
pub open spec fn spec_parse_pls(content: Seq<char>) -> Seq<(Seq<char>, Seq<char>)> {
    let lines = split(content, '\n');
    let files = sort_by_number(pls_files(lines));
    let titles = pls_titles(lines);
    files.map_values(
        |f: (nat, Seq<char>)|
            (
                match title_for(titles, f.0, 0) {
                    Some(t) => t,
                    None => spec_name_from_url(f.1),
                },
                f.1,
            ),
    )
}

fn pls_keyed_exec(line: &Vec<char>, prefix_len: usize) -> (r: Option<(usize, Vec<char>)>)
    requires
        prefix_len <= line@.len(),
    ensures
        ({
            let prefix = line@.take(prefix_len as int);
            match r {
                Some(kv) => pls_keyed(line@, prefix) == Some((kv.0 as nat, kv.1@)),
                None => pls_keyed(line@, prefix) is None,
            }
        }),
{
    let ghost prefix = line@.take(prefix_len as int);
    let rest = slice_chars(line, prefix_len, line.len());
    assert(rest@ =~= line@.skip(prefix.len() as int));
    let e = find_char(&rest, '=', 0);
    if e >= rest.len() {
        return None;
    }
    let num_raw = slice_chars(&rest, 0, e);
    assert(num_raw@ =~= rest@.take(e as int));
    let num = trim_chars(&num_raw);
    match parse_usize_chars(&num) {
        Some(n) => {
            let value_raw = slice_chars(&rest, e + 1, rest.len());
            assert(value_raw@ =~= rest@.skip(e + 1));
            Some((n, trim_chars(&value_raw)))
        },
        None => None,
    }
}

fn pls_line_exec(raw: &Vec<char>) -> (r: (u8, usize, Vec<char>))
    ensures
        match pls_line(raw@) {
            PlsLine::File(n, u) => r.0 == 1 && r.1 == n && r.2@ == u,
            PlsLine::Title(n, t) => r.0 == 2 && r.1 == n && r.2@ == t,
            PlsLine::Neither => r.0 == 0,
        },
{
    let line = trim_chars(raw);
    if starts_with_str(&line, "File") {
        let p = chars_of("File");
        match pls_keyed_exec(&line, p.len()) {
            Some((n, u)) => (1, n, u),
            None => (0, 0, Vec::new()),
        }
    } else if starts_with_str(&line, "Title") {
        let p = chars_of("Title");
        match pls_keyed_exec(&line, p.len()) {
            Some((n, t)) => (2, n, t),
            None => (0, 0, Vec::new()),
        }
    } else {
        (0, 0, Vec::new())
    }
}

pub open spec fn numbered_view(v: Seq<(usize, Vec<char>)>) -> Seq<(nat, Seq<char>)> {
    v.map_values(|e: (usize, Vec<char>)| (e.0 as nat, e.1@))
}

/// Inserts `x` into `sorted` after every entry numbered at most `x.0`.
fn insert_numbered(sorted: &mut Vec<(usize, Vec<char>)>, x: (usize, Vec<char>))
    ensures
        numbered_view(final(sorted)@) == insert_by_number(
            numbered_view(old(sorted)@),
            (x.0 as nat, x.1@),
        ),
{
    let ghost s = numbered_view(sorted@);
    let mut p: usize = 0;
    while p < sorted.len() && sorted[p].0 <= x.0
        invariant
            p <= sorted@.len(),
            s == numbered_view(sorted@),
            first_greater(s, x.0 as nat, p as int) == first_greater(s, x.0 as nat, 0),
        decreases sorted.len() - p,
    {
        p += 1;
    }
    let ghost xv = (x.0 as nat, x.1@);
    sorted.insert(p, x);
    assert(numbered_view(sorted@) =~= s.insert(p as int, xv));
}

/// Reads a PLS playlist: one track per `File<n>=` entry, ordered by `n`, titled
/// by the matching `Title<n>=` entry or else by the address; ids from `next_id`.
pub fn parse_pls(content: &str, next_id: &mut u64) -> (tracks: Vec<TrackMeta>)
    ensures
        are_station_tracks(tracks@, spec_parse_pls(content@), *old(next_id)),
        *final(next_id) == id_after(*old(next_id), tracks@.len()),
{
    let v = chars_of(content);
    let lines = split_chars(&v, '\n');
    let ghost lv = lines@.map_values(|p: Vec<char>| p@);
    let mut urls: Vec<(usize, Vec<char>)> = Vec::new();
    let mut titles: Vec<(usize, Vec<char>)> = Vec::new();
    let mut i: usize = 0;
    while i < lines.len()
        invariant
            i <= lines.len(),
            lv == lines@.map_values(|p: Vec<char>| p@),
            lv == split(content@, '\n'),
            numbered_view(urls@) == sort_by_number(pls_files(lv.take(i as int))),
            numbered_view(titles@) == pls_titles(lv.take(i as int)),
        decreases lines.len() - i,
    {
        assert(lv.take(i + 1).drop_last() =~= lv.take(i as int));
        assert(lv.take(i + 1).last() == lines@[i as int]@);
        let ghost prev_files = pls_files(lv.take(i as int));
        let ghost prev_titles = pls_titles(lv.take(i as int));
        let (kind, n, value) = pls_line_exec(&lines[i]);
        if kind == 1 {
            let ghost x = (n as nat, value@);
            assert(pls_files(lv.take(i + 1)) == prev_files.push(x));
            assert(prev_files.push(x).drop_last() =~= prev_files);
            assert(pls_titles(lv.take(i + 1)) == prev_titles);
            insert_numbered(&mut urls, (n, value));
        } else if kind == 2 {
            let ghost before = numbered_view(titles@);
            assert(pls_files(lv.take(i + 1)) == prev_files);
            assert(pls_titles(lv.take(i + 1)) == prev_titles.push((n as nat, value@)));
            titles.push((n, value));
            assert(numbered_view(titles@) =~= before.push((n as nat, value@)));
        } else {
            assert(pls_files(lv.take(i + 1)) == prev_files);
            assert(pls_titles(lv.take(i + 1)) == prev_titles);
        }
        i += 1;
    }
    assert(lv.take(lines.len() as int) =~= lv);
    let ghost base = *next_id;
    let ghost files = numbered_view(urls@);
    let ghost tv = numbered_view(titles@);
    let mut tracks: Vec<TrackMeta> = Vec::new();
    let mut k: usize = 0;
    while k < urls.len()
        invariant
            k <= urls.len(),
            files == numbered_view(urls@),
            tv == numbered_view(titles@),
            are_station_tracks(
                tracks@,
                spec_parse_pls(content@).take(k as int),
                base,
            ),
            files == sort_by_number(pls_files(split(content@, '\n'))),
            tv == pls_titles(split(content@, '\n')),
            *next_id == id_after(base, tracks@.len()),
        decreases urls.len() - k,
    {
        let n = urls[k].0;
        let mut t: usize = 0;
        let mut found: Option<usize> = None;
        while t < titles.len()
            invariant_except_break
                found is None,
            invariant
                t <= titles.len(),
                tv == numbered_view(titles@),
                title_for(tv, n as nat, t as int) == title_for(tv, n as nat, 0),
            ensures
                match found {
                    Some(j) => j < titles.len() && title_for(tv, n as nat, 0) == Some(tv[j as int].1),
                    None => title_for(tv, n as nat, 0) is None,
                },
            decreases titles.len() - t,
        {
            if titles[t].0 == n {
                found = Some(t);
                break;
            }
            t += 1;
        }
        let title = match found {
            Some(j) => string_of(&titles[j].1),
            None => string_of(&name_from_url_chars(&urls[k].1)),
        };
        let track = station_track(title, string_of(&urls[k].1), next_id);
        tracks.push(track);
        proof {
            assert(spec_parse_pls(content@).take(k + 1).drop_last() =~= spec_parse_pls(
                content@,
            ).take(k as int));
            assert(id_after(base, tracks@.len()) == spec_next_id(id_after(base, k as nat)));
        }
        k += 1;
    }
    assert(spec_parse_pls(content@).take(urls.len() as int) =~= spec_parse_pls(content@));
    tracks
}

/// A playlist is PLS if it holds a `[playlist]` section (in any case), M3U otherwise.
pub open spec fn spec_parse_playlist(content: Seq<char>) -> Seq<(Seq<char>, Seq<char>)> {
    if contains(lower(content), "[playlist]"@) {
        spec_parse_pls(content)
    } else {
        spec_parse_m3u(content)
    }
}

/// Reads a fetched playlist, PLS or M3U according to its content.
pub fn parse_playlist_content(content: &str, next_id: &mut u64) -> (tracks: Vec<TrackMeta>)
    ensures
        are_station_tracks(tracks@, spec_parse_playlist(content@), *old(next_id)),
        *final(next_id) == id_after(*old(next_id), tracks@.len()),
{
    let v = chars_of(content);
    let lowered = lower_chars(&v);
    if contains_str(&lowered, "[playlist]") {
        parse_pls(content, next_id)
    } else {
        parse_m3u(content, next_id)
    }
}

/// Whether a playlist location is fetched over HTTP (else it is read from disk).
pub fn is_remote_playlist(url_or_path: &str) -> (r: bool)
    ensures
        r == (starts_with(url_or_path@, "http://"@) || starts_with(url_or_path@, "https://"@)),
{
    let v = chars_of(url_or_path);
    starts_with_str(&v, "http://") || starts_with_str(&v, "https://")
}

// ---------------------------------------------------------------------------
// Saved stations
// ---------------------------------------------------------------------------

pub open spec fn entry_pairs(entries: Seq<RadioEntry>) -> Seq<(Seq<char>, Seq<char>)> {
    entries.map_values(|e: RadioEntry| (e.name@, e.url@))
}

/// The saved stations as radio tracks, in file order, numbered from `next_id`.
pub fn load_radio_stations(entries: &[RadioEntry], next_id: &mut u64) -> (tracks: Vec<TrackMeta>)
    ensures
        are_station_tracks(tracks@, entry_pairs(entries@), *old(next_id)),
        *final(next_id) == id_after(*old(next_id), tracks@.len()),
{
    let ghost base = *next_id;
    let mut tracks: Vec<TrackMeta> = Vec::new();
    let mut i: usize = 0;
    while i < entries.len()
        invariant
            i <= entries.len(),
            are_station_tracks(tracks@, entry_pairs(entries@).take(i as int), base),
            *next_id == id_after(base, tracks@.len()),
        decreases entries.len() - i,
    {
        let e = &entries[i];
        let t = station_track(e.name.clone(), e.url.clone(), next_id);
        tracks.push(t);
        proof {
            assert(entry_pairs(entries@).take(i + 1).drop_last() =~= entry_pairs(entries@).take(
                i as int,
            ));
            assert(id_after(base, tracks@.len()) == spec_next_id(id_after(base, i as nat)));
        }
        i += 1;
    }
    assert(entry_pairs(entries@).take(entries.len() as int) =~= entry_pairs(entries@));
    tracks
}

/// Saved station names and URLs (for `:station list`).
pub fn list_station_names(entries: &[RadioEntry]) -> (r: Vec<(String, String)>)
    ensures
        r@.map_values(|p: (String, String)| (p.0@, p.1@)) == entry_pairs(entries@),
{
    let mut r: Vec<(String, String)> = Vec::new();
    let mut i: usize = 0;
    while i < entries.len()
        invariant
            i <= entries.len(),
            r@.map_values(|p: (String, String)| (p.0@, p.1@)) == entry_pairs(entries@).take(
                i as int,
            ),
        decreases entries.len() - i,
    {
        let ghost before = r@;
        let pair = (entries[i].name.clone(), entries[i].url.clone());
        r.push(pair);
        assert(r@ == before.push(pair));
        assert(entry_pairs(entries@).take(i + 1) =~= entry_pairs(entries@).take(i as int).push(
            (entries@[i as int].name@, entries@[i as int].url@),
        ));
        assert(r@.map_values(|p: (String, String)| (p.0@, p.1@)) =~= before.map_values(
            |p: (String, String)| (p.0@, p.1@),
        ).push((pair.0@, pair.1@)));
        i += 1;
    }
    assert(entry_pairs(entries@).take(entries.len() as int) =~= entry_pairs(entries@));
    r
}

/// Saving a station: a station of the same name gets the new address, else the
/// station is added at the end.
pub open spec fn spec_save_station(entries: Seq<(Seq<char>, Seq<char>)>, name: Seq<char>, url: Seq<char>) -> Seq<(Seq<char>, Seq<char>)> {
    let k = first_named(entries, name, 0);
    if k < entries.len() {
        entries.update(k, (name, url))
    } else {
        entries.push((name, url))
    }
}

/// Index of the first station at or after `i` called `name`, or the length.
pub open spec fn first_named(entries: Seq<(Seq<char>, Seq<char>)>, name: Seq<char>, i: int) -> int
    decreases entries.len() - i,
{
    if i < 0 || i >= entries.len() || entries[i].0 == name {
        i
    } else {
        first_named(entries, name, i + 1)
    }
}

/// Adds a station, or gives a station of the same name the new address.
pub fn save_station(entries: &mut Vec<RadioEntry>, name: &str, url: &str)
    ensures
        entry_pairs(final(entries)@) == spec_save_station(entry_pairs(old(entries)@), name@, url@),
{
    let ghost pairs = entry_pairs(entries@);
    let name_s = String::from_str(name);
    let mut k: usize = 0;
    while k < entries.len() && !entries[k].name.eq(&name_s)
        invariant
            k <= entries.len(),
            pairs == entry_pairs(entries@),
            name_s@ == name@,
            first_named(pairs, name@, k as int) == first_named(pairs, name@, 0),
        decreases entries.len() - k,
    {
        k += 1;
    }
    if k < entries.len() {
        let old_entry = entries.remove(k);
        entries.insert(k, RadioEntry { name: old_entry.name, url: String::from_str(url) });
        assert(entry_pairs(entries@) =~= pairs.update(k as int, (name@, url@)));
    } else {
        entries.push(RadioEntry { name: name_s, url: String::from_str(url) });
        assert(entry_pairs(entries@) =~= pairs.push((name@, url@)));
    }
}

/// The stations that are not called `name`, in order.
pub open spec fn spec_remove_station(entries: Seq<(Seq<char>, Seq<char>)>, name: Seq<char>) -> Seq<(Seq<char>, Seq<char>)> {
    entries.filter(not_named(name))
}

pub open spec fn not_named(name: Seq<char>) -> spec_fn((Seq<char>, Seq<char>)) -> bool {
    |e: (Seq<char>, Seq<char>)| e.0 != name
}

/// Removes every station called `name`; returns whether there was one.
pub fn remove_station(entries: &mut Vec<RadioEntry>, name: &str) -> (found: bool)
    ensures
        entry_pairs(final(entries)@) == spec_remove_station(entry_pairs(old(entries)@), name@),
        found == (final(entries)@.len() != old(entries)@.len()),
{
    let ghost pairs = entry_pairs(entries@);
    let name_s = String::from_str(name);
    let before = entries.len();
    let mut kept: Vec<RadioEntry> = Vec::new();
    let mut i: usize = 0;
    while i < entries.len()
        invariant
            i <= entries.len(),
            before == entries@.len(),
            pairs == entry_pairs(entries@),
            name_s@ == name@,
            entry_pairs(kept@) == pairs.take(i as int).filter(not_named(name@)),
            kept@.len() <= i,
        decreases entries.len() - i,
    {
        reveal_with_fuel(Seq::<_>::filter, 1);
        assert(pairs.take(i + 1).drop_last() =~= pairs.take(i as int));
        assert(pairs.take(i + 1).last() == pairs[i as int]);
        let ghost prev = pairs.take(i as int).filter(not_named(name@));
        assert(pairs.take(i + 1).filter(not_named(name@)) == if not_named(name@)(pairs[i as int]) {
            prev.push(pairs[i as int])
        } else {
            prev
        });
        assert(pairs[i as int] == (entries@[i as int].name@, entries@[i as int].url@));
        assert(not_named(name@)(pairs[i as int]) == (entries@[i as int].name@ != name@));
        let same = entries[i].name.eq(&name_s);
        if !same {
            let ghost kb = entry_pairs(kept@);
            let e = entries[i].clone();
            kept.push(e);
            assert(entry_pairs(kept@) =~= kb.push(pairs[i as int]));
            assert(not_named(name@)(pairs[i as int]));
            assert(entry_pairs(kept@) == pairs.take(i + 1).filter(not_named(name@)));
        } else {
            assert(!not_named(name@)(pairs[i as int]));
            assert(entry_pairs(kept@) == pairs.take(i + 1).filter(not_named(name@)));
        }
        i += 1;
    }
    assert(pairs.take(before as int) =~= pairs);
    let removed = kept.len() != before;
    *entries = kept;
    removed
}

/// Saving a station leaves exactly one more entry, or the same number when the
/// name was taken, and some entry then carries the new address; after removing
/// a name, no station of that name remains.
pub proof fn law_save_then_remove(entries: Seq<(Seq<char>, Seq<char>)>, name: Seq<char>, url: Seq<char>)
    ensures
        ({
            let saved = spec_save_station(entries, name, url);
            let k = first_named(entries, name, 0);
            &&& saved.len() == if k < entries.len() {
                entries.len()
            } else {
                entries.len() + 1
            }
            &&& exists|j: int| 0 <= j < saved.len() && saved[j] == (name, url)
        }),
        forall|j: int|
            0 <= j < spec_remove_station(entries, name).len() ==> #[trigger] spec_remove_station(
                entries,
                name,
            )[j].0 != name,
{
    broadcast use vstd::seq_lib::group_filter_ensures;

    let k = first_named(entries, name, 0);
    lemma_first_named_bounds(entries, name, 0);
    let saved = spec_save_station(entries, name, url);
    if k < entries.len() {
        assert(saved[k] == (name, url));
    } else {
        assert(saved[entries.len() as int] == (name, url));
    }
}

proof fn lemma_first_named_bounds(entries: Seq<(Seq<char>, Seq<char>)>, name: Seq<char>, i: int)
    requires
        0 <= i <= entries.len(),
    ensures
        i <= first_named(entries, name, i) <= entries.len(),
    decreases entries.len() - i,
{
    if i < entries.len() && entries[i].0 != name {
        lemma_first_named_bounds(entries, name, i + 1);
    }
}

} // verus!
