//! Podcast feeds (RSS and Atom): one track per episode that links an audio file.
//!
//! The XML is tokenised by `quick_xml`; the episodes are picked out of its
//! events by the verified reader `FeedReader`.

use quick_xml::events::{BytesStart, Event};
use quick_xml::reader::Reader;
use vstd::prelude::*;
use vstd::string::*;

use crate::music::{id_after, spec_next_id, take_id, ProviderKind, TrackMeta};
use crate::text::{
    chars_of, contains, contains_str, equals_str, lemma_rfind_before_bounds, lower, lower_chars,
    rfind_before, rfind_char, slice_chars, string_of,
};

verus! {

// ---------------------------------------------------------------------------
// Feed events and the episode reader
// ---------------------------------------------------------------------------

/// A feed event in plain values: tag names in full (with any namespace prefix).
#[derive(Debug, Clone)]
pub enum XmlEvent {
    Start(String, Vec<(String, String)>),
    Empty(String, Vec<(String, String)>),
    Text(String),
    End(String),
    Other,
}

pub enum XmlEventView {
    Start(Seq<char>, Seq<(Seq<char>, Seq<char>)>),
    Empty(Seq<char>, Seq<(Seq<char>, Seq<char>)>),
    Text(Seq<char>),
    End(Seq<char>),
    Other,
}

pub open spec fn attrs_view(a: Seq<(String, String)>) -> Seq<(Seq<char>, Seq<char>)> {
    a.map_values(|p: (String, String)| (p.0@, p.1@))
}

impl View for XmlEvent {
    type V = XmlEventView;

    open spec fn view(&self) -> XmlEventView {
        match self {
            XmlEvent::Start(n, a) => XmlEventView::Start(n@, attrs_view(a@)),
            XmlEvent::Empty(n, a) => XmlEventView::Empty(n@, attrs_view(a@)),
            XmlEvent::Text(t) => XmlEventView::Text(t@),
            XmlEvent::End(n) => XmlEventView::End(n@),
            XmlEvent::Other => XmlEventView::Other,
        }
    }
}

/// The views of a sequence of events.
pub open spec fn event_views(evs: Seq<XmlEvent>) -> Seq<XmlEventView> {
    evs.map_values(|e: XmlEvent| e@)
}

// ---------------------------------------------------------------------------
// The outside tokenizer
// ---------------------------------------------------------------------------

#[verifier::external_type_specification]
#[verifier::external_body]
#[verifier::reject_recursive_types(R)]
pub struct ExXmlReader<R>(Reader<R>);

/// The events that `quick_xml`, with text trimmed, reads from `xml` before its end or
/// its first error, in plain values as `read_xml_event` and `tag_attributes` give
/// them. Tokenising depends on the text alone.
pub uninterp spec fn xml_feed_tokens(xml: Seq<char>) -> Seq<XmlEventView>;

/// The events that `reader` has still to give before its end or its first error: the
/// stream it holds, as a queue holds its items.
pub uninterp spec fn reader_pending(reader: Reader<&[u8]>) -> Seq<XmlEventView>;

/// `Reader::from_str` with `Config::trim_text(true)`: a tokenizer over `xml` that drops
/// leading and trailing whitespace of text and whitespace-only text. It holds the
/// events of `xml`.
#[verifier::external_body]
fn xml_reader(xml: &str) -> (r: Reader<&[u8]>)
    ensures
        reader_pending(r) == xml_feed_tokens(xml@),
{
    let mut reader = Reader::from_str(xml);
    reader.config_mut().trim_text(true);
    reader
}

#[verifier::external_type_specification]
#[verifier::external_body]
pub struct ExBytesStart<'a>(BytesStart<'a>);

/// The well-formed attributes that a start or empty tag holds, in order: keys as text
/// (empty when not UTF-8), values unescaped (empty when they cannot be).
pub uninterp spec fn tag_attributes_of(tag: BytesStart<'_>) -> Seq<(Seq<char>, Seq<char>)>;

/// An event as the tokenizer gives it: names and text already as text, a tag's
/// attributes still inside the tag.
pub enum RawXmlEvent<'a> {
    Start(String, BytesStart<'a>),
    Empty(String, BytesStart<'a>),
    Text(String),
    End(String),
    Other,
}

/// The feed event that a raw event stands for.
pub open spec fn raw_view(e: RawXmlEvent) -> XmlEventView {
    match e {
        RawXmlEvent::Start(n, t) => XmlEventView::Start(n@, tag_attributes_of(t)),
        RawXmlEvent::Empty(n, t) => XmlEventView::Empty(n@, tag_attributes_of(t)),
        RawXmlEvent::Text(t) => XmlEventView::Text(t@),
        RawXmlEvent::End(n) => XmlEventView::End(n@),
        RawXmlEvent::Other => XmlEventView::Other,
    }
}

/// `Reader::read_event`: the next event, or `None` at the end or at an error. Tag
/// names come as text (empty when not UTF-8), text unescaped (empty when it cannot
/// be); events other than tags and text are `Other`. The event given is the first the
/// reader held, and the reader then holds the rest; what it holds after its end is not
/// stated.
#[verifier::external_body]
fn read_xml_event<'a>(reader: &mut Reader<&'a [u8]>) -> (r: Option<RawXmlEvent<'a>>)
    ensures
        match r {
            Some(e) => {
                &&& reader_pending(*old(reader)).len() > 0
                &&& raw_view(e) == reader_pending(*old(reader))[0]
                &&& reader_pending(*final(reader)) == reader_pending(*old(reader)).drop_first()
            },
            None => reader_pending(*old(reader)).len() == 0,
        },
{
    let text = |b: &[u8]| String::from_utf8(b.to_vec()).unwrap_or_default();
    match reader.read_event() {
        Ok(Event::Start(e)) => Some(RawXmlEvent::Start(text(e.name().0), e)),
        Ok(Event::Empty(e)) => Some(RawXmlEvent::Empty(text(e.name().0), e)),
        Ok(Event::Text(e)) => Some(RawXmlEvent::Text(e.unescape().unwrap_or_default().into())),
        Ok(Event::End(e)) => Some(RawXmlEvent::End(text(e.name().0))),
        Ok(Event::Eof) | Err(_) => None,
        Ok(_) => Some(RawXmlEvent::Other),
    }
}

/// `BytesStart::attributes`: the tag's well-formed attributes, keys as text (empty
/// when not UTF-8), values unescaped (empty when they cannot be).
#[verifier::external_body]
fn tag_attributes(tag: &BytesStart) -> (r: Vec<(String, String)>)
    ensures
        attrs_view(r@) == tag_attributes_of(*tag),
{
    tag.attributes().flatten().map(
        |a| (
            String::from_utf8(a.key.as_ref().to_vec()).unwrap_or_default(),
            a.unescape_value().unwrap_or_default().into(),
        ),
    ).collect()
}

/// The feed event in plain values.
fn plain_event(raw: RawXmlEvent) -> (e: XmlEvent)
    ensures
        e@ == raw_view(raw),
{
    match raw {
        RawXmlEvent::Start(n, t) => XmlEvent::Start(n, tag_attributes(&t)),
        RawXmlEvent::Empty(n, t) => XmlEvent::Empty(n, tag_attributes(&t)),
        RawXmlEvent::Text(t) => XmlEvent::Text(t),
        RawXmlEvent::End(n) => XmlEvent::End(n),
        RawXmlEvent::Other => XmlEvent::Other,
    }
}

/// The element name without its namespace prefix (after the last `:`).
pub open spec fn spec_local_name(full: Seq<char>) -> Seq<char> {
    full.skip(rfind_before(full, ':', full.len() as int) + 1)
}

/// Strip XML namespace prefix to get the local element name.
pub fn local_name(full: &str) -> (r: String)
    ensures
        r@ == spec_local_name(full@),
{
    let v = chars_of(full);
    let n = v.len();
    proof {
        lemma_rfind_before_bounds(v@, ':', v@.len() as int);
    }
    let start = match rfind_char(&v, ':') {
        Some(j) => j + 1,
        None => 0,
    };
    let r = slice_chars(&v, start, n);
    assert(r@ =~= spec_local_name(v@));
    string_of(&r)
}

/// Whether an enclosure address looks like audio.
pub open spec fn spec_looks_like_audio(url: Seq<char>) -> bool {
    let l = lower(url);
    contains(l, ".mp3"@) || contains(l, ".m4a"@) || contains(l, ".ogg"@) || contains(l, ".opus"@)
        || contains(l, ".wav"@) || contains(l, ".flac"@) || contains(l, ".aac"@) || contains(
        l,
        "audio"@,
    )
}

pub fn looks_like_audio(url: &str) -> (r: bool)
    ensures
        r == spec_looks_like_audio(url@),
{
    let l = lower_chars(&chars_of(url));
    contains_str(&l, ".mp3") || contains_str(&l, ".m4a") || contains_str(&l, ".ogg")
        || contains_str(&l, ".opus") || contains_str(&l, ".wav") || contains_str(&l, ".flac")
        || contains_str(&l, ".aac") || contains_str(&l, "audio")
}

/// What the episode reader has seen so far.
pub struct FeedState {
    /// Episodes found: (title, artist, audio address).
    pub episodes: Seq<(Seq<char>, Seq<char>, Seq<char>)>,
    pub channel_title: Seq<char>,
    pub in_channel: bool,
    pub in_item: bool,
    pub current_tag: Seq<char>,
    pub item_title: Seq<char>,
    pub item_url: Seq<char>,
}

pub open spec fn feed_start() -> FeedState {
    FeedState {
        episodes: Seq::empty(),
        channel_title: Seq::empty(),
        in_channel: false,
        in_item: false,
        current_tag: Seq::empty(),
        item_title: Seq::empty(),
        item_url: Seq::empty(),
    }
}

/// The first audio address among the attributes of an `enclosure` (`url`) or
/// `link` (`href`) tag, kept only when the item has none yet.
pub open spec fn scan_link_attrs(local: Seq<char>, attrs: Seq<(Seq<char>, Seq<char>)>, url: Seq<char>) -> Seq<char>
    decreases attrs.len(),
{
    if attrs.len() == 0 {
        url
    } else {
        let u = scan_link_attrs(local, attrs.drop_last(), url);
        let a = attrs.last();
        if ((local == "enclosure"@ && a.0 == "url"@) || (local == "link"@ && a.0 == "href"@))
            && spec_looks_like_audio(a.1) && u.len() == 0 {
            a.1
        } else {
            u
        }
    }
}

pub open spec fn is_link_tag(local: Seq<char>) -> bool {
    local == "enclosure"@ || local == "link"@
}

/// One event of the feed.
pub open spec fn feed_step(s: FeedState, ev: XmlEventView) -> FeedState {
    match ev {
        XmlEventView::Start(name, attrs) => {
            let local = spec_local_name(name);
            let s1 = if local == "channel"@ || local == "feed"@ {
                FeedState { in_channel: true, ..s }
            } else if local == "item"@ || local == "entry"@ {
                FeedState { in_item: true, item_title: Seq::empty(), item_url: Seq::empty(), ..s }
            } else if is_link_tag(local) && s.in_item {
                FeedState { item_url: scan_link_attrs(local, attrs, s.item_url), ..s }
            } else {
                s
            };
            FeedState { current_tag: local, ..s1 }
        },
        XmlEventView::Empty(name, attrs) => {
            let local = spec_local_name(name);
            if is_link_tag(local) && s.in_item {
                FeedState { item_url: scan_link_attrs(local, attrs, s.item_url), ..s }
            } else {
                s
            }
        },
        XmlEventView::Text(text) => {
            if s.in_item && s.current_tag == "title"@ && s.item_title.len() == 0 {
                FeedState { item_title: text, ..s }
            } else if s.in_channel && !s.in_item && s.current_tag == "title"@
                && s.channel_title.len() == 0 {
                FeedState { channel_title: text, ..s }
            } else {
                s
            }
        },
        XmlEventView::End(name) => {
            let local = spec_local_name(name);
            let s1 = if local == "item"@ || local == "entry"@ {
                let eps = if s.item_url.len() > 0 {
                    s.episodes.push(
                        (
                            if s.item_title.len() == 0 {
                                "Untitled Episode"@
                            } else {
                                s.item_title
                            },
                            if s.channel_title.len() == 0 {
                                "Podcast"@
                            } else {
                                s.channel_title
                            },
                            s.item_url,
                        ),
                    )
                } else {
                    s.episodes
                };
                FeedState { episodes: eps, in_item: false, ..s }
            } else {
                s
            };
            let s2 = if local == "channel"@ || local == "feed"@ {
                FeedState { in_channel: false, ..s1 }
            } else {
                s1
            };
            FeedState { current_tag: Seq::empty(), ..s2 }
        },
        XmlEventView::Other => s,
    }
}

pub open spec fn feed_fold(evs: Seq<XmlEventView>) -> FeedState
    decreases evs.len(),
{
    if evs.len() == 0 {
        feed_start()
    } else {
        feed_step(feed_fold(evs.drop_last()), evs.last())
    }
}

/// A podcast episode track with the given id, title, artist and address.
pub open spec fn is_episode_track(t: TrackMeta, id: u64, ep: (Seq<char>, Seq<char>, Seq<char>)) -> bool {
    &&& t.id == id
    &&& t.title@ == ep.0
    &&& t.artist@ == ep.1
    &&& t.duration is None
    &&& t.provider == ProviderKind::Podcast
    &&& t.path_or_url@ == ep.2
}

pub open spec fn are_episode_tracks(
    tracks: Seq<TrackMeta>,
    eps: Seq<(Seq<char>, Seq<char>, Seq<char>)>,
    base: u64,
) -> bool {
    &&& tracks.len() == eps.len()
    &&& forall|i: int|
        0 <= i < tracks.len() ==> is_episode_track(#[trigger] tracks[i], id_after(base, i as nat), eps[i])
}

/// The episode reader.
pub struct FeedReader {
    tracks: Vec<TrackMeta>,
    channel_title: String,
    in_channel: bool,
    in_item: bool,
    current_tag: String,
    item_title: String,
    item_url: String,
}

impl FeedReader {
    pub closed spec fn state(&self) -> FeedState {
        FeedState {
            episodes: self.tracks@.map_values(
                |t: TrackMeta| (t.title@, t.artist@, t.path_or_url@),
            ),
            channel_title: self.channel_title@,
            in_channel: self.in_channel,
            in_item: self.in_item,
            current_tag: self.current_tag@,
            item_title: self.item_title@,
            item_url: self.item_url@,
        }
    }

    /// The tracks found, numbered consecutively from `base`.
    pub closed spec fn numbered_from(&self, base: u64) -> bool {
        are_episode_tracks(self.tracks@, self.state().episodes, base)
    }

    pub fn new() -> (r: Self)
        ensures
            r.state() == feed_start(),
            r.numbered_from(0),
    {
        let r = FeedReader {
            tracks: Vec::new(),
            channel_title: String::new(),
            in_channel: false,
            in_item: false,
            current_tag: String::new(),
            item_title: String::new(),
            item_url: String::new(),
        };
        assert(r.state().episodes =~= Seq::empty());
        r
    }

    fn scan_links(local: &String, attrs: &Vec<(String, String)>, url: String) -> (r: String)
        ensures
            r@ == scan_link_attrs(local@, attrs_view(attrs@), url@),
    {
        let mut u = url;
        let lv = chars_of(local.as_str());
        let is_enclosure = equals_str(&lv, "enclosure");
        let is_link = equals_str(&lv, "link");
        let mut i: usize = 0;
        while i < attrs.len()
            invariant
                i <= attrs.len(),
                lv@ == local@,
                is_enclosure == (local@ == "enclosure"@),
                is_link == (local@ == "link"@),
                u@ == scan_link_attrs(local@, attrs_view(attrs@).take(i as int), url@),
            decreases attrs.len() - i,
        {
            let ghost prefix = attrs_view(attrs@).take(i as int);
            assert(attrs_view(attrs@).take(i + 1).drop_last() =~= prefix);
            assert(attrs_view(attrs@).take(i + 1).last() == (attrs@[i as int].0@, attrs@[i as int].1@));
            let key = chars_of(attrs[i].0.as_str());
            let wanted = (is_enclosure && equals_str(&key, "url")) || (is_link && equals_str(
                &key,
                "href",
            ));
            if wanted && looks_like_audio(attrs[i].1.as_str()) && chars_of(u.as_str()).len() == 0 {
                u = attrs[i].1.clone();
            }
            i += 1;
        }
        assert(attrs_view(attrs@).take(attrs.len() as int) =~= attrs_view(attrs@));
        u
    }

    /// Takes in one event of the feed.
    fn feed(&mut self, ev: &XmlEvent, base: Ghost<u64>, next_id: &mut u64)
        requires
            old(self).numbered_from(base@),
            *old(next_id) == id_after(base@, old(self).state().episodes.len()),
        ensures
            final(self).state() == feed_step(old(self).state(), ev@),
            final(self).numbered_from(base@),
            *final(next_id) == id_after(base@, final(self).state().episodes.len()),
    {
        match ev {
            XmlEvent::Start(name, attrs) => {
                let local = local_name(name.as_str());
                let lv = chars_of(local.as_str());
                if equals_str(&lv, "channel") || equals_str(&lv, "feed") {
                    self.in_channel = true;
                } else if equals_str(&lv, "item") || equals_str(&lv, "entry") {
                    self.in_item = true;
                    self.item_title = String::new();
                    self.item_url = String::new();
                } else if (equals_str(&lv, "enclosure") || equals_str(&lv, "link")) && self.in_item {
                    let mut url = String::new();
                    std::mem::swap(&mut url, &mut self.item_url);
                    self.item_url = Self::scan_links(&local, attrs, url);
                }
                self.current_tag = local;
            },
            XmlEvent::Empty(name, attrs) => {
                let local = local_name(name.as_str());
                let lv = chars_of(local.as_str());
                if (equals_str(&lv, "enclosure") || equals_str(&lv, "link")) && self.in_item {
                    let mut url = String::new();
                    std::mem::swap(&mut url, &mut self.item_url);
                    self.item_url = Self::scan_links(&local, attrs, url);
                }
            },
            XmlEvent::Text(text) => {
                let is_title = equals_str(&chars_of(self.current_tag.as_str()), "title");
                if self.in_item && is_title && chars_of(self.item_title.as_str()).len() == 0 {
                    self.item_title = text.clone();
                } else if self.in_channel && !self.in_item && is_title && chars_of(
                    self.channel_title.as_str(),
                ).len() == 0 {
                    self.channel_title = text.clone();
                }
            },
            XmlEvent::End(name) => {
                let local = local_name(name.as_str());
                let lv = chars_of(local.as_str());
                if equals_str(&lv, "item") || equals_str(&lv, "entry") {
                    if chars_of(self.item_url.as_str()).len() > 0 {
                        let title = if chars_of(self.item_title.as_str()).len() == 0 {
                            String::from_str("Untitled Episode")
                        } else {
                            self.item_title.clone()
                        };
                        let artist = if chars_of(self.channel_title.as_str()).len() == 0 {
                            String::from_str("Podcast")
                        } else {
                            self.channel_title.clone()
                        };
                        let ghost old_tracks = self.tracks@;
                        let id = take_id(next_id);
                        let t = TrackMeta {
                            id,
                            title,
                            artist,
                            duration: None,
                            provider: ProviderKind::Podcast,
                            path_or_url: self.item_url.clone(),
                        };
                        self.tracks.push(t);
                        proof {
                            assert(self.tracks@.map_values(
                                |t: TrackMeta| (t.title@, t.artist@, t.path_or_url@),
                            ) =~= old_tracks.map_values(
                                |t: TrackMeta| (t.title@, t.artist@, t.path_or_url@),
                            ).push((t.title@, t.artist@, t.path_or_url@)));
                        }
                    }
                    self.in_item = false;
                }
                if equals_str(&lv, "channel") || equals_str(&lv, "feed") {
                    self.in_channel = false;
                }
                self.current_tag = String::new();
            },
            XmlEvent::Other => {},
        }
    }

    /// The tracks found.
    pub fn finish(self) -> (r: Vec<TrackMeta>)
        ensures
            r@.map_values(|t: TrackMeta| (t.title@, t.artist@, t.path_or_url@)) == self.state().episodes,
            forall|base: u64| self.numbered_from(base) ==> are_episode_tracks(r@, self.state().episodes, base),
    {
        self.tracks
    }
}

/// The episodes of a feed given as its events: one track per `item`/`entry` with
/// an audio enclosure or link, titled by the item's title ("Untitled Episode"
/// without one), by the channel's title ("Podcast" without one); ids from `next_id`.
pub fn podcast_tracks_from_events(events: &[XmlEvent], next_id: &mut u64) -> (tracks: Vec<TrackMeta>)
    ensures
        are_episode_tracks(
            tracks@,
            feed_fold(event_views(events@)).episodes,
            *old(next_id),
        ),
        *final(next_id) == id_after(*old(next_id), tracks@.len()),
{
    let ghost base = *next_id;
    let ghost evs = event_views(events@);
    let mut reader = FeedReader::new();
    assert(reader.state().episodes.len() == 0);
    let mut i: usize = 0;
    while i < events.len()
        invariant
            i <= events.len(),
            evs == event_views(events@),
            reader.state() == feed_fold(evs.take(i as int)),
            reader.numbered_from(base),
            *next_id == id_after(base, reader.state().episodes.len()),
        decreases events.len() - i,
    {
        assert(evs.take(i + 1).drop_last() =~= evs.take(i as int));
        reader.feed(&events[i], Ghost(base), next_id);
        i += 1;
    }
    assert(evs.take(events.len() as int) =~= evs);
    let tracks = reader.finish();
    assert(tracks@.len() == tracks@.map_values(|t: TrackMeta| (t.title@, t.artist@, t.path_or_url@)).len());
    tracks
}

/// Tokenises `xml` into feed events, up to its end or its first error.
pub fn feed_events(xml: &str) -> (evs: Vec<XmlEvent>)
    ensures
        event_views(evs@) == xml_feed_tokens(xml@),
{
    let mut reader = xml_reader(xml);
    let ghost all = xml_feed_tokens(xml@);
    let mut evs: Vec<XmlEvent> = Vec::new();
    loop
        invariant_except_break
            all == event_views(evs@) + reader_pending(reader),
        ensures
            event_views(evs@) == all,
        decreases reader_pending(reader).len(),
    {
        let ghost before = reader_pending(reader);
        match read_xml_event(&mut reader) {
            Some(raw) => {
                let ev = plain_event(raw);
                let ghost old_views = event_views(evs@);
                evs.push(ev);
                assert(event_views(evs@) =~= old_views.push(ev@));
                assert(all =~= event_views(evs@) + reader_pending(reader)) by {
                    assert(before =~= seq![ev@] + before.drop_first());
                }
            },
            None => {
                assert(all =~= event_views(evs@));
                break;
            },
        }
    }
    evs
}

/// Parse an RSS/Atom podcast feed and return one `TrackMeta` per episode that
/// has an `<enclosure>` (or Atom `<link>`) with an audio URL.
pub fn parse_rss(xml: &str, next_id: &mut u64) -> (tracks: Vec<TrackMeta>)
    ensures
        are_episode_tracks(tracks@, feed_fold(xml_feed_tokens(xml@)).episodes, *old(next_id)),
        *final(next_id) == id_after(*old(next_id), tracks@.len()),
{
    let events = feed_events(xml);
    podcast_tracks_from_events(&events, next_id)
}

/// An item closes into at most one episode: the number of episodes never
/// exceeds the number of events.
pub proof fn law_episodes_bounded_by_events(evs: Seq<XmlEventView>)
    ensures
        feed_fold(evs).episodes.len() <= evs.len(),
    decreases evs.len(),
{
    if evs.len() > 0 {
        law_episodes_bounded_by_events(evs.drop_last());
    }
}

/// An address is audio exactly when its lower-cased text names one of the audio
/// extensions `.mp3`, `.m4a`, `.ogg`, `.opus`, `.wav`, `.flac`, `.aac`, or the word
/// `audio`.
pub proof fn law_audio_addresses(url: Seq<char>)
    ensures
        contains(lower(url), ".mp3"@) ==> spec_looks_like_audio(url),
        contains(lower(url), ".m4a"@) ==> spec_looks_like_audio(url),
        contains(lower(url), ".ogg"@) ==> spec_looks_like_audio(url),
        contains(lower(url), ".opus"@) ==> spec_looks_like_audio(url),
        contains(lower(url), ".wav"@) ==> spec_looks_like_audio(url),
        contains(lower(url), ".flac"@) ==> spec_looks_like_audio(url),
        contains(lower(url), ".aac"@) ==> spec_looks_like_audio(url),
        contains(lower(url), "audio"@) ==> spec_looks_like_audio(url),
        spec_looks_like_audio(url) ==> contains(lower(url), ".mp3"@) || contains(lower(url), ".m4a"@)
            || contains(lower(url), ".ogg"@) || contains(lower(url), ".opus"@) || contains(
            lower(url),
            ".wav"@,
        ) || contains(lower(url), ".flac"@) || contains(lower(url), ".aac"@) || contains(
            lower(url),
            "audio"@,
        ),
{
}

} // verus!
