//! Turning what the user names (paths and URLs) into typed inputs and tracks.

use vstd::prelude::*;
use vstd::string::*;

use super::{id_after, spec_next_id, take_id, InputKind, InputRef, ProviderKind, TrackMeta};
use crate::text::{
    chars_of, contains, contains_str, ends_with, ends_with_str, equals_str, lower, lower_chars,
    starts_with, starts_with_str, string_of,
};

verus! {

// ---------------------------------------------------------------------------
// Classifying inputs
// ---------------------------------------------------------------------------

/// The kind of input that `s` names.
pub open spec fn spec_classify(s: Seq<char>) -> InputKind {
    let l = lower(s);
    if !starts_with(s, "http://"@) && !starts_with(s, "https://"@) {
        if ends_with(l, ".m3u"@) || ends_with(l, ".pls"@) {
            InputKind::Radio
        } else {
            InputKind::Path
        }
    } else if ends_with(l, ".xml"@) || ends_with(l, ".rss"@) || ends_with(l, "/feed"@) || contains(
        l,
        "/feed."@,
    ) || contains(l, "rss"@) || contains(l, "feed.xml"@) {
        InputKind::Podcast
    } else if ends_with(l, ".m3u"@) || ends_with(l, ".m3u8"@) || ends_with(l, ".pls"@) {
        InputKind::Radio
    } else if contains(l, "youtube.com"@) || contains(l, "youtu.be"@) || contains(
        l,
        "soundcloud.com"@,
    ) || contains(l, "bandcamp.com"@) || contains(l, "vimeo.com"@) || contains(
        l,
        "dailymotion.com"@,
    ) || contains(l, "bilibili.com"@) {
        InputKind::YtDlp
    } else {
        InputKind::Url
    }
}

/// Classifies one input: local paths (and local playlists), podcast feeds,
/// remote playlists, yt-dlp sites, and plain HTTP streams.
pub fn classify_input(input: &str) -> (r: InputRef)
    ensures
        r.kind() == spec_classify(input@),
        r.text() == input@,
{
    let v = chars_of(input);
    let l = lower_chars(&v);
    let owned = String::from_str(input);
    if !starts_with_str(&v, "http://") && !starts_with_str(&v, "https://") {
        if ends_with_str(&l, ".m3u") || ends_with_str(&l, ".pls") {
            return InputRef::Radio(owned);
        }
        return InputRef::Path(owned);
    }
    if ends_with_str(&l, ".xml") || ends_with_str(&l, ".rss") || ends_with_str(&l, "/feed")
        || contains_str(&l, "/feed.") || contains_str(&l, "rss") || contains_str(&l, "feed.xml") {
        return InputRef::Podcast(owned);
    }
    if ends_with_str(&l, ".m3u") || ends_with_str(&l, ".m3u8") || ends_with_str(&l, ".pls") {
        return InputRef::Radio(owned);
    }
    if contains_str(&l, "youtube.com") || contains_str(&l, "youtu.be") || contains_str(
        &l,
        "soundcloud.com",
    ) || contains_str(&l, "bandcamp.com") || contains_str(&l, "vimeo.com") || contains_str(
        &l,
        "dailymotion.com",
    ) || contains_str(&l, "bilibili.com") {
        return InputRef::YtDlp(owned);
    }
    InputRef::Url(owned)
}

/// Classify raw CLI inputs into typed `InputRef` variants.
pub fn parse_inputs(raw_inputs: &[String]) -> (r: Vec<InputRef>)
    ensures
        r@.len() == raw_inputs@.len(),
        forall|i: int|
            0 <= i < r@.len() ==> (#[trigger] r@[i]).kind() == spec_classify(raw_inputs@[i]@)
                && r@[i].text() == raw_inputs@[i]@,
{
    let mut r: Vec<InputRef> = Vec::new();
    let mut i: usize = 0;
    while i < raw_inputs.len()
        invariant
            i <= raw_inputs.len(),
            r@.len() == i,
            forall|k: int|
                0 <= k < i ==> (#[trigger] r@[k]).kind() == spec_classify(raw_inputs@[k]@)
                    && r@[k].text() == raw_inputs@[k]@,
        decreases raw_inputs.len() - i,
    {
        r.push(classify_input(raw_inputs[i].as_str()));
        i += 1;
    }
    r
}

/// Whether any of the inputs is a radio playlist (then the saved stations are not added).
pub fn has_radio_input(inputs: &[InputRef]) -> (r: bool)
    ensures
        r == exists|i: int| 0 <= i < inputs@.len() && (#[trigger] inputs@[i]).kind() is Radio,
{
    let mut i: usize = 0;
    while i < inputs.len()
        invariant
            i <= inputs.len(),
            forall|k: int| 0 <= k < i ==> !((#[trigger] inputs@[k]).kind() is Radio),
        decreases inputs.len() - i,
    {
        if let InputRef::Radio(_) = &inputs[i] {
            return true;
        }
        i += 1;
    }
    false
}

// ---------------------------------------------------------------------------
// Tracks of files and streams
// ---------------------------------------------------------------------------

/// `Path::extension`: the part of the file name after its last dot, if any.
pub uninterp spec fn path_extension(path: Seq<char>) -> Option<Seq<char>>;

/// `Path::file_stem`: the file name without its extension, if there is a file name.
pub uninterp spec fn path_file_stem(path: Seq<char>) -> Option<Seq<char>>;

/// `Path::new(path).extension()`, as a string; the path is valid UTF-8, so is its extension.
#[verifier::external_body]
fn extension_of(path: &str) -> (r: Option<String>)
    ensures
        match r {
            Some(e) => path_extension(path@) == Some(e@),
            None => path_extension(path@) is None,
        },
{
    std::path::Path::new(path).extension().and_then(|e| e.to_str()).map(|e| e.to_string())
}

/// `Path::new(path).file_stem()`, as a string.
#[verifier::external_body]
fn file_stem_of(path: &str) -> (r: Option<String>)
    ensures
        match r {
            Some(e) => path_file_stem(path@) == Some(e@),
            None => path_file_stem(path@) is None,
        },
{
    std::path::Path::new(path).file_stem().and_then(|e| e.to_str()).map(|e| e.to_string())
}

/// The audio formats that the player recognises by extension.
pub open spec fn is_audio_extension(ext: Seq<char>) -> bool {
    let l = lower(ext);
    l == "mp3"@ || l == "flac"@ || l == "wav"@ || l == "ogg"@ || l == "m4a"@ || l == "aac"@ || l
        == "opus"@
}

/// Whether `path` names an audio file, judging by its extension (in any case).
pub fn is_audio_file(path: &str) -> (r: bool)
    ensures
        r == (path_extension(path@) matches Some(e) && is_audio_extension(e)),
{
    match extension_of(path) {
        Some(ext) => {
            let l = lower_chars(&chars_of(ext.as_str()));
            equals_str(&l, "mp3") || equals_str(&l, "flac") || equals_str(&l, "wav")
                || equals_str(&l, "ogg") || equals_str(&l, "m4a") || equals_str(&l, "aac")
                || equals_str(&l, "opus")
        },
        None => false,
    }
}

/// A local file track: titled by the file stem ("Untitled" without one).
pub fn new_file_track(path: &str, next_id: &mut u64) -> (t: TrackMeta)
    ensures
        t.id == *old(next_id),
        *final(next_id) == spec_next_id(*old(next_id)),
        t.title@ == match path_file_stem(path@) {
            Some(s) => s,
            None => "Untitled"@,
        },
        t.artist@ == "Local"@,
        t.duration is None,
        t.provider == ProviderKind::Local,
        t.path_or_url@ == path@,
{
    let title = match file_stem_of(path) {
        Some(s) => s,
        None => String::from_str("Untitled"),
    };
    let id = take_id(next_id);
    TrackMeta {
        id,
        title,
        artist: String::from_str("Local"),
        duration: None,
        provider: ProviderKind::Local,
        path_or_url: String::from_str(path),
    }
}

/// A direct HTTP stream: titled by its address.
pub fn new_url_track(url: &str, next_id: &mut u64) -> (t: TrackMeta)
    ensures
        t.id == *old(next_id),
        *final(next_id) == spec_next_id(*old(next_id)),
        t.title@ == url@,
        t.artist@ == "Stream"@,
        t.duration is None,
        t.provider == ProviderKind::HttpStream,
        t.path_or_url@ == url@,
{
    let id = take_id(next_id);
    TrackMeta {
        id,
        title: String::from_str(url),
        artist: String::from_str("Stream"),
        duration: None,
        provider: ProviderKind::HttpStream,
        path_or_url: String::from_str(url),
    }
}

/// The title prefix of the placeholder track that reports a failed source.
pub open spec fn spec_error_prefix(provider: ProviderKind) -> Seq<char> {
    match provider {
        ProviderKind::Podcast => "⚠ Podcast error: "@,
        ProviderKind::YtDlp => "⚠ yt-dlp error: "@,
        _ => "⚠ Radio error: "@,
    }
}

/// A placeholder track that shows why a source (podcast, yt-dlp or radio) failed.
pub fn error_track(provider: ProviderKind, message: &str, source: &str, next_id: &mut u64) -> (t: TrackMeta)
    ensures
        t.id == *old(next_id),
        *final(next_id) == spec_next_id(*old(next_id)),
        t.title@ == spec_error_prefix(provider) + message@,
        t.artist@ == "Error"@,
        t.duration is None,
        t.provider == provider,
        t.path_or_url@ == source@,
{
    let prefix = match provider {
        ProviderKind::Podcast => "⚠ Podcast error: ",
        ProviderKind::YtDlp => "⚠ yt-dlp error: ",
        _ => "⚠ Radio error: ",
    };
    let title = String::from_str(prefix).concat(message);
    let id = take_id(next_id);
    TrackMeta {
        id,
        title,
        artist: String::from_str("Error"),
        duration: None,
        provider,
        path_or_url: String::from_str(source),
    }
}

/// A local file input is a playlist when it ends in `.m3u` or `.pls`, so a
/// classified path never has such an ending; a podcast input is always remote.
pub proof fn law_classify_local_vs_remote(s: Seq<char>)
    ensures
        spec_classify(s) is Path ==> !starts_with(s, "http://"@) && !starts_with(s, "https://"@),
        spec_classify(s) is Podcast || spec_classify(s) is YtDlp || spec_classify(s) is Url
            ==> starts_with(s, "http://"@) || starts_with(s, "https://"@),
{
}

// ---------------------------------------------------------------------------
// Assembling the queue from the sources
// ---------------------------------------------------------------------------

/// What fetching one source gave: its tracks, or why it failed.
#[derive(Debug, Clone)]
pub enum SourceOutcome {
    Found(Vec<TrackMeta>),
    Failed(String),
}

/// The provider that a source's tracks, or its failure, belong to.
pub open spec fn input_provider(input: InputRef) -> ProviderKind {
    match input {
        InputRef::Path(_) => ProviderKind::Local,
        InputRef::Url(_) => ProviderKind::HttpStream,
        InputRef::Podcast(_) => ProviderKind::Podcast,
        InputRef::YtDlp(_) => ProviderKind::YtDlp,
        InputRef::Radio(_) => ProviderKind::Radio,
    }
}

/// Whether a source takes a track id while the queue is assembled: a stream address
/// gets its track, a failed source its error track.
pub open spec fn takes_id(input: InputRef, outcome: SourceOutcome) -> bool {
    input is Url || outcome is Failed
}

/// The ids taken by the first `n` sources.
pub open spec fn ids_taken(inputs: Seq<InputRef>, outcomes: Seq<SourceOutcome>, n: nat) -> nat
    decreases n,
{
    if n == 0 {
        0
    } else {
        ids_taken(inputs, outcomes, (n - 1) as nat) + if takes_id(
            inputs[n - 1],
            outcomes[n - 1],
        ) {
            1nat
        } else {
            0nat
        }
    }
}

/// The stream track for `url`, with id `id`.
pub open spec fn is_url_track(t: TrackMeta, url: Seq<char>, id: u64) -> bool {
    &&& t.id == id
    &&& t.title@ == url
    &&& t.artist@ == "Stream"@
    &&& t.duration is None
    &&& t.provider == ProviderKind::HttpStream
    &&& t.path_or_url@ == url
}

/// The placeholder that reports a failed source, with id `id`.
pub open spec fn is_error_track(t: TrackMeta, input: InputRef, message: Seq<char>, id: u64) -> bool {
    &&& t.id == id
    &&& t.title@ == spec_error_prefix(input_provider(input)) + message
    &&& t.artist@ == "Error"@
    &&& t.duration is None
    &&& t.provider == input_provider(input)
    &&& t.path_or_url@ == input.text()
}

/// The tracks that one source adds to the queue: a stream address its stream track;
/// any other source the tracks found, or the error track when it failed.
pub open spec fn piece_ok(input: InputRef, outcome: SourceOutcome, id: u64, piece: Seq<TrackMeta>) -> bool {
    match input {
        InputRef::Url(u) => piece.len() == 1 && is_url_track(piece[0], u@, id),
        _ => match outcome {
            SourceOutcome::Found(ts) => piece == ts@,
            SourceOutcome::Failed(m) => piece.len() == 1 && is_error_track(piece[0], input, m@, id),
        },
    }
}

/// The pieces one after the other.
pub open spec fn joined(pieces: Seq<Seq<TrackMeta>>) -> Seq<TrackMeta>
    decreases pieces.len(),
{
    if pieces.len() == 0 {
        Seq::empty()
    } else {
        joined(pieces.drop_last()) + pieces.last()
    }
}

/// The queue built from `inputs`: the tracks of each source in the order the sources
/// were given (`outcomes[i]` is what fetching `inputs[i]` gave; a stream address needs
/// no fetching), followed by the saved radio `stations` when no radio source was given.
/// Stream and error tracks take their ids from `next_id`, in order.
pub fn assemble_tracks(
    inputs: &[InputRef],
    outcomes: &[SourceOutcome],
    stations: Vec<TrackMeta>,
    next_id: &mut u64,
) -> (r: Vec<TrackMeta>)
    requires
        outcomes@.len() == inputs@.len(),
        forall|i: int|
            0 <= i < inputs@.len() ==> (#[trigger] outcomes@[i] is Failed) ==> (inputs@[i] is Podcast
                || inputs@[i] is YtDlp || inputs@[i] is Radio),
    ensures
        *final(next_id) == id_after(*old(next_id), ids_taken(inputs@, outcomes@, inputs@.len() as nat)),
        exists|pieces: Seq<Seq<TrackMeta>>|
            {
                &&& pieces.len() == inputs@.len()
                &&& forall|i: int|
                    0 <= i < inputs@.len() ==> piece_ok(
                        inputs@[i],
                        outcomes@[i],
                        id_after(*old(next_id), ids_taken(inputs@, outcomes@, i as nat)),
                        #[trigger] pieces[i],
                    )
                &&& r@ == joined(pieces) + if exists|i: int|
                    0 <= i < inputs@.len() && (#[trigger] inputs@[i]).kind() is Radio {
                    Seq::<TrackMeta>::empty()
                } else {
                    stations@
                }
            },
{
    let ghost base = *next_id;
    let mut out: Vec<TrackMeta> = Vec::new();
    let ghost mut pieces: Seq<Seq<TrackMeta>> = Seq::empty();
    let mut i: usize = 0;
    while i < inputs.len()
        invariant
            i <= inputs@.len(),
            outcomes@.len() == inputs@.len(),
            forall|k: int|
                0 <= k < inputs@.len() ==> (#[trigger] outcomes@[k] is Failed) ==> (inputs@[k] is Podcast
                    || inputs@[k] is YtDlp || inputs@[k] is Radio),
            *next_id == id_after(base, ids_taken(inputs@, outcomes@, i as nat)),
            pieces.len() == i,
            forall|k: int|
                0 <= k < i ==> piece_ok(
                    inputs@[k],
                    outcomes@[k],
                    id_after(base, ids_taken(inputs@, outcomes@, k as nat)),
                    #[trigger] pieces[k],
                ),
            out@ == joined(pieces),
        decreases inputs.len() - i,
    {
        let ghost start = out@;
        let ghost id = *next_id;
        match &inputs[i] {
            InputRef::Url(url) => {
                let t = new_url_track(url.as_str(), next_id);
                out.push(t);
                assert(is_url_track(out@.last(), url@, id));
                assert(out@.subrange(start.len() as int, out@.len() as int) =~= seq![out@.last()]);
            },
            input => match &outcomes[i] {
                SourceOutcome::Found(ts) => {
                    let mut j: usize = 0;
                    while j < ts.len()
                        invariant
                            j <= ts@.len(),
                            out@ == start + ts@.take(j as int),
                        decreases ts.len() - j,
                    {
                        out.push(ts[j].clone());
                        assert(ts@.take(j + 1) =~= ts@.take(j as int).push(ts@[j as int]));
                        j += 1;
                    }
                    assert(ts@.take(ts@.len() as int) =~= ts@);
                    assert(out@.subrange(start.len() as int, out@.len() as int) =~= ts@);
                },
                SourceOutcome::Failed(message) => {
                    let (provider, source) = match input {
                        InputRef::Podcast(s) => (ProviderKind::Podcast, s),
                        InputRef::YtDlp(s) => (ProviderKind::YtDlp, s),
                        InputRef::Radio(s) => (ProviderKind::Radio, s),
                        InputRef::Path(s) => (ProviderKind::Local, s),
                        InputRef::Url(s) => (ProviderKind::HttpStream, s),
                    };
                    let t = error_track(provider, message.as_str(), source.as_str(), next_id);
                    out.push(t);
                    assert(is_error_track(out@.last(), inputs@[i as int], message@, id));
                    assert(out@.subrange(start.len() as int, out@.len() as int) =~= seq![out@.last()]);
                },
            },
        }
        proof {
            let piece = out@.subrange(start.len() as int, out@.len() as int);
            assert(start + piece =~= out@);
            assert(piece_ok(inputs@[i as int], outcomes@[i as int], id, piece));
            let ghost old_pieces = pieces;
            pieces = pieces.push(piece);
            assert(pieces.drop_last() =~= old_pieces);
            assert forall|k: int| 0 <= k < i + 1 implies piece_ok(
                inputs@[k],
                outcomes@[k],
                id_after(base, ids_taken(inputs@, outcomes@, k as nat)),
                #[trigger] pieces[k],
            ) by {
                if k < i {
                    assert(pieces[k] == old_pieces[k]);
                }
            }
        }
        i += 1;
    }
    let has_radio = has_radio_input(inputs);
    if !has_radio {
        let ghost before = out@;
        let ghost saved = stations@;
        let mut stations = stations;
        out.append(&mut stations);
        assert(out@ == before + saved);
    } else {
        assert(out@ =~= out@ + Seq::<TrackMeta>::empty());
    }
    out
}

/// A web address that is neither a feed nor a playlist goes to yt-dlp when it names one
/// of the video and music sites yt-dlp resolves (YouTube, SoundCloud, Bandcamp, Vimeo,
/// Dailymotion, Bilibili), and is played as a plain stream otherwise.
pub proof fn law_sites_go_to_ytdlp(s: Seq<char>)
    requires
        starts_with(s, "http://"@) || starts_with(s, "https://"@),
        !(spec_classify(s) is Podcast),
        !(spec_classify(s) is Radio),
    ensures
        contains(lower(s), "youtube.com"@) ==> spec_classify(s) is YtDlp,
        contains(lower(s), "youtu.be"@) ==> spec_classify(s) is YtDlp,
        contains(lower(s), "soundcloud.com"@) ==> spec_classify(s) is YtDlp,
        contains(lower(s), "bandcamp.com"@) ==> spec_classify(s) is YtDlp,
        contains(lower(s), "vimeo.com"@) ==> spec_classify(s) is YtDlp,
        contains(lower(s), "dailymotion.com"@) ==> spec_classify(s) is YtDlp,
        contains(lower(s), "bilibili.com"@) ==> spec_classify(s) is YtDlp,
        !contains(lower(s), "youtube.com"@) && !contains(lower(s), "youtu.be"@) && !contains(
            lower(s),
            "soundcloud.com"@,
        ) && !contains(lower(s), "bandcamp.com"@) && !contains(lower(s), "vimeo.com"@)
            && !contains(lower(s), "dailymotion.com"@) && !contains(lower(s), "bilibili.com"@)
            ==> spec_classify(s) is Url,
{
}

/// Playlists and feeds: a local path ending in `.m3u` or `.pls` (in any case) is a radio
/// playlist, as is a web address ending in `.m3u`, `.m3u8` or `.pls` that is not a feed;
/// a web address ending in `.xml`, `.rss` or `/feed`, or naming `rss`, is a podcast feed.
pub proof fn law_playlists_and_feeds(s: Seq<char>)
    ensures
        !starts_with(s, "http://"@) && !starts_with(s, "https://"@) && (ends_with(lower(s), ".m3u"@)
            || ends_with(lower(s), ".pls"@)) ==> spec_classify(s) is Radio,
        (starts_with(s, "http://"@) || starts_with(s, "https://"@)) && (ends_with(lower(s), ".xml"@)
            || ends_with(lower(s), ".rss"@) || ends_with(lower(s), "/feed"@) || contains(
            lower(s),
            "rss"@,
        )) ==> spec_classify(s) is Podcast,
        (starts_with(s, "http://"@) || starts_with(s, "https://"@)) && !(spec_classify(s) is Podcast)
            && (ends_with(lower(s), ".m3u"@) || ends_with(lower(s), ".m3u8"@) || ends_with(
            lower(s),
            ".pls"@,
        )) ==> spec_classify(s) is Radio,
{
}

} // verus!
