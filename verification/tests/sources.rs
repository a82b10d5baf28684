use std::time::Duration;

use timer::music::library::{
    assemble_tracks, classify_input, error_track, has_radio_input, is_audio_file, new_file_track,
    new_url_track, parse_inputs, SourceOutcome,
};
use timer::music::provider::podcast::{feed_events, looks_like_audio, parse_rss, XmlEvent};
use timer::music::provider::radio::{
    extract_name_from_url, list_station_names, load_radio_stations, parse_m3u,
    parse_playlist_content, parse_pls, remove_station, save_station, RadioEntry,
};
use timer::music::provider::reader_source;
use timer::music::provider::ytdlp::{tracks_from_entries, YtDlpEntry};
use timer::music::{InputRef, ProviderKind, SourceKind, TrackMeta};

#[test]
fn classify_local_path() {
    let input = classify_input("/home/user/music/song.mp3");
    assert!(matches!(input, InputRef::Path(_)));
}

#[test]
fn classify_http_stream() {
    let input = classify_input("https://example.com/stream");
    assert!(matches!(input, InputRef::Url(_)));
}

#[test]
fn classify_youtube_url() {
    let input = classify_input("https://www.youtube.com/watch?v=dQw4w9WgXcQ");
    assert!(matches!(input, InputRef::YtDlp(_)));
}

#[test]
fn classify_soundcloud_url() {
    let input = classify_input("https://soundcloud.com/artist/track");
    assert!(matches!(input, InputRef::YtDlp(_)));
}

#[test]
fn classify_podcast_rss() {
    let input = classify_input("https://example.com/podcast/feed.xml");
    assert!(matches!(input, InputRef::Podcast(_)));
}

#[test]
fn classify_m3u_playlist() {
    let input = classify_input("https://radio.example.com/stream.m3u");
    assert!(matches!(input, InputRef::Radio(_)));
}

#[test]
fn classify_pls_playlist() {
    let input = classify_input("https://radio.example.com/stream.pls");
    assert!(matches!(input, InputRef::Radio(_)));
}

#[test]
fn classify_local_playlist() {
    let input = classify_input("/home/user/stations.m3u");
    assert!(matches!(input, InputRef::Radio(_)));
}

#[test]
fn classify_is_case_insensitive_and_keeps_text() {
    assert!(matches!(classify_input("/music/LIST.PLS"), InputRef::Radio(s) if s == "/music/LIST.PLS"));
    assert!(matches!(classify_input("HTTPS://example.com/a"), InputRef::Path(_)));
    assert!(matches!(classify_input("http://example.com/rss/show"), InputRef::Podcast(_)));
    assert!(matches!(classify_input("https://youtu.be/xyz"), InputRef::YtDlp(_)));
}

#[test]
fn parse_inputs_keeps_order() {
    let raw = vec!["/a.mp3".to_string(), "https://example.com/s".to_string()];
    let inputs = parse_inputs(&raw);
    assert_eq!(inputs.len(), 2);
    assert!(matches!(&inputs[0], InputRef::Path(_)));
    assert!(matches!(&inputs[1], InputRef::Url(_)));
    assert!(!has_radio_input(&inputs));
    assert!(has_radio_input(&[InputRef::Radio("x.m3u".to_string())]));
}

#[test]
fn explicit_radio_input_skips_default_station_injection() {
    let inputs = [InputRef::Radio("/tmp/stations.m3u".into())];
    let outcomes = [SourceOutcome::Failed("failed to read playlist file: /tmp/stations.m3u".into())];
    let mut next_id = 1u64;
    let station = new_url_track("https://saved.example.com", &mut next_id);
    let tracks = assemble_tracks(&inputs, &outcomes, vec![station], &mut next_id);
    assert_eq!(tracks.len(), 1);
    assert!(tracks[0].title.starts_with("⚠ Radio error:"));
}

#[test]
fn assemble_adds_saved_stations_without_radio_input() {
    let inputs = [
        InputRef::Url("https://example.com/live".into()),
        InputRef::Podcast("https://example.com/feed.xml".into()),
        InputRef::Path("/music".into()),
    ];
    let mut id = 10u64;
    let found = new_url_track("https://example.com/found", &mut id);
    let outcomes = [
        SourceOutcome::Found(Vec::new()),
        SourceOutcome::Failed("offline".into()),
        SourceOutcome::Found(vec![found]),
    ];
    let mut next_id = 100u64;
    let mut station_id = 500u64;
    let station = new_url_track("https://saved.example.com", &mut station_id);
    let tracks = assemble_tracks(&inputs, &outcomes, vec![station], &mut next_id);
    assert_eq!(tracks.len(), 4);
    assert_eq!(tracks[0].path_or_url, "https://example.com/live");
    assert_eq!(tracks[0].id, 100);
    assert_eq!(tracks[1].title, "⚠ Podcast error: offline");
    assert_eq!(tracks[1].id, 101);
    assert_eq!(tracks[1].provider, ProviderKind::Podcast);
    assert_eq!(tracks[2].path_or_url, "https://example.com/found");
    assert_eq!(tracks[3].path_or_url, "https://saved.example.com");
    assert_eq!(next_id, 102);
}

#[test]
fn file_and_url_tracks() {
    let mut next_id = 7u64;
    let t = new_file_track("/music/Song Name.FLAC", &mut next_id);
    assert_eq!(t.title, "Song Name");
    assert_eq!(t.artist, "Local");
    assert_eq!(t.id, 7);
    assert_eq!(t.provider, ProviderKind::Local);
    let u = new_url_track("https://example.com/stream", &mut next_id);
    assert_eq!(u.id, 8);
    assert_eq!(u.title, "https://example.com/stream");
    assert_eq!(u.artist, "Stream");
    assert_eq!(next_id, 9);
    assert!(is_audio_file("/music/Song Name.FLAC"));
    assert!(is_audio_file("a.opus"));
    assert!(!is_audio_file("/music/cover.jpg"));
    assert!(!is_audio_file("/music/README"));
}

#[test]
fn error_tracks_name_their_provider() {
    let mut next_id = 1u64;
    let t = error_track(ProviderKind::YtDlp, "boom", "https://youtu.be/x", &mut next_id);
    assert_eq!(t.title, "⚠ yt-dlp error: boom");
    assert_eq!(t.artist, "Error");
    assert_eq!(t.path_or_url, "https://youtu.be/x");
}

#[test]
fn reader_source_routes_by_provider() {
    let mut next_id = 1u64;
    let local = new_file_track("/a.mp3", &mut next_id);
    let stream = new_url_track("https://a", &mut next_id);
    assert_eq!(reader_source(&local), SourceKind::LocalFile);
    assert_eq!(reader_source(&stream), SourceKind::HttpStream);
}

#[test]
fn parse_m3u_basic() {
    let m3u = "#EXTM3U\n#EXTINF:-1,Jazz FM\nhttps://jazz.example.com/stream\n#EXTINF:-1,Lo-fi Beats\nhttps://lofi.example.com/stream\n";
    let mut next_id = 3_000_000u64;
    let tracks = parse_m3u(m3u, &mut next_id);
    assert_eq!(tracks.len(), 2);
    assert_eq!(tracks[0].title, "Jazz FM");
    assert_eq!(tracks[0].path_or_url, "https://jazz.example.com/stream");
    assert_eq!(tracks[1].title, "Lo-fi Beats");
    assert!(matches!(tracks[0].provider, ProviderKind::Radio));
}

#[test]
fn parse_pls_basic() {
    let pls = "[playlist]\nFile1=https://stream1.example.com\nTitle1=Station One\nFile2=https://stream2.example.com\nTitle2=Station Two\nNumberOfEntries=2\n";
    let mut next_id = 3_000_000u64;
    let tracks = parse_pls(pls, &mut next_id);
    assert_eq!(tracks.len(), 2);
    assert_eq!(tracks[0].title, "Station One");
    assert_eq!(tracks[1].path_or_url, "https://stream2.example.com");
}

#[test]
fn parse_m3u_without_extinf() {
    let m3u = "https://example.com/stream1\nhttps://example.com/stream2\n";
    let mut next_id = 3_000_000u64;
    let tracks = parse_m3u(m3u, &mut next_id);
    assert_eq!(tracks.len(), 2);
    assert_eq!(tracks[0].title, "stream1");
}

#[test]
fn pls_entries_are_sorted_by_number_and_titled_from_url() {
    let pls = "[playlist]\nFile2=https://b.example.com/two\nFile1=https://a.example.com/one?x=1\nTitle2=Second\n";
    let mut next_id = 0u64;
    let tracks = parse_pls(pls, &mut next_id);
    assert_eq!(tracks.len(), 2);
    assert_eq!(tracks[0].path_or_url, "https://a.example.com/one?x=1");
    assert_eq!(tracks[0].title, "one");
    assert_eq!(tracks[1].title, "Second");
    assert_eq!(next_id, 2);
}

#[test]
fn playlist_content_picks_the_format() {
    let mut next_id = 0u64;
    let pls = parse_playlist_content("[Playlist]\nFile1=https://s.example.com\n", &mut next_id);
    assert_eq!(pls.len(), 1);
    let m3u = parse_playlist_content("# comment\n\nhttps://m.example.com/live\n", &mut next_id);
    assert_eq!(m3u.len(), 1);
    assert_eq!(m3u[0].title, "live");
}

#[test]
fn name_from_url_drops_path_and_query() {
    assert_eq!(extract_name_from_url("https://x.example.com/a/b/radio.mp3?token=1"), "radio.mp3");
    assert_eq!(extract_name_from_url("plain"), "plain");
}

#[test]
fn stations_save_list_and_remove() {
    let mut entries: Vec<RadioEntry> = Vec::new();
    save_station(&mut entries, "Jazz FM", "https://jazz.example.com");
    save_station(&mut entries, "Rock", "https://rock.example.com");
    save_station(&mut entries, "Jazz FM", "https://jazz2.example.com");
    let names = list_station_names(&entries);
    assert_eq!(names.len(), 2);
    assert_eq!(names[0], ("Jazz FM".to_string(), "https://jazz2.example.com".to_string()));
    let mut next_id = 3_000_000u64;
    let tracks = load_radio_stations(&entries, &mut next_id);
    assert_eq!(tracks.len(), 2);
    assert_eq!(tracks[1].title, "Rock");
    assert_eq!(tracks[1].artist, "Radio");
    assert!(remove_station(&mut entries, "Jazz FM"));
    assert!(!remove_station(&mut entries, "Jazz FM"));
    assert_eq!(list_station_names(&entries).len(), 1);
}

const SAMPLE_RSS: &str = r#"<?xml version="1.0" encoding="UTF-8"?>
<rss version="2.0">
  <channel>
    <title>My Tech Podcast</title>
    <item>
      <title>Episode 1: Hello World</title>
      <enclosure url="https://example.com/ep1.mp3" length="12345" type="audio/mpeg"/>
    </item>
    <item>
      <title>Episode 2: Deep Dive</title>
      <enclosure url="https://example.com/ep2.mp3" length="67890" type="audio/mpeg"/>
    </item>
    <item>
      <title>Episode 3 (video only)</title>
      <enclosure url="https://example.com/ep3.mp4" length="99999" type="video/mp4"/>
    </item>
  </channel>
</rss>"#;

#[test]
fn parses_rss_feed_episodes() {
    let mut next_id = 1_000_000u64;
    let tracks = parse_rss(SAMPLE_RSS, &mut next_id);
    assert_eq!(tracks.len(), 2);
    assert_eq!(tracks[0].title, "Episode 1: Hello World");
    assert_eq!(tracks[0].artist, "My Tech Podcast");
    assert_eq!(tracks[0].path_or_url, "https://example.com/ep1.mp3");
    assert!(matches!(tracks[0].provider, ProviderKind::Podcast));
    assert_eq!(tracks[1].title, "Episode 2: Deep Dive");
}

#[test]
fn empty_feed_returns_empty_vec() {
    let mut next_id = 1_000_000u64;
    let tracks = parse_rss("<rss><channel></channel></rss>", &mut next_id);
    assert!(tracks.is_empty());
}

#[test]
fn atom_feed_uses_links_and_defaults() {
    let atom = r#"<feed><entry><link href="https://example.com/audio/1"/></entry></feed>"#;
    let mut next_id = 0u64;
    let tracks = parse_rss(atom, &mut next_id);
    assert_eq!(tracks.len(), 1);
    assert_eq!(tracks[0].title, "Untitled Episode");
    assert_eq!(tracks[0].artist, "Podcast");
    assert_eq!(tracks[0].path_or_url, "https://example.com/audio/1");
}

#[test]
fn audio_urls_are_recognised() {
    assert!(looks_like_audio("https://x/EP.MP3"));
    assert!(looks_like_audio("https://x/audio?id=3"));
    assert!(!looks_like_audio("https://x/ep.mp4"));
}

fn entry(title: &str, uploader: Option<&str>, channel: Option<&str>, secs: Option<f64>, url: Option<&str>) -> YtDlpEntry {
    YtDlpEntry {
        title: Some(title.to_string()),
        uploader: uploader.map(|s| s.to_string()),
        channel: channel.map(|s| s.to_string()),
        duration: secs.filter(|d| *d > 0.0).map(Duration::from_secs_f64),
        url: url.map(|s| s.to_string()),
        entries: None,
    }
}

#[test]
fn parses_single_entry_json() {
    let lines = vec![entry("Test Song", Some("Artist"), None, Some(180.5), Some("https://example.com/audio.m4a"))];
    let mut next_id = 2_000_000u64;
    let tracks = tracks_from_entries(&lines, &mut next_id);
    assert_eq!(tracks.len(), 1);
    assert_eq!(tracks[0].title, "Test Song");
    assert_eq!(tracks[0].artist, "Artist");
    assert_eq!(tracks[0].path_or_url, "https://example.com/audio.m4a");
    assert!(matches!(tracks[0].provider, ProviderKind::YtDlp));
    assert!(tracks[0].duration.is_some());
    assert_eq!(tracks[0].duration.unwrap().as_secs(), 180);
}

#[test]
fn parses_multiple_json_lines() {
    let lines = vec![
        entry("A", Some("X"), None, Some(60.0), Some("https://a.mp3")),
        entry("B", None, Some("Y"), Some(120.0), Some("https://b.mp3")),
    ];
    let mut next_id = 2_000_000u64;
    let tracks = tracks_from_entries(&lines, &mut next_id);
    assert_eq!(tracks.len(), 2);
    assert_eq!(tracks[0].title, "A");
    assert_eq!(tracks[1].artist, "Y");
}

#[test]
fn skips_entries_without_url() {
    let lines = vec![entry("No URL", Some("X"), None, Some(60.0), None)];
    let mut next_id = 2_000_000u64;
    let tracks = tracks_from_entries(&lines, &mut next_id);
    assert!(tracks.is_empty());
}

#[test]
fn playlist_entries_expand() {
    let mut outer = entry("List", None, None, None, None);
    outer.entries = Some(vec![
        entry("One", None, None, None, Some("https://1")),
        entry("Two", None, None, Some(0.0), Some("https://2")),
    ]);
    let mut next_id = 5u64;
    let tracks: Vec<TrackMeta> = tracks_from_entries(&[outer], &mut next_id);
    assert_eq!(tracks.len(), 2);
    assert_eq!(tracks[0].artist, "Unknown");
    assert!(tracks[1].duration.is_none());
    assert_eq!(tracks[1].id, 6);
}

#[test]
fn feed_events_tokenise_tags_text_and_attributes() {
    let evs = feed_events("<a x=\"1&amp;2\">  hi  </a><ns:b/>");
    assert_eq!(evs.len(), 4);
    assert!(matches!(&evs[0], XmlEvent::Start(n, a) if n == "a" && a.len() == 1 && a[0].0 == "x" && a[0].1 == "1&2"));
    assert!(matches!(&evs[1], XmlEvent::Text(t) if t == "hi"));
    assert!(matches!(&evs[2], XmlEvent::End(n) if n == "a"));
    assert!(matches!(&evs[3], XmlEvent::Empty(n, a) if n == "ns:b" && a.is_empty()));
}

#[test]
fn feed_events_stop_at_an_error() {
    let evs = feed_events("<a></b><c/>");
    assert_eq!(evs.len(), 1);
    assert!(matches!(&evs[0], XmlEvent::Start(n, _) if n == "a"));
    assert!(feed_events("").is_empty());
}
