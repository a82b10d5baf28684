//! The music player's vocabulary: tracks, where they come from, and the
//! commands and states of playback.

pub mod command_line;
pub mod config;
pub mod engine;
pub mod library;
pub mod player;
pub mod provider;
pub mod queue;
pub mod tap;
pub mod ui;

use std::time::Duration;
use vstd::prelude::*;


pub use queue::TrackQueue;

verus! {

#[derive(Debug, Clone, Copy, PartialEq, Eq, Structural)]
pub enum RepeatMode {
    Off,
    All,
    One,
}

impl Default for RepeatMode {
    fn default() -> (r: Self)
        ensures
            r == RepeatMode::Off,
    {
        RepeatMode::Off
    }
}

/// How the bytes of a track are fetched.
#[derive(Debug, Clone, Copy, PartialEq, Eq, Structural)]
pub enum SourceKind {
    LocalFile,
    HttpStream,
}

/// Where a track came from.
#[derive(Debug, Clone, Copy, PartialEq, Eq, Hash, Structural)]
pub enum ProviderKind {
    Local,
    HttpStream,
    Podcast,
    YtDlp,
    Radio,
}

impl ProviderKind {
    pub open spec fn spec_label(self) -> Seq<char> {
        match self {
            ProviderKind::Local => "Local"@,
            ProviderKind::HttpStream => "Stream"@,
            ProviderKind::Podcast => "Podcast"@,
            ProviderKind::YtDlp => "YouTube"@,
            ProviderKind::Radio => "Radio"@,
        }
    }

    /// The name shown in the source statistics.
    pub fn label(self) -> (r: &'static str)
        ensures
            r@ == self.spec_label(),
    {
        match self {
            ProviderKind::Local => "Local",
            ProviderKind::HttpStream => "Stream",
            ProviderKind::Podcast => "Podcast",
            ProviderKind::YtDlp => "YouTube",
            ProviderKind::Radio => "Radio",
        }
    }

    /// The rank of the label in alphabetical order ("Local" < "Podcast" < "Radio" < "Stream" < "YouTube").
    pub open spec fn spec_label_rank(self) -> nat {
        match self {
            ProviderKind::Local => 0,
            ProviderKind::Podcast => 1,
            ProviderKind::Radio => 2,
            ProviderKind::HttpStream => 3,
            ProviderKind::YtDlp => 4,
        }
    }

    pub fn label_rank(self) -> (r: usize)
        ensures
            r == self.spec_label_rank(),
    {
        match self {
            ProviderKind::Local => 0,
            ProviderKind::Podcast => 1,
            ProviderKind::Radio => 2,
            ProviderKind::HttpStream => 3,
            ProviderKind::YtDlp => 4,
        }
    }

    pub open spec fn spec_icon(self) -> char {
        match self {
            ProviderKind::Local => '♪',
            ProviderKind::HttpStream => '≈',
            ProviderKind::Podcast => '◎',
            ProviderKind::YtDlp => '▷',
            ProviderKind::Radio => '☊',
        }
    }

    /// The glyph shown before a track in the queue.
    pub fn icon(self) -> (r: char)
        ensures
            r == self.spec_icon(),
    {
        match self {
            ProviderKind::Local => '♪',
            ProviderKind::HttpStream => '≈',
            ProviderKind::Podcast => '◎',
            ProviderKind::YtDlp => '▷',
            ProviderKind::Radio => '☊',
        }
    }

    /// Local files are read from disk; every other provider streams over HTTP.
    pub open spec fn spec_source_kind(self) -> SourceKind {
        match self {
            ProviderKind::Local => SourceKind::LocalFile,
            _ => SourceKind::HttpStream,
        }
    }

    pub fn source_kind(self) -> (r: SourceKind)
        ensures
            r == self.spec_source_kind(),
    {
        match self {
            ProviderKind::Local => SourceKind::LocalFile,
            _ => SourceKind::HttpStream,
        }
    }
}

#[derive(Debug)]
pub struct TrackMeta {
    pub id: u64,
    pub title: String,
    pub artist: String,
    pub duration: Option<Duration>,
    pub provider: ProviderKind,
    pub path_or_url: String,
}

impl Clone for TrackMeta {
    fn clone(&self) -> (r: Self)
        ensures
            r == *self,
    {
        TrackMeta {
            id: self.id,
            title: self.title.clone(),
            artist: self.artist.clone(),
            duration: self.duration,
            provider: self.provider,
            path_or_url: self.path_or_url.clone(),
        }
    }
}

/// A source that the user named, classified.
#[derive(Debug, Clone)]
pub enum InputRef {
    Path(String),
    Url(String),
    Podcast(String),
    YtDlp(String),
    Radio(String),
}

/// The abstract value of an input: its kind and its text.
pub enum InputKind {
    Path,
    Url,
    Podcast,
    YtDlp,
    Radio,
}

impl InputRef {
    pub open spec fn kind(self) -> InputKind {
        match self {
            InputRef::Path(_) => InputKind::Path,
            InputRef::Url(_) => InputKind::Url,
            InputRef::Podcast(_) => InputKind::Podcast,
            InputRef::YtDlp(_) => InputKind::YtDlp,
            InputRef::Radio(_) => InputKind::Radio,
        }
    }

    pub open spec fn text(self) -> Seq<char> {
        match self {
            InputRef::Path(s) => s@,
            InputRef::Url(s) => s@,
            InputRef::Podcast(s) => s@,
            InputRef::YtDlp(s) => s@,
            InputRef::Radio(s) => s@,
        }
    }
}

#[derive(Debug, Clone)]
pub enum MusicCommand {
    Play,
    Pause,
    Toggle,
    Stop,
    Next,
    Prev,
    Seek(i64),
    SetVolume(u8),
    ToggleShuffle,
    SetRepeat(RepeatMode),
    Load(Vec<InputRef>),
    LoadUrl(String),
}

#[derive(Debug, Clone)]
pub enum PlaybackState {
    Idle,
    Buffering,
    Playing,
    Paused,
    Stopped,
    Ended,
    Error(String),
}

impl PlaybackState {
    pub open spec fn spec_label(&self) -> Seq<char> {
        match self {
            PlaybackState::Idle => "IDLE"@,
            PlaybackState::Buffering => "BUFFERING"@,
            PlaybackState::Playing => "PLAYING"@,
            PlaybackState::Paused => "PAUSED"@,
            PlaybackState::Stopped => "STOPPED"@,
            PlaybackState::Ended => "ENDED"@,
            PlaybackState::Error(_) => "ERROR"@,
        }
    }

    pub fn label(&self) -> (r: &'static str)
        ensures
            r@ == self.spec_label(),
    {
        match self {
            PlaybackState::Idle => "IDLE",
            PlaybackState::Buffering => "BUFFERING",
            PlaybackState::Playing => "PLAYING",
            PlaybackState::Paused => "PAUSED",
            PlaybackState::Stopped => "STOPPED",
            PlaybackState::Ended => "ENDED",
            PlaybackState::Error(_) => "ERROR",
        }
    }
}

#[derive(Debug, Clone, Copy, PartialEq, Eq, Structural)]
pub enum VisualizerMode {
    Bars,
    Bricks,
    Columns,
    Wave,
    Scatter,
    Flame,
    Pulse,
    Retro,
    Matrix,
    Binary,
    Snow,
}

impl VisualizerMode {
    pub open spec fn spec_label(self) -> Seq<char> {
        match self {
            VisualizerMode::Bars => "Bars"@,
            VisualizerMode::Bricks => "Bricks"@,
            VisualizerMode::Columns => "Columns"@,
            VisualizerMode::Wave => "Wave"@,
            VisualizerMode::Scatter => "Scatter"@,
            VisualizerMode::Flame => "Flame"@,
            VisualizerMode::Pulse => "Pulse"@,
            VisualizerMode::Retro => "Retro"@,
            VisualizerMode::Matrix => "Matrix"@,
            VisualizerMode::Binary => "Binary"@,
            VisualizerMode::Snow => "Snow"@,
        }
    }

    pub fn label(self) -> (r: &'static str)
        ensures
            r@ == self.spec_label(),
    {
        match self {
            VisualizerMode::Bars => "Bars",
            VisualizerMode::Bricks => "Bricks",
            VisualizerMode::Columns => "Columns",
            VisualizerMode::Wave => "Wave",
            VisualizerMode::Scatter => "Scatter",
            VisualizerMode::Flame => "Flame",
            VisualizerMode::Pulse => "Pulse",
            VisualizerMode::Retro => "Retro",
            VisualizerMode::Matrix => "Matrix",
            VisualizerMode::Binary => "Binary",
            VisualizerMode::Snow => "Snow",
        }
    }

    /// The cycle order of the visualizer: Bars, Bricks, Columns, Wave, Scatter,
    /// Flame, Retro, Pulse, Matrix, Binary, Snow, and back to Bars.
    pub open spec fn spec_next(self) -> VisualizerMode {
        match self {
            VisualizerMode::Bars => VisualizerMode::Bricks,
            VisualizerMode::Bricks => VisualizerMode::Columns,
            VisualizerMode::Columns => VisualizerMode::Wave,
            VisualizerMode::Wave => VisualizerMode::Scatter,
            VisualizerMode::Scatter => VisualizerMode::Flame,
            VisualizerMode::Flame => VisualizerMode::Retro,
            VisualizerMode::Retro => VisualizerMode::Pulse,
            VisualizerMode::Pulse => VisualizerMode::Matrix,
            VisualizerMode::Matrix => VisualizerMode::Binary,
            VisualizerMode::Binary => VisualizerMode::Snow,
            VisualizerMode::Snow => VisualizerMode::Bars,
        }
    }

    pub fn next(self) -> (r: Self)
        ensures
            r == self.spec_next(),
    {
        match self {
            VisualizerMode::Bars => VisualizerMode::Bricks,
            VisualizerMode::Bricks => VisualizerMode::Columns,
            VisualizerMode::Columns => VisualizerMode::Wave,
            VisualizerMode::Wave => VisualizerMode::Scatter,
            VisualizerMode::Scatter => VisualizerMode::Flame,
            VisualizerMode::Flame => VisualizerMode::Retro,
            VisualizerMode::Retro => VisualizerMode::Pulse,
            VisualizerMode::Pulse => VisualizerMode::Matrix,
            VisualizerMode::Matrix => VisualizerMode::Binary,
            VisualizerMode::Binary => VisualizerMode::Snow,
            VisualizerMode::Snow => VisualizerMode::Bars,
        }
    }
}

/// `m` advanced `k` times.
pub open spec fn visualizer_after(m: VisualizerMode, k: nat) -> VisualizerMode
    decreases k,
{
    if k == 0 {
        m
    } else {
        visualizer_after(m, (k - 1) as nat).spec_next()
    }
}

/// Position of a mode in the cycle order.
pub open spec fn visualizer_position(m: VisualizerMode) -> int {
    match m {
        VisualizerMode::Bars => 0,
        VisualizerMode::Bricks => 1,
        VisualizerMode::Columns => 2,
        VisualizerMode::Wave => 3,
        VisualizerMode::Scatter => 4,
        VisualizerMode::Flame => 5,
        VisualizerMode::Retro => 6,
        VisualizerMode::Pulse => 7,
        VisualizerMode::Matrix => 8,
        VisualizerMode::Binary => 9,
        VisualizerMode::Snow => 10,
    }
}

proof fn lemma_visualizer_after_position(m: VisualizerMode, k: nat)
    ensures
        visualizer_position(visualizer_after(m, k)) == (visualizer_position(m) + k) % 11,
    decreases k,
{
    if k > 0 {
        lemma_visualizer_after_position(m, (k - 1) as nat);
    }
}

/// Cycling the visualizer visits all eleven modes and returns to the start after
/// exactly eleven steps.
pub proof fn law_visualizer_cycle(m: VisualizerMode)
    ensures
        visualizer_after(m, 11) == m,
        forall|k: nat| 0 < k < 11 ==> visualizer_after(m, k) != m,
{
    lemma_visualizer_after_position(m, 11);
    assert forall|k: nat| 0 < k < 11 implies visualizer_after(m, k) != m by {
        lemma_visualizer_after_position(m, k);
    }
}

/// The id handed out after `x` by a track id counter (wrapping at the top).
pub open spec fn spec_next_id(x: u64) -> u64 {
    if x == u64::MAX {
        0
    } else {
        (x + 1) as u64
    }
}

/// The id handed out `i` ids after `base`.
pub open spec fn id_after(base: u64, i: nat) -> u64
    decreases i,
{
    if i == 0 {
        base
    } else {
        spec_next_id(id_after(base, (i - 1) as nat))
    }
}

/// Takes the next track id from a counter.
pub fn take_id(next_id: &mut u64) -> (id: u64)
    ensures
        id == *old(next_id),
        *final(next_id) == spec_next_id(*old(next_id)),
{
    let id = *next_id;
    *next_id = if id == u64::MAX {
        0
    } else {
        id + 1
    };
    id
}

/// How many tracks of the queue come from one provider.
#[derive(Debug, Clone, Copy, PartialEq, Eq, Structural)]
pub struct SourceInfo {
    pub kind: ProviderKind,
    pub count: usize,
}

} // verus!
