//! The player's state machine: what each command, tick and report from the audio output
//! does to the player, and what it asks of the audio output in return.
//!
//! The audio output (decoding, the sink, the spectrum) is driven by the binary. It
//! performs each `PlayerAction` and reports back with `track_started` or `track_failed`,
//! and with `sink_drained` when the sink has played everything it was given. Times are
//! milliseconds on a monotonic clock.

use std::time::Duration;
use vstd::prelude::*;

use super::engine::{
    clamp_selection, effective_volume_percent, move_selection, seek_due, spec_move_selection,
    spec_seek_due,
};
use super::queue::{next_index_ok, prev_index_ok, queue_wf, QueueModel, TrackQueue};
use super::{InputRef, MusicCommand, PlaybackState, ProviderKind, TrackMeta, VisualizerMode};
use crate::text::{chars_of, string_of};

verus! {

/// Why a track is being started.
#[derive(Debug, Clone, Copy, PartialEq, Eq, Structural)]
pub enum StartOrigin {
    /// A command of the user.
    Command,
    /// The previous track ended.
    AutoAdvance,
    /// A seek restarts the current track at another position.
    Seek,
}

/// What the player asks of the audio output.
#[derive(Debug, Clone)]
pub enum PlayerAction {
    Nothing,
    /// Stop the sink, if any, and play `track` from `start_at_ms`; `known_duration` is
    /// the length to assume when the decoder cannot tell.
    Start {
        track: TrackMeta,
        start_at_ms: u64,
        known_duration: Option<Duration>,
        origin: StartOrigin,
    },
    /// Resume the paused sink.
    Resume,
    /// Pause the sink.
    Pause,
    /// Stop and drop the sink.
    Stop,
    /// Set the sink's volume, in percent.
    ApplyVolume(u8),
    /// Build the tracks for these sources and hand them to `load`.
    BuildTracks(Vec<InputRef>),
    /// Build the tracks found at this URL and hand them to `url_loaded`.
    BuildUrl(String),
}

/// The abstract state of the player.
pub struct PlayerModel {
    pub queue: QueueModel,
    pub state: PlaybackState,
    pub volume: u8,
    pub muted: bool,
    pub visualizer_mode: VisualizerMode,
    pub selected_index: nat,
    /// Whether the audio output holds a sink.
    pub has_sink: bool,
    /// When playback last started or resumed.
    pub started_at: Option<u64>,
    /// The position at that moment.
    pub start_offset: u64,
    /// The position at which playback was paused.
    pub paused_at: Option<u64>,
    pub current_duration: Option<Duration>,
    /// Seconds of seek requested and not yet applied.
    pub pending_seek_sec: i64,
    pub seek_requested_at: Option<u64>,
    pub seek_applied_at: Option<u64>,
    pub frame: u64,
    pub last_error: Option<String>,
}

pub struct PlayerCore {
    queue: TrackQueue,
    state: PlaybackState,
    volume: u8,
    muted: bool,
    visualizer_mode: VisualizerMode,
    selected_index: usize,
    has_sink: bool,
    started_at: Option<u64>,
    start_offset: u64,
    paused_at: Option<u64>,
    current_duration: Option<Duration>,
    pending_seek_sec: i64,
    seek_requested_at: Option<u64>,
    seek_applied_at: Option<u64>,
    frame: u64,
    last_error: Option<String>,
}

impl View for PlayerCore {
    type V = PlayerModel;

    closed spec fn view(&self) -> PlayerModel {
        PlayerModel {
            queue: self.queue@,
            state: self.state,
            volume: self.volume,
            muted: self.muted,
            visualizer_mode: self.visualizer_mode,
            selected_index: self.selected_index as nat,
            has_sink: self.has_sink,
            started_at: self.started_at,
            start_offset: self.start_offset,
            paused_at: self.paused_at,
            current_duration: self.current_duration,
            pending_seek_sec: self.pending_seek_sec,
            seek_requested_at: self.seek_requested_at,
            seek_applied_at: self.seek_applied_at,
            frame: self.frame,
            last_error: self.last_error,
        }
    }
}

/// `a - b`, or 0 where `b` is larger.
pub open spec fn sat_sub(a: u64, b: u64) -> u64 {
    if a >= b {
        (a - b) as u64
    } else {
        0
    }
}

/// `a + b`, or the largest value where that overflows.
pub open spec fn sat_add(a: u64, b: u64) -> u64 {
    if a + b > u64::MAX {
        u64::MAX
    } else {
        (a + b) as u64
    }
}

/// The playback position at `now`: where it was paused, else the position at which
/// playback last started plus the time since; 0 before any track.
pub open spec fn spec_position(m: PlayerModel, now: u64) -> u64 {
    if m.state is Paused {
        match m.paused_at {
            Some(p) => p,
            None => 0,
        }
    } else {
        match m.started_at {
            Some(s) => sat_add(m.start_offset, sat_sub(now, s)),
            None => 0,
        }
    }
}

/// The volume the sink plays at, in percent.
pub open spec fn spec_effective_volume(m: PlayerModel) -> u8 {
    if m.muted {
        0
    } else {
        m.volume
    }
}

pub open spec fn start_action(
    track: TrackMeta,
    start_at_ms: u64,
    known_duration: Option<Duration>,
    origin: StartOrigin,
) -> PlayerAction {
    PlayerAction::Start { track, start_at_ms, known_duration, origin }
}

/// The player once the cursor is on track `k` and that track is being started.
pub open spec fn at_track(m: PlayerModel, k: int) -> PlayerModel {
    PlayerModel {
        queue: QueueModel { current: Some(k), ..m.queue },
        state: PlaybackState::Buffering,
        ..m
    }
}

/// Starting the track at position `idx` from its beginning, if there is one.
pub open spec fn play_at_step(
    old: PlayerModel,
    idx: int,
    origin: StartOrigin,
    new: PlayerModel,
    a: PlayerAction,
) -> bool {
    if 0 <= idx < old.queue.tracks.len() {
        new == at_track(old, idx) && a == start_action(old.queue.tracks[idx], 0, None, origin)
    } else {
        new == old && a == PlayerAction::Nothing
    }
}

/// Play: resume a paused sink where it stopped; nothing while playing; else start the
/// queue's current track (or the selected one when there is none).
pub open spec fn play_step(old: PlayerModel, now: u64, new: PlayerModel, a: PlayerAction) -> bool {
    match old.state {
        PlaybackState::Paused => if old.has_sink {
            &&& new == PlayerModel {
                state: PlaybackState::Playing,
                started_at: Some(now),
                start_offset: match old.paused_at {
                    Some(p) => p,
                    None => 0,
                },
                ..old
            }
            &&& a == PlayerAction::Resume
        } else {
            new == old && a == PlayerAction::Nothing
        },
        PlaybackState::Playing => new == old && a == PlayerAction::Nothing,
        _ => play_at_step(
            old,
            match old.queue.current {
                Some(i) => i,
                None => old.selected_index as int,
            },
            StartOrigin::Command,
            new,
            a,
        ),
    }
}

/// Pause: the sink pauses and the position at `now` is kept.
pub open spec fn pause_step(old: PlayerModel, now: u64, new: PlayerModel, a: PlayerAction) -> bool {
    if old.has_sink {
        &&& new == PlayerModel {
            state: PlaybackState::Paused,
            paused_at: Some(spec_position(old, now)),
            ..old
        }
        &&& a == PlayerAction::Pause
    } else {
        new == old && a == PlayerAction::Nothing
    }
}

/// Stop: the sink is dropped and the position goes back to the start.
pub open spec fn stopped(old: PlayerModel) -> PlayerModel {
    PlayerModel {
        has_sink: false,
        started_at: None,
        paused_at: Some(0),
        current_duration: None,
        state: PlaybackState::Stopped,
        ..old
    }
}

pub open spec fn stop_action(old: PlayerModel) -> PlayerAction {
    if old.has_sink {
        PlayerAction::Stop
    } else {
        PlayerAction::Nothing
    }
}

/// Next: the queue moves on (see `next_index_ok`) and its new track starts; at the end
/// of the queue the player has ended.
pub open spec fn next_step(
    old: PlayerModel,
    manual: bool,
    origin: StartOrigin,
    new: PlayerModel,
    a: PlayerAction,
) -> bool {
    exists|k: Option<int>|
        next_index_ok(old.queue, manual, k) && match k {
            Some(i) => new == at_track(old, i) && a == start_action(
                old.queue.tracks[i],
                0,
                None,
                origin,
            ),
            None => new == PlayerModel { state: PlaybackState::Ended, ..old } && a
                == PlayerAction::Nothing,
        }
}

/// Previous: the queue steps back (see `prev_index_ok`) and its new track starts.
pub open spec fn prev_step(old: PlayerModel, new: PlayerModel, a: PlayerAction) -> bool {
    exists|k: Option<int>|
        prev_index_ok(old.queue, k) && match k {
            Some(i) => new == at_track(old, i) && a == start_action(
                old.queue.tracks[i],
                0,
                None,
                StartOrigin::Command,
            ),
            None => new == old && a == PlayerAction::Nothing,
        }
}

/// The position `pos` moved by `delta_sec` seconds, stopping at 0 and at the largest
/// position.
pub open spec fn shifted_position(pos: u64, delta_sec: i64) -> u64 {
    let target = pos + delta_sec * 1000;
    if target < 0 {
        0
    } else if target > u64::MAX {
        u64::MAX
    } else {
        target as u64
    }
}

/// A seek restarts the current track `delta_sec` seconds from the position at `now`; it
/// does nothing without a current track, or in a stream whose length is unknown.
pub open spec fn seek_step(
    old: PlayerModel,
    delta_sec: i64,
    now: u64,
    new: PlayerModel,
    a: PlayerAction,
) -> bool {
    match old.queue.current {
        None => new == old && a == PlayerAction::Nothing,
        Some(i) => {
            let t = old.queue.tracks[i];
            if t.provider != ProviderKind::Local && old.current_duration is None {
                new == old && a == PlayerAction::Nothing
            } else {
                &&& new == PlayerModel { state: PlaybackState::Buffering, ..old }
                &&& a == start_action(
                    t,
                    shifted_position(spec_position(old, now), delta_sec),
                    match old.current_duration {
                        Some(d) => Some(d),
                        None => t.duration,
                    },
                    StartOrigin::Seek,
                )
            }
        },
    }
}

/// `a + b`, stopping at the bounds of `i64`.
pub open spec fn sat_add_i64(a: i64, b: i64) -> i64 {
    if a + b > i64::MAX {
        i64::MAX
    } else if a + b < i64::MIN {
        i64::MIN
    } else {
        (a + b) as i64
    }
}

/// What a command does.
pub open spec fn dispatch_step(
    old: PlayerModel,
    command: MusicCommand,
    now: u64,
    new: PlayerModel,
    a: PlayerAction,
) -> bool {
    match command {
        MusicCommand::Play => play_step(old, now, new, a),
        MusicCommand::Pause => pause_step(old, now, new, a),
        MusicCommand::Toggle => if old.state is Playing {
            pause_step(old, now, new, a)
        } else {
            play_step(old, now, new, a)
        },
        MusicCommand::Stop => new == stopped(old) && a == stop_action(old),
        MusicCommand::Next => next_step(old, true, StartOrigin::Command, new, a),
        MusicCommand::Prev => prev_step(old, new, a),
        MusicCommand::Seek(delta) => {
            &&& new == PlayerModel {
                pending_seek_sec: sat_add_i64(old.pending_seek_sec, delta),
                seek_requested_at: Some(now),
                ..old
            }
            &&& a == PlayerAction::Nothing
        },
        MusicCommand::SetVolume(v) => {
            let m = PlayerModel {
                volume: if v > 100 {
                    100
                } else {
                    v
                },
                ..old
            };
            &&& new == m
            &&& a == if old.has_sink {
                PlayerAction::ApplyVolume(spec_effective_volume(m))
            } else {
                PlayerAction::Nothing
            }
        },
        MusicCommand::ToggleShuffle => {
            &&& new == PlayerModel {
                queue: QueueModel { shuffle: !old.queue.shuffle, ..old.queue },
                ..old
            }
            &&& a == PlayerAction::Nothing
        },
        MusicCommand::SetRepeat(mode) => {
            &&& new == PlayerModel {
                queue: QueueModel { repeat_mode: mode, ..old.queue },
                ..old
            }
            &&& a == PlayerAction::Nothing
        },
        MusicCommand::Load(inputs) => new == old && a == PlayerAction::BuildTracks(inputs),
        MusicCommand::LoadUrl(url) => new == old && a == PlayerAction::BuildUrl(url),
    }
}

/// The queue with the length `d` recorded on its current track.
pub open spec fn with_current_duration(q: QueueModel, d: Duration) -> QueueModel {
    QueueModel {
        tracks: Seq::new(
            q.tracks.len(),
            |i: int|
                if q.current == Some(i) {
                    TrackMeta { duration: Some(d), ..q.tracks[i] }
                } else {
                    q.tracks[i]
                },
        ),
        ..q
    }
}

/// `a - b` on milliseconds, 0 where `b` is larger.
fn sat_sub_ms(a: u64, b: u64) -> (r: u64)
    ensures
        r == sat_sub(a, b),
{
    if a >= b {
        a - b
    } else {
        0
    }
}

/// The position `pos` moved by `delta_sec` seconds (see `shifted_position`).
pub fn shift_position(pos: u64, delta_sec: i64) -> (r: u64)
    ensures
        r == shifted_position(pos, delta_sec),
{
    if delta_sec < 0 {
        let magnitude: u128 = if delta_sec == i64::MIN {
            0x8000_0000_0000_0000
        } else {
            (-delta_sec) as u128
        };
        let back: u128 = magnitude * 1000;
        if back >= pos as u128 {
            0
        } else {
            (pos as u128 - back) as u64
        }
    } else {
        let target: u128 = pos as u128 + (delta_sec as u128) * 1000;
        if target > u64::MAX as u128 {
            u64::MAX
        } else {
            target as u64
        }
    }
}

/// `a + b`, stopping at the bounds of `i64`.
fn saturating_add_i64(a: i64, b: i64) -> (r: i64)
    ensures
        r == sat_add_i64(a, b),
{
    let sum: i128 = a as i128 + b as i128;
    if sum > i64::MAX as i128 {
        i64::MAX
    } else if sum < i64::MIN as i128 {
        i64::MIN
    } else {
        sum as i64
    }
}

impl PlayerCore {
    /// The queue's cursor is on a track exactly when it has tracks, and the volume is at
    /// most 100.
    pub open spec fn wf(&self) -> bool {
        &&& queue_wf(self@.queue)
        &&& self@.volume <= 100
    }

    /// A player for `queue`, idle, at `volume` percent (at most 100).
    pub fn new(queue: TrackQueue, volume: u8) -> (p: Self)
        requires
            queue_wf(queue@),
        ensures
            p.wf(),
            p@ == (PlayerModel {
                queue: queue@,
                state: PlaybackState::Idle,
                volume: if volume > 100 {
                    100
                } else {
                    volume
                },
                muted: false,
                visualizer_mode: VisualizerMode::Scatter,
                selected_index: 0,
                has_sink: false,
                started_at: None,
                start_offset: 0,
                paused_at: None,
                current_duration: None,
                pending_seek_sec: 0,
                seek_requested_at: None,
                seek_applied_at: None,
                frame: 0,
                last_error: None,
            }),
    {
        PlayerCore {
            queue,
            state: PlaybackState::Idle,
            volume: if volume > 100 {
                100
            } else {
                volume
            },
            muted: false,
            visualizer_mode: VisualizerMode::Scatter,
            selected_index: 0,
            has_sink: false,
            started_at: None,
            start_offset: 0,
            paused_at: None,
            current_duration: None,
            pending_seek_sec: 0,
            seek_requested_at: None,
            seek_applied_at: None,
            frame: 0,
            last_error: None,
        }
    }

    pub fn queue(&self) -> (r: &TrackQueue)
        requires
            self.wf(),
        ensures
            r@ == self@.queue,
            queue_wf(r@),
    {
        &self.queue
    }

    pub fn state(&self) -> (r: &PlaybackState)
        ensures
            *r == self@.state,
    {
        &self.state
    }

    pub fn volume(&self) -> (r: u8)
        requires
            self.wf(),
        ensures
            r == self@.volume,
            r <= 100,
    {
        self.volume
    }

    pub fn muted(&self) -> (r: bool)
        ensures
            r == self@.muted,
    {
        self.muted
    }

    pub fn visualizer_mode(&self) -> (r: VisualizerMode)
        ensures
            r == self@.visualizer_mode,
    {
        self.visualizer_mode
    }

    pub fn selected_index(&self) -> (r: usize)
        ensures
            r == self@.selected_index,
    {
        self.selected_index
    }

    pub fn queue_len(&self) -> (r: usize)
        ensures
            r == self@.queue.tracks.len(),
    {
        self.queue.tracks().len()
    }

    pub fn has_sink(&self) -> (r: bool)
        ensures
            r == self@.has_sink,
    {
        self.has_sink
    }

    pub fn current_duration(&self) -> (r: Option<Duration>)
        ensures
            r == self@.current_duration,
    {
        self.current_duration
    }

    pub fn visualizer_frame(&self) -> (r: u64)
        ensures
            r == self@.frame,
    {
        self.frame
    }

    pub fn last_error(&self) -> (r: &Option<String>)
        ensures
            *r == self@.last_error,
    {
        &self.last_error
    }

    /// The playback position at `now`, in milliseconds.
    pub fn position(&self, now: u64) -> (r: u64)
        ensures
            r == spec_position(self@, now),
    {
        match &self.state {
            PlaybackState::Paused => match self.paused_at {
                Some(p) => p,
                None => 0,
            },
            _ => match self.started_at {
                Some(s) => {
                    let elapsed = sat_sub_ms(now, s);
                    if self.start_offset > u64::MAX - elapsed {
                        u64::MAX
                    } else {
                        self.start_offset + elapsed
                    }
                },
                None => 0,
            },
        }
    }

    /// The volume the sink plays at, in percent: nothing while muted.
    pub fn effective_volume(&self) -> (r: u8)
        ensures
            r == spec_effective_volume(self@),
    {
        effective_volume_percent(self.volume, self.muted)
    }

    /// The audio output could not be opened.
    pub fn output_failed(&mut self, message: String)
        requires
            old(self).wf(),
        ensures
            final(self).wf(),
            final(self)@ == (PlayerModel {
                state: PlaybackState::Error(message),
                last_error: Some(message),
                ..old(self)@
            }),
    {
        self.state = PlaybackState::Error(message.clone());
        self.last_error = Some(message);
    }

    /// Moves the selection by `delta` rows, within the queue.
    pub fn move_selection(&mut self, delta: i32)
        requires
            old(self).wf(),
        ensures
            final(self).wf(),
            final(self)@ == (PlayerModel {
                selected_index: spec_move_selection(
                    old(self)@.selected_index,
                    delta as int,
                    old(self)@.queue.tracks.len(),
                ),
                ..old(self)@
            }),
    {
        let len = self.queue.tracks().len();
        self.selected_index = move_selection(self.selected_index, delta, len);
    }

    /// Marks the current track as being started, and asks for it.
    fn begin(&mut self, track: TrackMeta, start_at_ms: u64, known: Option<Duration>, origin: StartOrigin) -> (a: PlayerAction)
        requires
            old(self).wf(),
        ensures
            final(self).wf(),
            final(self)@ == (PlayerModel { state: PlaybackState::Buffering, ..old(self)@ }),
            a == start_action(track, start_at_ms, known, origin),
    {
        self.state = PlaybackState::Buffering;
        PlayerAction::Start { track, start_at_ms, known_duration: known, origin }
    }

    fn play_at_index(&mut self, idx: usize, origin: StartOrigin) -> (a: PlayerAction)
        requires
            old(self).wf(),
        ensures
            final(self).wf(),
            play_at_step(old(self)@, idx as int, origin, final(self)@, a),
    {
        let track = match self.queue.select(idx) {
            Some(t) => t.clone(),
            None => {
                return PlayerAction::Nothing;
            },
        };
        self.begin(track, 0, None, origin)
    }

    /// Selects the track at `index` (the last one if `index` lies past the end) and
    /// starts it.
    pub fn select_and_play(&mut self, index: usize) -> (a: PlayerAction)
        requires
            old(self).wf(),
        ensures
            final(self).wf(),
            ({
                let sel = if old(self)@.queue.tracks.len() == 0 {
                    0
                } else if index < old(self)@.queue.tracks.len() {
                    index as int
                } else {
                    old(self)@.queue.tracks.len() - 1
                };
                play_at_step(
                    PlayerModel { selected_index: sel as nat, ..old(self)@ },
                    sel,
                    StartOrigin::Command,
                    final(self)@,
                    a,
                )
            }),
    {
        let len = self.queue.tracks().len();
        self.selected_index = clamp_selection(index, len);
        let idx = self.selected_index;
        self.play_at_index(idx, StartOrigin::Command)
    }

    fn play(&mut self, now: u64) -> (a: PlayerAction)
        requires
            old(self).wf(),
        ensures
            final(self).wf(),
            play_step(old(self)@, now, final(self)@, a),
    {
        match &self.state {
            PlaybackState::Paused => {
                if self.has_sink {
                    let paused = match self.paused_at {
                        Some(p) => p,
                        None => 0,
                    };
                    self.started_at = Some(now);
                    self.start_offset = paused;
                    self.state = PlaybackState::Playing;
                    PlayerAction::Resume
                } else {
                    PlayerAction::Nothing
                }
            },
            PlaybackState::Playing => PlayerAction::Nothing,
            _ => {
                let idx = match self.queue.current_index() {
                    Some(i) => i,
                    None => self.selected_index,
                };
                self.play_at_index(idx, StartOrigin::Command)
            },
        }
    }

    fn pause(&mut self, now: u64) -> (a: PlayerAction)
        requires
            old(self).wf(),
        ensures
            final(self).wf(),
            pause_step(old(self)@, now, final(self)@, a),
    {
        if self.has_sink {
            let pos = self.position(now);
            self.paused_at = Some(pos);
            self.state = PlaybackState::Paused;
            PlayerAction::Pause
        } else {
            PlayerAction::Nothing
        }
    }

    fn stop(&mut self) -> (a: PlayerAction)
        requires
            old(self).wf(),
        ensures
            final(self).wf(),
            final(self)@ == stopped(old(self)@),
            a == stop_action(old(self)@),
    {
        let a = if self.has_sink {
            PlayerAction::Stop
        } else {
            PlayerAction::Nothing
        };
        self.has_sink = false;
        self.started_at = None;
        self.paused_at = Some(0);
        self.current_duration = None;
        self.state = PlaybackState::Stopped;
        a
    }

    fn next(&mut self, manual: bool, origin: StartOrigin) -> (a: PlayerAction)
        requires
            old(self).wf(),
        ensures
            final(self).wf(),
            next_step(old(self)@, manual, origin, final(self)@, a),
    {
        let ghost before = self@;
        let track = match self.queue.next(manual) {
            Some(t) => t.clone(),
            None => {
                self.state = PlaybackState::Ended;
                assert(next_index_ok(before.queue, manual, None::<int>));
                return PlayerAction::Nothing;
            },
        };
        let ghost k = self@.queue.current;
        let a = self.begin(track, 0, None, origin);
        proof {
            let i = k->0;
            assert(self@ == at_track(before, i));
            assert(next_index_ok(before.queue, manual, k));
        }
        a
    }

    fn prev(&mut self) -> (a: PlayerAction)
        requires
            old(self).wf(),
        ensures
            final(self).wf(),
            prev_step(old(self)@, final(self)@, a),
    {
        let ghost before = self@;
        let track = match self.queue.prev() {
            Some(t) => t.clone(),
            None => {
                assert(prev_index_ok(before.queue, None::<int>));
                return PlayerAction::Nothing;
            },
        };
        let ghost k = self@.queue.current;
        let a = self.begin(track, 0, None, StartOrigin::Command);
        proof {
            let i = k->0;
            assert(self@ == at_track(before, i));
            assert(prev_index_ok(before.queue, k));
        }
        a
    }

    fn seek(&mut self, delta_sec: i64, now: u64) -> (a: PlayerAction)
        requires
            old(self).wf(),
        ensures
            final(self).wf(),
            seek_step(old(self)@, delta_sec, now, final(self)@, a),
    {
        let current = match self.queue.current() {
            Some(t) => t.clone(),
            None => {
                return PlayerAction::Nothing;
            },
        };
        let streaming = match current.provider {
            ProviderKind::Local => false,
            _ => true,
        };
        if streaming && self.current_duration.is_none() {
            return PlayerAction::Nothing;
        }
        let pos = self.position(now);
        let shifted = shift_position(pos, delta_sec);
        let known = match self.current_duration {
            Some(d) => Some(d),
            None => current.duration,
        };
        self.begin(current, shifted, known, StartOrigin::Seek)
    }

    /// Carries out a command at `now`.
    pub fn dispatch(&mut self, command: MusicCommand, now: u64) -> (a: PlayerAction)
        requires
            old(self).wf(),
        ensures
            final(self).wf(),
            dispatch_step(old(self)@, command, now, final(self)@, a),
    {
        match command {
            MusicCommand::Play => self.play(now),
            MusicCommand::Pause => self.pause(now),
            MusicCommand::Toggle => {
                let playing = match &self.state {
                    PlaybackState::Playing => true,
                    _ => false,
                };
                if playing {
                    self.pause(now)
                } else {
                    self.play(now)
                }
            },
            MusicCommand::Stop => self.stop(),
            MusicCommand::Next => self.next(true, StartOrigin::Command),
            MusicCommand::Prev => self.prev(),
            MusicCommand::Seek(delta) => {
                self.pending_seek_sec = saturating_add_i64(self.pending_seek_sec, delta);
                self.seek_requested_at = Some(now);
                PlayerAction::Nothing
            },
            MusicCommand::SetVolume(volume) => {
                self.volume = if volume > 100 {
                    100
                } else {
                    volume
                };
                if self.has_sink {
                    PlayerAction::ApplyVolume(self.effective_volume())
                } else {
                    PlayerAction::Nothing
                }
            },
            MusicCommand::ToggleShuffle => {
                self.queue.toggle_shuffle();
                PlayerAction::Nothing
            },
            MusicCommand::SetRepeat(mode) => {
                self.queue.set_repeat_mode(mode);
                PlayerAction::Nothing
            },
            MusicCommand::Load(inputs) => PlayerAction::BuildTracks(inputs),
            MusicCommand::LoadUrl(url) => PlayerAction::BuildUrl(url),
        }
    }

    /// The track asked for by `Start` plays from `start_at_ms`, its length `total` if the
    /// output found one.
    pub fn track_started(
        &mut self,
        now: u64,
        start_at_ms: u64,
        total: Option<Duration>,
        origin: StartOrigin,
    )
        requires
            old(self).wf(),
        ensures
            final(self).wf(),
            final(self)@ == (PlayerModel {
                queue: match total {
                    Some(d) => with_current_duration(old(self)@.queue, d),
                    None => old(self)@.queue,
                },
                current_duration: total,
                started_at: Some(now),
                start_offset: start_at_ms,
                paused_at: Some(start_at_ms),
                state: PlaybackState::Playing,
                has_sink: true,
                last_error: None,
                seek_applied_at: if origin == StartOrigin::Seek {
                    Some(now)
                } else {
                    old(self)@.seek_applied_at
                },
                ..old(self)@
            }),
    {
        self.current_duration = total;
        if let Some(d) = total {
            let ghost q0 = self@.queue;
            self.queue.set_current_duration(d);
            assert(self@.queue.tracks =~= with_current_duration(q0, d).tracks);
        }
        self.started_at = Some(now);
        self.start_offset = start_at_ms;
        self.paused_at = Some(start_at_ms);
        self.state = PlaybackState::Playing;
        self.has_sink = true;
        self.last_error = None;
        if origin == StartOrigin::Seek {
            self.seek_applied_at = Some(now);
        }
    }

    /// The track asked for by `Start` could not be played; `sink_stopped` tells whether
    /// the previous sink had already been stopped. A failure on an automatic advance
    /// stops the player; any other shows the error.
    pub fn track_failed(&mut self, message: String, origin: StartOrigin, sink_stopped: bool)
        requires
            old(self).wf(),
        ensures
            final(self).wf(),
            final(self)@ == if origin == StartOrigin::AutoAdvance {
                stopped(old(self)@)
            } else {
                PlayerModel {
                    state: PlaybackState::Error(message),
                    last_error: Some(message),
                    has_sink: old(self)@.has_sink && !sink_stopped,
                    ..old(self)@
                }
            },
    {
        if origin == StartOrigin::AutoAdvance {
            self.stop();
        } else {
            self.state = PlaybackState::Error(message.clone());
            self.last_error = Some(message);
            self.has_sink = self.has_sink && !sink_stopped;
        }
    }

    /// Replaces the queue: the selection and cursor go to the first track and the player
    /// is idle.
    pub fn load(&mut self, tracks: Vec<TrackMeta>)
        requires
            old(self).wf(),
        ensures
            final(self).wf(),
            final(self)@ == (PlayerModel {
                queue: QueueModel {
                    tracks: tracks@,
                    current: if tracks@.len() == 0 {
                        None::<int>
                    } else {
                        Some(0int)
                    },
                    ..old(self)@.queue
                },
                selected_index: 0,
                state: PlaybackState::Idle,
                started_at: None,
                paused_at: None,
                current_duration: None,
                ..old(self)@
            }),
    {
        self.queue.load(tracks);
        self.selected_index = 0;
        self.state = PlaybackState::Idle;
        self.started_at = None;
        self.paused_at = None;
        self.current_duration = None;
    }

    /// The tracks found at `url` are added to the end of the queue; when there are none,
    /// the error says so.
    pub fn url_loaded(&mut self, url: &str, tracks: Vec<TrackMeta>)
        requires
            old(self).wf(),
        ensures
            final(self).wf(),
            tracks@.len() == 0 ==> (final(self)@ == (PlayerModel {
                last_error: final(self)@.last_error,
                ..old(self)@
            }) && (final(self)@.last_error matches Some(e) && e@
                == "No playable tracks found at: "@ + url@)),
            tracks@.len() > 0 ==> (final(self)@ == (PlayerModel {
                queue: QueueModel {
                    tracks: old(self)@.queue.tracks + tracks@,
                    current: if old(self)@.queue.tracks.len() == 0 {
                        Some(0int)
                    } else {
                        old(self)@.queue.current
                    },
                    ..old(self)@.queue
                },
                last_error: None,
                ..old(self)@
            })),
    {
        if tracks.len() == 0 {
            let mut message = string_of(&chars_of("No playable tracks found at: "));
            message.append(url);
            self.last_error = Some(message);
            return;
        }
        self.queue.append(tracks);
        self.last_error = None;
    }

    /// One frame of the visualizer passes; it only moves while playing. Returns whether
    /// it moved (and the spectrum is to be refreshed).
    pub fn advance_frame(&mut self) -> (moved: bool)
        requires
            old(self).wf(),
        ensures
            final(self).wf(),
            moved == old(self)@.state is Playing,
            final(self)@ == if moved {
                PlayerModel {
                    frame: if old(self)@.frame == u64::MAX {
                        0
                    } else {
                        (old(self)@.frame + 1) as u64
                    },
                    ..old(self)@
                }
            } else {
                old(self)@
            },
    {
        match &self.state {
            PlaybackState::Playing => {
                self.frame = if self.frame == u64::MAX {
                    0
                } else {
                    self.frame + 1
                };
                true
            },
            _ => false,
        }
    }

    /// Applies the pending seek once it is due (see `spec_seek_due`).
    pub fn flush_pending_seek(&mut self, now: u64) -> (a: PlayerAction)
        requires
            old(self).wf(),
        ensures
            final(self).wf(),
            !spec_seek_due(
                now as nat,
                old(self)@.pending_seek_sec as int,
                old(self)@.seek_requested_at,
                old(self)@.seek_applied_at,
            ) ==> final(self)@ == old(self)@ && a == PlayerAction::Nothing,
            spec_seek_due(
                now as nat,
                old(self)@.pending_seek_sec as int,
                old(self)@.seek_requested_at,
                old(self)@.seek_applied_at,
            ) ==> {
                let taken = PlayerModel {
                    pending_seek_sec: 0,
                    seek_requested_at: None,
                    ..old(self)@
                };
                if a == PlayerAction::Nothing {
                    exists|m: PlayerModel|
                        seek_step(taken, old(self)@.pending_seek_sec, now, m, a) && final(self)@
                            == (PlayerModel { seek_applied_at: Some(now), ..m })
                } else {
                    seek_step(taken, old(self)@.pending_seek_sec, now, final(self)@, a)
                }
            },
    {
        if !seek_due(now, self.pending_seek_sec, self.seek_requested_at, self.seek_applied_at) {
            return PlayerAction::Nothing;
        }
        let delta = self.pending_seek_sec;
        self.pending_seek_sec = 0;
        self.seek_requested_at = None;
        let ghost taken = self@;
        let a = self.seek(delta, now);
        match a {
            PlayerAction::Nothing => {
                let ghost m = self@;
                self.seek_applied_at = Some(now);
                assert(seek_step(taken, delta, now, m, a));
            },
            _ => {},
        }
        a
    }

    /// The sink has played all it was given: if the player was playing, the track has
    /// ended and the queue advances on its own.
    pub fn sink_drained(&mut self) -> (a: PlayerAction)
        requires
            old(self).wf(),
        ensures
            final(self).wf(),
            old(self)@.has_sink && old(self)@.state is Playing ==> next_step(
                PlayerModel { state: PlaybackState::Ended, ..old(self)@ },
                false,
                StartOrigin::AutoAdvance,
                final(self)@,
                a,
            ),
            !(old(self)@.has_sink && old(self)@.state is Playing) ==> final(self)@ == old(self)@
                && a == PlayerAction::Nothing,
    {
        let playing = match &self.state {
            PlaybackState::Playing => true,
            _ => false,
        };
        if self.has_sink && playing {
            self.state = PlaybackState::Ended;
            self.next(false, StartOrigin::AutoAdvance)
        } else {
            PlayerAction::Nothing
        }
    }

    /// Mutes or unmutes.
    pub fn toggle_mute(&mut self) -> (a: PlayerAction)
        requires
            old(self).wf(),
        ensures
            final(self).wf(),
            final(self)@ == (PlayerModel { muted: !old(self)@.muted, ..old(self)@ }),
            a == if old(self)@.has_sink {
                PlayerAction::ApplyVolume(spec_effective_volume(final(self)@))
            } else {
                PlayerAction::Nothing
            },
    {
        self.muted = !self.muted;
        if self.has_sink {
            PlayerAction::ApplyVolume(self.effective_volume())
        } else {
            PlayerAction::Nothing
        }
    }

    pub fn cycle_visualizer_mode(&mut self)
        requires
            old(self).wf(),
        ensures
            final(self).wf(),
            final(self)@ == (PlayerModel {
                visualizer_mode: old(self)@.visualizer_mode.spec_next(),
                ..old(self)@
            }),
    {
        self.visualizer_mode = self.visualizer_mode.next();
    }

    /// Stops playback before the program exits.
    pub fn shutdown(&mut self) -> (a: PlayerAction)
        requires
            old(self).wf(),
        ensures
            final(self).wf(),
            final(self)@ == stopped(old(self)@),
            a == stop_action(old(self)@),
    {
        self.stop()
    }
}

/// Pausing and then playing again resumes where playback was paused: the position at
/// the moment of resuming is the one kept at the pause.
pub proof fn law_pause_then_play_keeps_position(
    m: PlayerModel,
    t_pause: u64,
    t_play: u64,
    m1: PlayerModel,
    a1: PlayerAction,
    m2: PlayerModel,
    a2: PlayerAction,
)
    requires
        m.has_sink,
        m.state is Playing,
        pause_step(m, t_pause, m1, a1),
        play_step(m1, t_play, m2, a2),
    ensures
        a1 == PlayerAction::Pause,
        a2 == PlayerAction::Resume,
        m2.state is Playing,
        spec_position(m2, t_play) == spec_position(m, t_pause),
        m2.queue == m.queue,
{
}

/// Stopping always leaves the player stopped at the start with no sink, whatever it was
/// doing; a second stop changes nothing.
pub proof fn law_stop_is_final(m: PlayerModel, now: u64)
    ensures
        stopped(m).state is Stopped,
        !stopped(m).has_sink,
        spec_position(stopped(m), now) == 0,
        stopped(stopped(m)) == stopped(m),
        stop_action(stopped(m)) == PlayerAction::Nothing,
{
}

/// A live stream, whose length is unknown, cannot be seeked: the seek leaves the player
/// as it was and asks nothing of the audio output.
pub proof fn law_live_streams_do_not_seek(
    m: PlayerModel,
    delta_sec: i64,
    now: u64,
    m1: PlayerModel,
    a: PlayerAction,
)
    requires
        queue_wf(m.queue),
        m.queue.current matches Some(i) && m.queue.tracks[i].provider != ProviderKind::Local,
        m.current_duration is None,
        seek_step(m, delta_sec, now, m1, a),
    ensures
        m1 == m,
        a == PlayerAction::Nothing,
{
}

/// Space pauses playing music and a second Space resumes it where it was paused.
pub proof fn law_toggle_twice_resumes(
    m: PlayerModel,
    t1: u64,
    t2: u64,
    m1: PlayerModel,
    a1: PlayerAction,
    m2: PlayerModel,
    a2: PlayerAction,
)
    requires
        m.has_sink,
        m.state is Playing,
        dispatch_step(m, MusicCommand::Toggle, t1, m1, a1),
        dispatch_step(m1, MusicCommand::Toggle, t2, m2, a2),
    ensures
        m1.state is Paused,
        a1 == PlayerAction::Pause,
        m2.state is Playing,
        a2 == PlayerAction::Resume,
        spec_position(m2, t2) == spec_position(m, t1),
{
}

} // verus!
