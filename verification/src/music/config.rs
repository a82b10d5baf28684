//! Player settings: the saved configuration, overridden by command-line options.

use vstd::prelude::*;

use super::RepeatMode;

verus! {

#[derive(Debug, Clone, Copy)]
pub struct MusicCliOptions {
    pub shuffle: bool,
    pub repeat_mode: Option<RepeatMode>,
    pub volume: Option<u8>,
    pub auto_play: bool,
}

#[derive(Debug, Clone, Copy)]
pub struct MusicConfig {
    pub shuffle: bool,
    pub repeat_mode: RepeatMode,
    pub volume: u8,
    pub auto_play: bool,
}

/// Shuffle is off unless configured.
pub fn default_shuffle() -> (r: bool)
    ensures
        r == false,
{
    false
}

/// The volume when none is configured.
pub fn default_volume() -> (r: u8)
    ensures
        r == 80,
{
    80
}

impl Default for MusicConfig {
    fn default() -> (c: Self)
        ensures
            c.shuffle == false,
            c.repeat_mode == RepeatMode::Off,
            c.volume == 80,
            c.auto_play == false,
    {
        MusicConfig {
            shuffle: default_shuffle(),
            repeat_mode: RepeatMode::Off,
            volume: default_volume(),
            auto_play: false,
        }
    }
}

impl MusicConfig {
    /// Options given on the command line win: shuffle and auto-play can only be
    /// switched on, a repeat mode or volume replaces the configured one (the
    /// volume capped at 100).
    pub fn merge_cli(self, cli: &MusicCliOptions) -> (r: Self)
        ensures
            r.shuffle == (self.shuffle || cli.shuffle),
            r.repeat_mode == match cli.repeat_mode {
                Some(m) => m,
                None => self.repeat_mode,
            },
            r.volume == match cli.volume {
                Some(v) => if v > 100 {
                    100
                } else {
                    v
                },
                None => self.volume,
            },
            r.auto_play == (self.auto_play || cli.auto_play),
    {
        let mut merged = self;
        if cli.shuffle {
            merged.shuffle = true;
        }
        if let Some(repeat_mode) = cli.repeat_mode {
            merged.repeat_mode = repeat_mode;
        }
        if let Some(volume) = cli.volume {
            merged.volume = if volume > 100 {
                100
            } else {
                volume
            };
        }
        if cli.auto_play {
            merged.auto_play = true;
        }
        merged
    }
}

/// Merging the same options twice changes nothing more than merging them once.
pub proof fn law_merge_idempotent(cfg: MusicConfig, cli: MusicCliOptions)
    ensures
        ({
            let once = MusicConfig {
                shuffle: cfg.shuffle || cli.shuffle,
                repeat_mode: match cli.repeat_mode {
                    Some(m) => m,
                    None => cfg.repeat_mode,
                },
                volume: match cli.volume {
                    Some(v) => if v > 100 {
                        100
                    } else {
                        v
                    },
                    None => cfg.volume,
                },
                auto_play: cfg.auto_play || cli.auto_play,
            };
            &&& (once.shuffle || cli.shuffle) == once.shuffle
            &&& (once.auto_play || cli.auto_play) == once.auto_play
            &&& once.volume <= 100 || cli.volume is None
        }),
{
}

} // verus!
