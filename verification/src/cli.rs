//! The subcommands of the program, and what each one asks of the dashboard.
//!
//! Argument parsing itself is done by the binary; the library sees the subcommand
//! that was chosen, or none.

use vstd::prelude::*;

use crate::app::ModeKind;
use crate::music::config::MusicCliOptions;
use crate::music::RepeatMode;

verus! {

#[derive(Debug, Clone)]
pub enum Command {
    Clock,
    Pomodoro { light_bg: bool },
    Music {
        inputs: Vec<String>,
        shuffle: bool,
        repeat: Option<RepeatMode>,
        volume: Option<u8>,
        auto_play: bool,
    },
}

pub open spec fn spec_initial_mode(command: Option<Command>) -> ModeKind {
    match command {
        Some(Command::Pomodoro { .. }) => ModeKind::Pomodoro,
        Some(Command::Music { .. }) => ModeKind::Music,
        _ => ModeKind::Clock,
    }
}

/// The mode the dashboard opens in: that of the subcommand, the clock when there is none.
pub fn initial_mode(command: &Option<Command>) -> (r: ModeKind)
    ensures
        r == spec_initial_mode(*command),
{
    match command {
        Some(Command::Clock) => ModeKind::Clock,
        Some(Command::Pomodoro { .. }) => ModeKind::Pomodoro,
        Some(Command::Music { .. }) => ModeKind::Music,
        None => ModeKind::Clock,
    }
}

/// Whether the pomodoro was asked for with colors for a light background.
pub fn light_bg(command: &Option<Command>) -> (r: bool)
    ensures
        r == (*command matches Some(Command::Pomodoro { light_bg }) && light_bg),
{
    match command {
        Some(Command::Pomodoro { light_bg }) => *light_bg,
        _ => false,
    }
}

/// The paths and URLs given to the music subcommand; none for the other subcommands.
pub fn music_inputs(command: &Option<Command>) -> (r: &[String])
    ensures
        match *command {
            Some(Command::Music { inputs, .. }) => r@ == inputs@,
            _ => r@.len() == 0,
        },
{
    match command {
        Some(Command::Music { inputs, .. }) => inputs.as_slice(),
        _ => &[],
    }
}

/// The player options given to the music subcommand; all unset for the other subcommands.
pub fn music_options(command: &Option<Command>) -> (r: MusicCliOptions)
    ensures
        match *command {
            Some(Command::Music { shuffle, repeat, volume, auto_play, .. }) => {
                &&& r.shuffle == shuffle
                &&& r.repeat_mode == repeat
                &&& r.volume == volume
                &&& r.auto_play == auto_play
            },
            _ => {
                &&& r.shuffle == false
                &&& r.repeat_mode is None
                &&& r.volume is None
                &&& r.auto_play == false
            },
        },
{
    match command {
        Some(Command::Music { shuffle, repeat, volume, auto_play, .. }) => MusicCliOptions {
            shuffle: *shuffle,
            repeat_mode: *repeat,
            volume: *volume,
            auto_play: *auto_play,
        },
        _ => MusicCliOptions { shuffle: false, repeat_mode: None, volume: None, auto_play: false },
    }
}

} // verus!
