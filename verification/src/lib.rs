//! A terminal dashboard: clock, pomodoro timer, weather scene and music player.
//!
//! This crate holds the dashboard's state machines, parsers and layout rules;
//! time is given to it as milliseconds on a monotonic clock.

pub mod modes;
pub mod text;
pub mod music;
pub mod animation;
pub mod app;
pub mod weather_live;
pub mod cli;
pub mod render;
