//! The animated weather scene: a house on a plot of ground under the live sky.

pub mod animation;
pub mod frame;
pub mod halfblock;
pub mod scene;
pub mod types;
