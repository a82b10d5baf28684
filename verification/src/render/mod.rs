//! The layout and pixel rules behind the dashboard's drawing: Braille dot grids, bars,
//! text fitting and the weather scene's geometry.

pub mod braille;
pub mod noise;
pub mod progress;
pub mod visualizer;
pub mod draw;
pub mod weathr;
