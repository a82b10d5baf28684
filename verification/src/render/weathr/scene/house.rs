//! The house in the middle of the scene.

use vstd::prelude::*;

verus! {

/// The house's footprint in cells.
#[derive(Debug, Clone, Copy, Default)]
pub struct House;

pub const HOUSE_WIDTH: u16 = 24;

pub const HOUSE_HEIGHT: u16 = 10;

/// How far from the house's left edge the chimney stands.
pub const CHIMNEY_X_OFFSET: u16 = 4;

impl House {
    pub fn height(&self) -> (r: u16)
        ensures
            r == HOUSE_HEIGHT,
    {
        HOUSE_HEIGHT
    }

    pub fn width(&self) -> (r: u16)
        ensures
            r == HOUSE_WIDTH,
    {
        HOUSE_WIDTH
    }
}

} // verus!
