//! The still part of the scene: ground, house and garden, laid out for the scene's size.

pub mod decorations;
pub mod ground;
pub mod house;

use vstd::prelude::*;

use decorations::{DecorationRenderConfig, Decorations};
use ground::Ground;
use house::{House, HOUSE_HEIGHT, HOUSE_WIDTH};

verus! {

/// How many rows of ground run along the bottom.
pub const GROUND_HEIGHT: u16 = 7;

pub struct WorldScene {
    house: House,
    ground: Ground,
    decorations: Decorations,
    width: u16,
    height: u16,
}

/// Where the parts of the scene stand, in cells.
#[derive(Debug, Clone, Copy, PartialEq, Eq, Structural)]
pub struct SceneLayout {
    /// The first row of ground.
    pub horizon_y: u16,
    pub house_x: u16,
    pub house_y: u16,
}

/// `a - b`, or 0 where `b` is larger.
pub open spec fn sat_sub(a: int, b: int) -> int {
    if a >= b {
        a - b
    } else {
        0
    }
}

/// The ground along the bottom, the house centred on it and standing on the horizon.
pub open spec fn spec_scene_layout(width: int, height: int) -> SceneLayout {
    let horizon = sat_sub(height, GROUND_HEIGHT as int);
    SceneLayout {
        horizon_y: horizon as u16,
        house_x: sat_sub(width / 2, (HOUSE_WIDTH / 2) as int) as u16,
        house_y: sat_sub(horizon, HOUSE_HEIGHT as int) as u16,
    }
}

impl WorldScene {
    pub closed spec fn spec_width(&self) -> u16 {
        self.width
    }

    pub closed spec fn spec_height(&self) -> u16 {
        self.height
    }

    pub fn new(width: u16, height: u16) -> (s: Self)
        ensures
            s.spec_width() == width,
            s.spec_height() == height,
    {
        WorldScene { house: House, ground: Ground, decorations: Decorations::new(), width, height }
    }

    pub fn update_size(&mut self, width: u16, height: u16)
        ensures
            final(self).spec_width() == width,
            final(self).spec_height() == height,
    {
        self.width = width;
        self.height = height;
    }

    /// Where the ground and the house stand at the scene's current size.
    pub fn layout(&self) -> (r: SceneLayout)
        ensures
            r == spec_scene_layout(self.spec_width() as int, self.spec_height() as int),
    {
        let horizon_y = self.height.saturating_sub(GROUND_HEIGHT);
        let house_x = (self.width / 2).saturating_sub(self.house.width() / 2);
        let house_y = horizon_y.saturating_sub(self.house.height());
        SceneLayout { horizon_y, house_x, house_y }
    }

    /// What the garden is told of the scene.
    pub fn decoration_config(&self, is_day: bool) -> (c: DecorationRenderConfig)
        ensures
            c.horizon_y == spec_scene_layout(
                self.spec_width() as int,
                self.spec_height() as int,
            ).horizon_y,
            c.house_x == spec_scene_layout(
                self.spec_width() as int,
                self.spec_height() as int,
            ).house_x,
            c.house_width == HOUSE_WIDTH,
            c.width == self.spec_width(),
            c.is_day == is_day,
    {
        let l = self.layout();
        DecorationRenderConfig {
            horizon_y: l.horizon_y,
            house_x: l.house_x,
            house_width: self.house.width(),
            width: self.width,
            is_day,
        }
    }

    /// The ground the scene stands on.
    pub closed spec fn spec_ground(&self) -> Ground {
        self.ground
    }

    /// The garden's decorations.
    pub closed spec fn spec_decorations(&self) -> Decorations {
        self.decorations
    }

    /// The scene's ground.
    pub fn ground(&self) -> (g: &Ground)
        ensures
            *g == self.spec_ground(),
    {
        &self.ground
    }

    /// The scene's decorations.
    pub fn decorations(&self) -> (d: &Decorations)
        ensures
            *d == self.spec_decorations(),
    {
        &self.decorations
    }
}

/// The house stands within the scene whenever the scene is wide enough for it, and the
/// garden's placement rules can always be applied to the scene's own layout.
pub proof fn law_scene_layout_fits(width: u16, height: u16, is_day: bool)
    ensures
        ({
            let l = spec_scene_layout(width as int, height as int);
            &&& width >= HOUSE_WIDTH ==> l.house_x + HOUSE_WIDTH <= width
            &&& l.house_y + HOUSE_HEIGHT <= l.horizon_y || l.house_y == 0
            &&& l.horizon_y <= height
            &&& l.house_x + HOUSE_WIDTH + 20 <= u16::MAX
        }),
{
}

} // verus!
