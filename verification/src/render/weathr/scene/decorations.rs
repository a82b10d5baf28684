//! The garden around the house: a tree and a mailbox to its left, a fence and a pine to
//! its right, each placed only where the scene has room for it.

use vstd::prelude::*;

verus! {

#[derive(Debug, Clone, Copy, Default)]
pub struct Decorations;

/// Where the house stands and how wide the scene is.
#[derive(Debug, Clone, Copy)]
pub struct DecorationRenderConfig {
    pub horizon_y: u16,
    pub house_x: u16,
    pub house_width: u16,
    pub width: u16,
    pub is_day: bool,
}

/// The left edge of each decoration that fits, in cells; `None` for one left out.
#[derive(Debug, Clone, Copy, PartialEq, Eq, Structural)]
pub struct DecorationLayout {
    pub tree_x: Option<u16>,
    pub fence_x: Option<u16>,
    pub mailbox_x: Option<u16>,
    pub pine_x: Option<u16>,
}

/// The left edge of the tree: twelve cells left of the house, or the scene's edge.
pub open spec fn tree_left(config: DecorationRenderConfig) -> int {
    if config.house_x >= 12 {
        config.house_x - 12
    } else {
        0
    }
}

/// The placement that the rules give: the tree where it keeps three cells from the
/// edge, the mailbox six cells left of the tree where it keeps two, the fence two cells
/// right of the house where it ends five cells before the scene's edge, and, in scenes
/// wider than sixty cells, the pine fourteen cells right of the house where it fits.
pub open spec fn spec_layout(config: DecorationRenderConfig) -> DecorationLayout {
    let tree = tree_left(config);
    let fence = config.house_x + config.house_width + 2;
    let pine = config.house_x + config.house_width + 14;
    let edge = if config.width >= 5 {
        config.width - 5
    } else {
        0
    };
    DecorationLayout {
        tree_x: if tree > 2 {
            Some(tree as u16)
        } else {
            None
        },
        fence_x: if fence < edge {
            Some(fence as u16)
        } else {
            None
        },
        mailbox_x: if tree - 6 > 1 {
            Some((tree - 6) as u16)
        } else {
            None
        },
        pine_x: if config.width > 60 && pine + 6 < config.width {
            Some(pine as u16)
        } else {
            None
        },
    }
}

impl Decorations {
    pub fn new() -> (d: Self) {
        Decorations
    }

    /// Which decorations the scene has room for, and where.
    pub fn layout(&self, config: &DecorationRenderConfig) -> (r: DecorationLayout)
        requires
            config.house_x + config.house_width + 2 <= u16::MAX,
            config.width > 60 ==> config.house_x + config.house_width + 20 <= u16::MAX,
        ensures
            r == spec_layout(*config),
    {
        let tree_x = config.house_x.saturating_sub(12);
        let tree = if tree_x > 2 {
            Some(tree_x)
        } else {
            None
        };
        let fence_x = config.house_x + config.house_width + 2;
        let fence = if fence_x < config.width.saturating_sub(5) {
            Some(fence_x)
        } else {
            None
        };
        let mailbox = if tree_x > 7 {
            Some(tree_x - 6)
        } else {
            None
        };
        let mut pine = None;
        if config.width > 60 {
            let pine_x = config.house_x + config.house_width + 14;
            if pine_x + 6 < config.width {
                pine = Some(pine_x);
            }
        }
        DecorationLayout { tree_x: tree, fence_x: fence, mailbox_x: mailbox, pine_x: pine }
    }
}

} // verus!
