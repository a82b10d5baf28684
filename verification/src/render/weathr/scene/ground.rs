//! The strip of ground along the bottom of the scene.

use vstd::prelude::*;

verus! {

#[derive(Debug, Clone, Copy, Default)]
pub struct Ground;

/// What falls on the ground.
#[derive(Debug, Clone, Copy, Default)]
pub struct GroundWeather {
    pub is_raining: bool,
    pub is_snowing: bool,
    pub is_thunderstorm: bool,
}

/// The colors the ground is painted in.
#[derive(Debug, Clone, Copy, PartialEq, Eq, Structural)]
pub enum GroundPalette {
    Snowy,
    Wet,
    Dry,
}

impl Ground {
    /// Snow covers the ground whatever else falls; rain or a storm wets it; else it is dry.
    pub fn palette(&self, weather: GroundWeather) -> (r: GroundPalette)
        ensures
            r == (if weather.is_snowing {
                GroundPalette::Snowy
            } else if weather.is_raining || weather.is_thunderstorm {
                GroundPalette::Wet
            } else {
                GroundPalette::Dry
            }),
    {
        if weather.is_snowing {
            GroundPalette::Snowy
        } else if weather.is_raining || weather.is_thunderstorm {
            GroundPalette::Wet
        } else {
            GroundPalette::Dry
        }
    }

    /// Puddles lie on the ground while it rains or storms, snow or not.
    pub fn has_puddles(&self, weather: GroundWeather) -> (r: bool)
        ensures
            r == (weather.is_raining || weather.is_thunderstorm),
    {
        weather.is_raining || weather.is_thunderstorm
    }
}

} // verus!
