//! How hard it rains, snows or fogs, and which strength each weather condition calls for.

use vstd::prelude::*;

use crate::weather_live::WeatherCondition;

verus! {

#[derive(Debug, Clone, Copy, PartialEq, Eq, Structural)]
pub enum RainIntensity {
    Drizzle,
    Light,
    Heavy,
    Storm,
}

#[derive(Debug, Clone, Copy, PartialEq, Eq, Structural)]
pub enum SnowIntensity {
    Light,
    Medium,
    Heavy,
}

#[derive(Debug, Clone, Copy, PartialEq, Eq, Structural)]
pub enum FogIntensity {
    Light,
    Medium,
    Heavy,
}

pub open spec fn spec_rain_intensity(c: WeatherCondition) -> RainIntensity {
    match c {
        WeatherCondition::Drizzle => RainIntensity::Drizzle,
        WeatherCondition::FreezingRain | WeatherCondition::Thunderstorm => RainIntensity::Heavy,
        WeatherCondition::ThunderstormHail => RainIntensity::Storm,
        _ => RainIntensity::Light,
    }
}

/// The rain the scene shows for a condition: drizzle, a storm for hail, heavy rain for
/// freezing rain and thunderstorms, light rain otherwise.
pub fn rain_intensity_for(c: WeatherCondition) -> (r: RainIntensity)
    ensures
        r == spec_rain_intensity(c),
{
    match c {
        WeatherCondition::Drizzle => RainIntensity::Drizzle,
        WeatherCondition::Rain | WeatherCondition::RainShowers => RainIntensity::Light,
        WeatherCondition::FreezingRain | WeatherCondition::Thunderstorm => RainIntensity::Heavy,
        WeatherCondition::ThunderstormHail => RainIntensity::Storm,
        _ => RainIntensity::Light,
    }
}

pub open spec fn spec_snow_intensity(c: WeatherCondition) -> SnowIntensity {
    match c {
        WeatherCondition::SnowShowers => SnowIntensity::Medium,
        WeatherCondition::Snow => SnowIntensity::Heavy,
        _ => SnowIntensity::Light,
    }
}

/// The snow the scene shows for a condition: heavy for snow, medium for showers, light
/// otherwise.
pub fn snow_intensity_for(c: WeatherCondition) -> (r: SnowIntensity)
    ensures
        r == spec_snow_intensity(c),
{
    match c {
        WeatherCondition::SnowGrains => SnowIntensity::Light,
        WeatherCondition::SnowShowers => SnowIntensity::Medium,
        WeatherCondition::Snow => SnowIntensity::Heavy,
        _ => SnowIntensity::Light,
    }
}

/// The fog the scene shows for a condition: medium in fog, light otherwise.
pub fn fog_intensity_for(c: WeatherCondition) -> (r: FogIntensity)
    ensures
        r == (if c is Fog {
            FogIntensity::Medium
        } else {
            FogIntensity::Light
        }),
{
    match c {
        WeatherCondition::Fog => FogIntensity::Medium,
        _ => FogIntensity::Light,
    }
}

/// What the scene draws for the current weather. A thunderstorm is drawn as a storm,
/// not as rain, so the two flags never both hold.
#[derive(Debug, Clone, Copy, PartialEq, Eq, Structural)]
pub struct WeatherFlags {
    pub is_raining: bool,
    pub is_snowing: bool,
    pub is_thunderstorm: bool,
    pub is_cloudy: bool,
    pub is_foggy: bool,
    pub is_day: bool,
}

impl WeatherFlags {
    pub fn from_condition(c: WeatherCondition, is_day: bool) -> (f: Self)
        ensures
            f.is_raining == (c.spec_is_raining() && !c.spec_is_thunderstorm()),
            f.is_snowing == c.spec_is_snowing(),
            f.is_thunderstorm == c.spec_is_thunderstorm(),
            f.is_cloudy == c.spec_is_cloudy(),
            f.is_foggy == c.spec_is_foggy(),
            f.is_day == is_day,
            !(f.is_raining && f.is_thunderstorm),
    {
        WeatherFlags {
            is_raining: c.is_raining() && !c.is_thunderstorm(),
            is_snowing: c.is_snowing(),
            is_thunderstorm: c.is_thunderstorm(),
            is_cloudy: c.is_cloudy(),
            is_foggy: c.is_foggy(),
            is_day,
        }
    }
}

/// The sun is out by day under a clear or partly cloudy sky.
pub fn should_show_sun(c: WeatherCondition, is_day: bool) -> (r: bool)
    ensures
        r == (is_day && (c is Clear || c is PartlyCloudy)),
{
    if !is_day {
        return false;
    }
    match c {
        WeatherCondition::Clear | WeatherCondition::PartlyCloudy => true,
        _ => false,
    }
}

} // verus!
