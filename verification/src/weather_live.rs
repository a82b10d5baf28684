//! Weather conditions, as reported by the WMO weather codes of a forecast service.

use vstd::prelude::*;

verus! {

#[derive(Debug, Clone, Copy, PartialEq, Eq, Structural)]
pub enum WeatherCondition {
    Clear,
    PartlyCloudy,
    Overcast,
    Fog,
    Drizzle,
    Rain,
    FreezingRain,
    Snow,
    SnowGrains,
    RainShowers,
    SnowShowers,
    Thunderstorm,
    ThunderstormHail,
}

impl WeatherCondition {
    pub open spec fn spec_label(self) -> Seq<char> {
        match self {
            WeatherCondition::Clear => "Clear"@,
            WeatherCondition::PartlyCloudy => "PartlyCloudy"@,
            WeatherCondition::Overcast => "Overcast"@,
            WeatherCondition::Fog => "Fog"@,
            WeatherCondition::Drizzle => "Drizzle"@,
            WeatherCondition::Rain => "Rain"@,
            WeatherCondition::FreezingRain => "FreezingRain"@,
            WeatherCondition::Snow => "Snow"@,
            WeatherCondition::SnowGrains => "SnowGrains"@,
            WeatherCondition::RainShowers => "RainShowers"@,
            WeatherCondition::SnowShowers => "SnowShowers"@,
            WeatherCondition::Thunderstorm => "Thunderstorm"@,
            WeatherCondition::ThunderstormHail => "ThunderstormHail"@,
        }
    }

    /// The condition's identifier, as the scene renderer names its presets.
    pub fn label(self) -> (r: &'static str)
        ensures
            r@ == self.spec_label(),
    {
        match self {
            WeatherCondition::Clear => "Clear",
            WeatherCondition::PartlyCloudy => "PartlyCloudy",
            WeatherCondition::Overcast => "Overcast",
            WeatherCondition::Fog => "Fog",
            WeatherCondition::Drizzle => "Drizzle",
            WeatherCondition::Rain => "Rain",
            WeatherCondition::FreezingRain => "FreezingRain",
            WeatherCondition::Snow => "Snow",
            WeatherCondition::SnowGrains => "SnowGrains",
            WeatherCondition::RainShowers => "RainShowers",
            WeatherCondition::SnowShowers => "SnowShowers",
            WeatherCondition::Thunderstorm => "Thunderstorm",
            WeatherCondition::ThunderstormHail => "ThunderstormHail",
        }
    }

    pub open spec fn spec_ui_text(self) -> Seq<char> {
        match self {
            WeatherCondition::Clear => "Clear"@,
            WeatherCondition::PartlyCloudy => "Partly Cloudy"@,
            WeatherCondition::Overcast => "Overcast"@,
            WeatherCondition::Fog => "Fog"@,
            WeatherCondition::Drizzle => "Drizzle"@,
            WeatherCondition::Rain => "Rain"@,
            WeatherCondition::FreezingRain => "Freezing Rain"@,
            WeatherCondition::Snow => "Snow"@,
            WeatherCondition::SnowGrains => "Snow Grains"@,
            WeatherCondition::RainShowers => "Rain Showers"@,
            WeatherCondition::SnowShowers => "Snow Showers"@,
            WeatherCondition::Thunderstorm => "Thunderstorm"@,
            WeatherCondition::ThunderstormHail => "Thunderstorm with Hail"@,
        }
    }

    /// The condition as shown to the user.
    pub fn ui_text(self) -> (r: &'static str)
        ensures
            r@ == self.spec_ui_text(),
    {
        match self {
            WeatherCondition::Clear => "Clear",
            WeatherCondition::PartlyCloudy => "Partly Cloudy",
            WeatherCondition::Overcast => "Overcast",
            WeatherCondition::Fog => "Fog",
            WeatherCondition::Drizzle => "Drizzle",
            WeatherCondition::Rain => "Rain",
            WeatherCondition::FreezingRain => "Freezing Rain",
            WeatherCondition::Snow => "Snow",
            WeatherCondition::SnowGrains => "Snow Grains",
            WeatherCondition::RainShowers => "Rain Showers",
            WeatherCondition::SnowShowers => "Snow Showers",
            WeatherCondition::Thunderstorm => "Thunderstorm",
            WeatherCondition::ThunderstormHail => "Thunderstorm with Hail",
        }
    }

    pub open spec fn spec_is_raining(self) -> bool {
        ||| self is Drizzle
        ||| self is Rain
        ||| self is RainShowers
        ||| self is FreezingRain
        ||| self is Thunderstorm
        ||| self is ThunderstormHail
    }

    pub fn is_raining(self) -> (r: bool)
        ensures
            r == self.spec_is_raining(),
    {
        match self {
            WeatherCondition::Drizzle | WeatherCondition::Rain | WeatherCondition::RainShowers
            | WeatherCondition::FreezingRain | WeatherCondition::Thunderstorm
            | WeatherCondition::ThunderstormHail => true,
            _ => false,
        }
    }

    pub open spec fn spec_is_snowing(self) -> bool {
        self is Snow || self is SnowGrains || self is SnowShowers
    }

    pub fn is_snowing(self) -> (r: bool)
        ensures
            r == self.spec_is_snowing(),
    {
        match self {
            WeatherCondition::Snow | WeatherCondition::SnowGrains
            | WeatherCondition::SnowShowers => true,
            _ => false,
        }
    }

    pub open spec fn spec_is_thunderstorm(self) -> bool {
        self is Thunderstorm || self is ThunderstormHail
    }

    pub fn is_thunderstorm(self) -> (r: bool)
        ensures
            r == self.spec_is_thunderstorm(),
    {
        match self {
            WeatherCondition::Thunderstorm | WeatherCondition::ThunderstormHail => true,
            _ => false,
        }
    }

    pub open spec fn spec_is_cloudy(self) -> bool {
        self is PartlyCloudy || self is Overcast
    }

    pub fn is_cloudy(self) -> (r: bool)
        ensures
            r == self.spec_is_cloudy(),
    {
        match self {
            WeatherCondition::PartlyCloudy | WeatherCondition::Overcast => true,
            _ => false,
        }
    }

    pub open spec fn spec_is_foggy(self) -> bool {
        self is Fog
    }

    pub fn is_foggy(self) -> (r: bool)
        ensures
            r == self.spec_is_foggy(),
    {
        match self {
            WeatherCondition::Fog => true,
            _ => false,
        }
    }
}

/// The condition that a WMO weather code stands for; codes outside the table read as clear sky.
pub open spec fn spec_wmo_condition(code: int) -> WeatherCondition {
    if code == 0 {
        WeatherCondition::Clear
    } else if code == 1 || code == 2 {
        WeatherCondition::PartlyCloudy
    } else if code == 3 {
        WeatherCondition::Overcast
    } else if code == 45 || code == 48 {
        WeatherCondition::Fog
    } else if code == 51 || code == 53 || code == 55 {
        WeatherCondition::Drizzle
    } else if code == 56 || code == 57 || code == 66 || code == 67 {
        WeatherCondition::FreezingRain
    } else if code == 61 || code == 63 || code == 65 {
        WeatherCondition::Rain
    } else if code == 71 || code == 73 || code == 75 {
        WeatherCondition::Snow
    } else if code == 77 {
        WeatherCondition::SnowGrains
    } else if 80 <= code <= 82 {
        WeatherCondition::RainShowers
    } else if code == 85 || code == 86 {
        WeatherCondition::SnowShowers
    } else if code == 95 {
        WeatherCondition::Thunderstorm
    } else if code == 96 || code == 99 {
        WeatherCondition::ThunderstormHail
    } else {
        WeatherCondition::Clear
    }
}

/// The set of codes that the WMO table names.
pub open spec fn is_known_wmo_code(code: int) -> bool {
    ||| code == 0 || code == 1 || code == 2 || code == 3
    ||| code == 45 || code == 48
    ||| code == 51 || code == 53 || code == 55 || code == 56 || code == 57
    ||| code == 61 || code == 63 || code == 65 || code == 66 || code == 67
    ||| code == 71 || code == 73 || code == 75 || code == 77
    ||| 80 <= code <= 82 || code == 85 || code == 86
    ||| code == 95 || code == 96 || code == 99
}

pub fn map_wmo_to_condition(code: i32) -> (r: WeatherCondition)
    ensures
        r == spec_wmo_condition(code as int),
{
    match code {
        0 => WeatherCondition::Clear,
        1 | 2 => WeatherCondition::PartlyCloudy,
        3 => WeatherCondition::Overcast,
        45 | 48 => WeatherCondition::Fog,
        51 | 53 | 55 => WeatherCondition::Drizzle,
        56 | 57 => WeatherCondition::FreezingRain,
        61 | 63 | 65 => WeatherCondition::Rain,
        66 | 67 => WeatherCondition::FreezingRain,
        71 | 73 | 75 => WeatherCondition::Snow,
        77 => WeatherCondition::SnowGrains,
        80..=82 => WeatherCondition::RainShowers,
        85 | 86 => WeatherCondition::SnowShowers,
        95 => WeatherCondition::Thunderstorm,
        96 | 99 => WeatherCondition::ThunderstormHail,
        _ => WeatherCondition::Clear,
    }
}

/// A thunderstorm is always also rain, and the scene's weather families (rain, snow,
/// cloud, fog) never overlap.
pub proof fn law_condition_families(c: WeatherCondition)
    ensures
        c.spec_is_thunderstorm() ==> c.spec_is_raining(),
        !(c.spec_is_raining() && c.spec_is_snowing()),
        !(c.spec_is_raining() && c.spec_is_cloudy()),
        !(c.spec_is_raining() && c.spec_is_foggy()),
        !(c.spec_is_snowing() && c.spec_is_cloudy()),
        !(c.spec_is_snowing() && c.spec_is_foggy()),
        !(c.spec_is_cloudy() && c.spec_is_foggy()),
{
}

/// A code that the WMO table does not name reads as clear sky, and the only named code that
/// reads as clear sky is 0.
pub proof fn law_unknown_code_is_clear(code: int)
    ensures
        !is_known_wmo_code(code) ==> spec_wmo_condition(code) == WeatherCondition::Clear,
        is_known_wmo_code(code) ==> (spec_wmo_condition(code) == WeatherCondition::Clear
            <==> code == 0),
{
}

/// The weather families follow the WMO table: a code reads as snow exactly for the
/// snow codes (71, 73, 75, 77, 85, 86), as rain exactly for the drizzle, rain, freezing,
/// shower and thunderstorm codes, and as plain rain exactly for 61, 63 and 65 (slight,
/// moderate and heavy rain).
pub proof fn law_wmo_families(code: int)
    ensures
        spec_wmo_condition(code).spec_is_snowing() <==> (code == 71 || code == 73 || code == 75
            || code == 77 || code == 85 || code == 86),
        spec_wmo_condition(code).spec_is_raining() <==> (code == 51 || code == 53 || code == 55
            || code == 56 || code == 57 || code == 61 || code == 63 || code == 65 || code == 66
            || code == 67 || (80 <= code <= 82) || code == 95 || code == 96 || code == 99),
        (spec_wmo_condition(code) is Rain) <==> (code == 61 || code == 63 || code == 65),
        !(spec_wmo_condition(code).spec_is_raining() && spec_wmo_condition(code).spec_is_snowing()),
{
}

/// Every named WMO code reads as the condition its table row names: clear sky 0,
/// partly cloudy 1–2, overcast 3, fog 45/48, drizzle 51/53/55, freezing drizzle and rain
/// 56/57/66/67, rain 61/63/65, snow 71/73/75, snow grains 77, rain showers 80–82, snow
/// showers 85/86, thunderstorm 95, thunderstorm with hail 96/99.
pub proof fn law_wmo_rows(code: int)
    ensures
        (spec_wmo_condition(code) is PartlyCloudy) <==> (code == 1 || code == 2),
        (spec_wmo_condition(code) is Overcast) <==> code == 3,
        (spec_wmo_condition(code) is Fog) <==> (code == 45 || code == 48),
        (spec_wmo_condition(code) is Drizzle) <==> (code == 51 || code == 53 || code == 55),
        (spec_wmo_condition(code) is FreezingRain) <==> (code == 56 || code == 57 || code == 66
            || code == 67),
        (spec_wmo_condition(code) is Snow) <==> (code == 71 || code == 73 || code == 75),
        (spec_wmo_condition(code) is SnowGrains) <==> code == 77,
        (spec_wmo_condition(code) is RainShowers) <==> (80 <= code <= 82),
        (spec_wmo_condition(code) is SnowShowers) <==> (code == 85 || code == 86),
        (spec_wmo_condition(code) is Thunderstorm) <==> code == 95,
        (spec_wmo_condition(code) is ThunderstormHail) <==> (code == 96 || code == 99),
        code == 0 ==> spec_wmo_condition(code) is Clear,
{
}

} // verus!
