//! What one frame of the weather scene does: which layers move and show under the
//! current weather, how many fixed simulation steps the elapsed time pays for, and
//! where the heads-up text goes.

use vstd::prelude::*;

use crate::render::weathr::types::{should_show_sun, WeatherFlags};
use crate::weather_live::WeatherCondition;

verus! {

/// The length of one simulation step, in nanoseconds (33 ms).
pub const SIM_STEP_NS: u64 = 33_000_000;

/// The most simulation steps one frame runs.
pub const MAX_SIM_STEPS: u8 = 8;

/// The most time one frame accounts for, in nanoseconds (250 ms): a longer pause is
/// not caught up.
pub const MAX_FRAME_DELTA_NS: u64 = 250_000_000;

/// The time banked for the simulation after a frame that took `delta` nanoseconds.
pub open spec fn banked(accumulator: nat, delta: nat) -> nat {
    let capped = if delta < MAX_FRAME_DELTA_NS { delta } else { MAX_FRAME_DELTA_NS as nat };
    if accumulator + capped <= u64::MAX {
        accumulator + capped
    } else {
        u64::MAX as nat
    }
}

/// The number of steps a frame runs: one per whole step banked, at most `MAX_SIM_STEPS`.
pub open spec fn spec_sim_steps(accumulator: nat, delta: nat) -> nat {
    let due = banked(accumulator, delta) / (SIM_STEP_NS as nat);
    if due < MAX_SIM_STEPS { due } else { MAX_SIM_STEPS as nat }
}

/// Banks the frame time `delta` (capped at `MAX_FRAME_DELTA_NS`) onto `accumulator`
/// and takes out whole simulation steps, at most `MAX_SIM_STEPS`; returns the number of
/// steps to run and the time left banked.
pub fn sim_steps(accumulator: u64, delta: u64) -> (r: (u8, u64))
    ensures
        r.0 == spec_sim_steps(accumulator as nat, delta as nat),
        r.1 == banked(accumulator as nat, delta as nat) - r.0 * SIM_STEP_NS,
{
    let capped = if delta < MAX_FRAME_DELTA_NS { delta } else { MAX_FRAME_DELTA_NS };
    let mut acc = accumulator.saturating_add(capped);
    let ghost total = acc as nat;
    assert(total == banked(accumulator as nat, delta as nat));
    let mut steps: u8 = 0;
    while acc >= SIM_STEP_NS && steps < MAX_SIM_STEPS
        invariant
            steps <= MAX_SIM_STEPS,
            acc == total - steps * SIM_STEP_NS,
            steps * SIM_STEP_NS <= total,
            total == banked(accumulator as nat, delta as nat),
        decreases acc,
    {
        acc = acc - SIM_STEP_NS;
        steps = steps + 1;
    }
    proof {
        let s = SIM_STEP_NS as int;
        vstd::arithmetic::div_mod::lemma_fundamental_div_mod(total as int, s);
        if steps < MAX_SIM_STEPS {
            assert(total - steps * s < s);
            vstd::arithmetic::div_mod::lemma_fundamental_div_mod_converse(
                total as int,
                s,
                steps as int,
                total - steps * s,
            );
        } else {
            assert((total as int) / s >= MAX_SIM_STEPS) by {
                vstd::arithmetic::div_mod::lemma_div_is_ordered(steps * s, total as int, s);
                vstd::arithmetic::div_mod::lemma_div_multiples_vanish(steps as int, s);
            }
        }
    }
    (steps, acc)
}

/// Fireflies glow on a warm night under a clear or partly cloudy sky; `warm` says
/// that it is above 15 °C.
pub open spec fn spec_fireflies_visible(c: WeatherCondition, is_day: bool, warm: bool) -> bool {
    &&& !is_day
    &&& warm
    &&& (c is Clear || c is PartlyCloudy)
    &&& !c.spec_is_raining()
    &&& !c.spec_is_thunderstorm()
    &&& !c.spec_is_snowing()
}

pub fn fireflies_visible(c: WeatherCondition, is_day: bool, warm: bool) -> (r: bool)
    ensures
        r == spec_fireflies_visible(c, is_day, warm),
{
    if is_day {
        return false;
    }
    let sky = match c {
        WeatherCondition::Clear | WeatherCondition::PartlyCloudy => true,
        _ => false,
    };
    warm && sky && !c.is_raining() && !c.is_thunderstorm() && !c.is_snowing()
}

/// Butterflies fly on a warm day under a clear or partly cloudy sky; `warm` says that
/// it is above 18 °C.
pub open spec fn spec_butterflies_visible(c: WeatherCondition, is_day: bool, warm: bool) -> bool {
    &&& is_day
    &&& warm
    &&& (c is Clear || c is PartlyCloudy)
    &&& !c.spec_is_raining()
    &&& !c.spec_is_snowing()
}

pub fn butterflies_visible(c: WeatherCondition, is_day: bool, warm: bool) -> (r: bool)
    ensures
        r == spec_butterflies_visible(c, is_day, warm),
{
    if !is_day {
        return false;
    }
    let sky = match c {
        WeatherCondition::Clear | WeatherCondition::PartlyCloudy => true,
        _ => false,
    };
    warm && sky && !c.is_raining() && !c.is_snowing()
}

/// What falls from the sky: at most one kind at a time.
#[derive(Debug, Clone, Copy, PartialEq, Eq, Structural)]
pub enum Precipitation {
    Dry,
    Rain,
    /// Rain with lightning.
    Storm,
    Snow,
}

/// The layers of one frame of the weather scene. Every layer that shows also moves,
/// except the clouds, which are always drawn but drift only under the skies in
/// `clouds_drift`.
#[derive(Debug, Clone, Copy, PartialEq, Eq, Structural)]
pub struct LayerPlan {
    pub stars: bool,
    pub fireflies: bool,
    pub sun: bool,
    /// The sun's frames advance (no precipitation).
    pub sun_frames: bool,
    pub clouds_drift: bool,
    /// The clouds are thinned for a clear sky.
    pub clear_clouds: bool,
    /// The clouds are drawn in the dark palette.
    pub dark_clouds: bool,
    pub birds: bool,
    pub butterflies: bool,
    pub airplanes: bool,
    pub moon: bool,
    pub chimney: bool,
    pub precipitation: Precipitation,
    pub fog: bool,
}

pub open spec fn spec_layer_plan(
    c: WeatherCondition,
    is_day: bool,
    warm_night: bool,
    warm_day: bool,
) -> LayerPlan {
    let raining = c.spec_is_raining() && !c.spec_is_thunderstorm();
    let storm = c.spec_is_thunderstorm();
    let snowing = c.spec_is_snowing();
    let wet = raining || storm || snowing;
    let calm_day = is_day && !wet;
    LayerPlan {
        stars: !is_day,
        fireflies: !is_day && spec_fireflies_visible(c, is_day, warm_night),
        sun: is_day && (c is Clear || c is PartlyCloudy) && !wet,
        sun_frames: !wet,
        clouds_drift: c.spec_is_cloudy() || wet || c is Clear,
        clear_clouds: c is Clear,
        dark_clouds: c is Overcast || wet,
        birds: calm_day,
        butterflies: calm_day && spec_butterflies_visible(c, is_day, warm_day),
        airplanes: !wet && !c.spec_is_foggy(),
        moon: !is_day,
        chimney: !raining && !storm,
        precipitation: if storm {
            Precipitation::Storm
        } else if raining {
            Precipitation::Rain
        } else if snowing {
            Precipitation::Snow
        } else {
            Precipitation::Dry
        },
        fog: c.spec_is_foggy(),
    }
}

/// The layers of a frame under condition `c`; `warm_night` says that it is above 15 °C
/// and `warm_day` that it is above 18 °C.
pub fn layer_plan(c: WeatherCondition, is_day: bool, warm_night: bool, warm_day: bool) -> (p: LayerPlan)
    ensures
        p == spec_layer_plan(c, is_day, warm_night, warm_day),
{
    let flags = WeatherFlags::from_condition(c, is_day);
    let wet = flags.is_raining || flags.is_thunderstorm || flags.is_snowing;
    let calm_day = flags.is_day && !wet;
    let is_clear = match c {
        WeatherCondition::Clear => true,
        _ => false,
    };
    let is_overcast = match c {
        WeatherCondition::Overcast => true,
        _ => false,
    };
    let precipitation = if flags.is_thunderstorm {
        Precipitation::Storm
    } else if flags.is_raining {
        Precipitation::Rain
    } else if flags.is_snowing {
        Precipitation::Snow
    } else {
        Precipitation::Dry
    };
    LayerPlan {
        stars: !flags.is_day,
        fireflies: !flags.is_day && fireflies_visible(c, is_day, warm_night),
        sun: should_show_sun(c, is_day) && !wet,
        sun_frames: !wet,
        clouds_drift: flags.is_cloudy || wet || is_clear,
        clear_clouds: is_clear,
        dark_clouds: is_overcast || wet,
        birds: calm_day,
        butterflies: calm_day && butterflies_visible(c, is_day, warm_day),
        airplanes: !wet && !flags.is_foggy,
        moon: !flags.is_day,
        chimney: !flags.is_raining && !flags.is_thunderstorm,
        precipitation,
        fog: flags.is_foggy,
    }
}

/// Where the heads-up text of a `width` x `height` scene goes.
#[derive(Debug, Clone, Copy, PartialEq, Eq, Structural)]
pub struct HudLayout {
    /// The `FINISH` banner of the last seconds of a sprint.
    pub flag_x: u16,
    pub flag_y: u16,
    /// The flag glyph, one cell left of the banner and one row below it.
    pub pennant_x: u16,
    pub pennant_y: u16,
    /// The data attribution, right-aligned on the bottom row.
    pub attribution_x: u16,
    pub attribution_y: u16,
}

pub open spec fn sat_sub16(a: int, b: int) -> int {
    if a >= b { a - b } else { 0 }
}

/// The heads-up positions for an attribution `attribution_len` cells wide.
pub fn hud_layout(width: u16, height: u16, attribution_len: u16) -> (r: HudLayout)
    ensures
        r.flag_x == sat_sub16(width as int, 9),
        r.flag_y == sat_sub16(height as int, 4),
        r.pennant_x == sat_sub16(r.flag_x as int, 1),
        r.pennant_y == r.flag_y + 1,
        r.attribution_x == sat_sub16(sat_sub16(width as int, attribution_len as int), 2),
        r.attribution_y == sat_sub16(height as int, 1),
{
    let flag_x = width.saturating_sub(9);
    let flag_y = height.saturating_sub(4);
    HudLayout {
        flag_x,
        flag_y,
        pennant_x: flag_x.saturating_sub(1),
        pennant_y: flag_y + 1,
        attribution_x: width.saturating_sub(attribution_len).saturating_sub(2),
        attribution_y: height.saturating_sub(1),
    }
}

/// A frame never pays for more than `MAX_SIM_STEPS` steps, and when it pays for fewer,
/// less than one step's time stays banked: the simulation keeps pace with the clock
/// unless frames come slower than the cap allows.
pub proof fn law_sim_keeps_pace(accumulator: nat, delta: nat)
    ensures
        spec_sim_steps(accumulator, delta) <= MAX_SIM_STEPS,
        spec_sim_steps(accumulator, delta) * SIM_STEP_NS <= banked(accumulator, delta),
        spec_sim_steps(accumulator, delta) < MAX_SIM_STEPS ==> banked(accumulator, delta)
            - spec_sim_steps(accumulator, delta) * SIM_STEP_NS < SIM_STEP_NS,
{
    let total = banked(accumulator, delta) as int;
    let s = SIM_STEP_NS as int;
    vstd::arithmetic::div_mod::lemma_fundamental_div_mod(total, s);
    let q = total / s;
    assert(0 <= total % s < s);
    if q >= MAX_SIM_STEPS {
        assert(MAX_SIM_STEPS * s <= q * s) by (nonlinear_arith)
            requires
                q >= MAX_SIM_STEPS,
                s > 0,
        ;
    }
}

/// Only one kind of precipitation shows at a time, lightning only in a thunderstorm;
/// at night the stars and moon are out and the sun, birds and butterflies are not;
/// no airplane flies through rain, snow or fog.
pub proof fn law_layers_fit_the_sky(c: WeatherCondition, is_day: bool, warm_night: bool, warm_day: bool)
    ensures
        ({
            let p = spec_layer_plan(c, is_day, warm_night, warm_day);
            &&& (p.precipitation == Precipitation::Storm) == c.spec_is_thunderstorm()
            &&& p.precipitation == Precipitation::Dry ==> !c.spec_is_raining() && !c.spec_is_snowing()
            &&& !is_day ==> p.stars && p.moon && !p.sun && !p.birds && !p.butterflies
            &&& is_day ==> !p.stars && !p.moon && !p.fireflies
            &&& p.airplanes ==> p.precipitation == Precipitation::Dry && !p.fog
            &&& p.sun ==> p.sun_frames
        }),
{
}

} // verus!
