use timer::render::weathr::frame::{
    butterflies_visible, fireflies_visible, hud_layout, layer_plan, sim_steps, Precipitation,
};
use timer::render::weathr::animation::sunny::SunnyAnimation;
use timer::render::weathr::animation::{Animation, AnimationController};
use timer::render::weathr::scene::decorations::{DecorationRenderConfig, Decorations};
use timer::render::weathr::scene::ground::{Ground, GroundPalette, GroundWeather};
use timer::render::weathr::scene::house::{House, CHIMNEY_X_OFFSET, HOUSE_HEIGHT, HOUSE_WIDTH};
use timer::render::weathr::scene::{WorldScene, GROUND_HEIGHT};
use timer::render::weathr::types::{
    fog_intensity_for, rain_intensity_for, should_show_sun, snow_intensity_for, FogIntensity,
    RainIntensity, SnowIntensity, WeatherFlags,
};
use timer::weather_live::{map_wmo_to_condition, WeatherCondition};

#[test]
fn maps_wmo_codes_to_upstream_presets() {
    assert_eq!(map_wmo_to_condition(0), WeatherCondition::Clear);
    assert_eq!(map_wmo_to_condition(1), WeatherCondition::PartlyCloudy);
    assert_eq!(map_wmo_to_condition(3), WeatherCondition::Overcast);
    assert_eq!(map_wmo_to_condition(45), WeatherCondition::Fog);
    assert_eq!(map_wmo_to_condition(51), WeatherCondition::Drizzle);
    assert_eq!(map_wmo_to_condition(56), WeatherCondition::FreezingRain);
    assert_eq!(map_wmo_to_condition(61), WeatherCondition::Rain);
    assert_eq!(map_wmo_to_condition(71), WeatherCondition::Snow);
    assert_eq!(map_wmo_to_condition(77), WeatherCondition::SnowGrains);
    assert_eq!(map_wmo_to_condition(80), WeatherCondition::RainShowers);
    assert_eq!(map_wmo_to_condition(85), WeatherCondition::SnowShowers);
    assert_eq!(map_wmo_to_condition(95), WeatherCondition::Thunderstorm);
    assert_eq!(map_wmo_to_condition(96), WeatherCondition::ThunderstormHail);
}

#[test]
fn unknown_wmo_codes_read_as_clear_sky() {
    assert_eq!(map_wmo_to_condition(-1), WeatherCondition::Clear);
    assert_eq!(map_wmo_to_condition(4), WeatherCondition::Clear);
    assert_eq!(map_wmo_to_condition(100), WeatherCondition::Clear);
    assert_eq!(map_wmo_to_condition(67), WeatherCondition::FreezingRain);
    assert_eq!(map_wmo_to_condition(82), WeatherCondition::RainShowers);
    assert_eq!(map_wmo_to_condition(99), WeatherCondition::ThunderstormHail);
}

#[test]
fn condition_labels_and_families() {
    assert_eq!(WeatherCondition::ThunderstormHail.label(), "ThunderstormHail");
    assert_eq!(WeatherCondition::ThunderstormHail.ui_text(), "Thunderstorm with Hail");
    assert_eq!(WeatherCondition::PartlyCloudy.ui_text(), "Partly Cloudy");
    assert!(WeatherCondition::Thunderstorm.is_raining());
    assert!(WeatherCondition::Thunderstorm.is_thunderstorm());
    assert!(!WeatherCondition::Rain.is_thunderstorm());
    assert!(WeatherCondition::SnowGrains.is_snowing());
    assert!(WeatherCondition::Overcast.is_cloudy());
    assert!(WeatherCondition::Fog.is_foggy());
    assert!(!WeatherCondition::Clear.is_raining());
}

#[test]
fn scene_intensities_follow_the_condition() {
    assert_eq!(rain_intensity_for(WeatherCondition::Drizzle), RainIntensity::Drizzle);
    assert_eq!(rain_intensity_for(WeatherCondition::RainShowers), RainIntensity::Light);
    assert_eq!(rain_intensity_for(WeatherCondition::Thunderstorm), RainIntensity::Heavy);
    assert_eq!(rain_intensity_for(WeatherCondition::ThunderstormHail), RainIntensity::Storm);
    assert_eq!(snow_intensity_for(WeatherCondition::Snow), SnowIntensity::Heavy);
    assert_eq!(snow_intensity_for(WeatherCondition::SnowShowers), SnowIntensity::Medium);
    assert_eq!(snow_intensity_for(WeatherCondition::Clear), SnowIntensity::Light);
    assert_eq!(fog_intensity_for(WeatherCondition::Fog), FogIntensity::Medium);
    assert_eq!(fog_intensity_for(WeatherCondition::Rain), FogIntensity::Light);
}

#[test]
fn weather_flags_draw_storms_apart_from_rain() {
    let storm = WeatherFlags::from_condition(WeatherCondition::Thunderstorm, false);
    assert!(storm.is_thunderstorm);
    assert!(!storm.is_raining);
    let rain = WeatherFlags::from_condition(WeatherCondition::Rain, true);
    assert!(rain.is_raining);
    assert!(rain.is_day);
    assert!(should_show_sun(WeatherCondition::PartlyCloudy, true));
    assert!(!should_show_sun(WeatherCondition::Clear, false));
    assert!(!should_show_sun(WeatherCondition::Overcast, true));
}

#[test]
fn ground_palette_prefers_snow() {
    let g = Ground;
    let both = GroundWeather { is_raining: true, is_snowing: true, is_thunderstorm: false };
    assert_eq!(g.palette(both), GroundPalette::Snowy);
    assert!(g.has_puddles(both));
    let storm = GroundWeather { is_raining: false, is_snowing: false, is_thunderstorm: true };
    assert_eq!(g.palette(storm), GroundPalette::Wet);
    assert_eq!(g.palette(GroundWeather::default()), GroundPalette::Dry);
    assert!(!g.has_puddles(GroundWeather::default()));
}

#[test]
fn house_dimensions() {
    assert_eq!(House.width(), 24);
    assert_eq!(House.height(), 10);
    assert_eq!((HOUSE_WIDTH, HOUSE_HEIGHT, CHIMNEY_X_OFFSET), (24, 10, 4));
}

#[test]
fn scene_layout_centres_the_house_on_the_horizon() {
    let mut scene = WorldScene::new(120, 34);
    let l = scene.layout();
    assert_eq!(GROUND_HEIGHT, 7);
    assert_eq!(l.horizon_y, 27);
    assert_eq!(l.house_x, 48);
    assert_eq!(l.house_y, 17);
    scene.update_size(10, 5);
    let small = scene.layout();
    assert_eq!((small.horizon_y, small.house_x, small.house_y), (0, 0, 0));
}

#[test]
fn decorations_fit_in_a_wide_scene() {
    let scene = WorldScene::new(120, 34);
    let config = scene.decoration_config(true);
    let layout = Decorations::new().layout(&config);
    assert_eq!(layout.tree_x, Some(36));
    assert_eq!(layout.mailbox_x, Some(30));
    assert_eq!(layout.fence_x, Some(74));
    assert_eq!(layout.pine_x, Some(86));
}

#[test]
fn decorations_left_out_of_a_narrow_scene() {
    let config = DecorationRenderConfig { horizon_y: 10, house_x: 14, house_width: 24, width: 44, is_day: false };
    let layout = Decorations::new().layout(&config);
    assert_eq!(layout.tree_x, None);
    assert_eq!(layout.mailbox_x, None);
    assert_eq!(layout.fence_x, None);
    assert_eq!(layout.pine_x, None);
    let config = DecorationRenderConfig { horizon_y: 10, house_x: 18, house_width: 24, width: 50, is_day: true };
    let layout = Decorations::new().layout(&config);
    assert_eq!(layout.tree_x, Some(6));
    assert_eq!(layout.mailbox_x, None);
}

#[test]
fn animation_controller_cycles_frames() {
    let sun = SunnyAnimation::new();
    assert_eq!(sun.frame_count(), 2);
    assert_eq!(sun.get_frame(3), &["frame1".to_string()][..]);
    let mut c = AnimationController::new();
    assert_eq!(c.current_frame(), 0);
    assert_eq!(c.next_frame(&sun), 1);
    assert_eq!(c.next_frame(&sun), 0);
    c.next_frame(&sun);
    c.reset();
    assert_eq!(c.current_frame(), 0);
}

#[test]
fn simulation_steps_follow_the_clock() {
    const MS: u64 = 1_000_000;
    assert_eq!(sim_steps(0, 16 * MS), (0, 16 * MS));
    assert_eq!(sim_steps(20 * MS, 16 * MS), (1, 3 * MS));
    assert_eq!(sim_steps(0, 1_000 * MS), (7, 19 * MS));
    assert_eq!(sim_steps(100 * MS, 250 * MS), (8, 86 * MS));
}

#[test]
fn layers_for_a_warm_clear_day() {
    let p = layer_plan(WeatherCondition::Clear, true, true, true);
    assert!(p.sun && p.sun_frames && p.birds && p.butterflies && p.airplanes && p.chimney);
    assert!(p.clouds_drift && p.clear_clouds && !p.dark_clouds);
    assert!(!p.stars && !p.moon && !p.fireflies && !p.fog);
    assert_eq!(p.precipitation, Precipitation::Dry);
}

#[test]
fn layers_for_a_stormy_night() {
    let p = layer_plan(WeatherCondition::Thunderstorm, false, true, true);
    assert_eq!(p.precipitation, Precipitation::Storm);
    assert!(p.stars && p.moon && p.dark_clouds && p.clouds_drift);
    assert!(!p.chimney && !p.airplanes && !p.fireflies && !p.sun && !p.sun_frames);
}

#[test]
fn layers_for_snow_and_fog() {
    let snow = layer_plan(WeatherCondition::Snow, true, false, false);
    assert_eq!(snow.precipitation, Precipitation::Snow);
    assert!(snow.chimney && !snow.birds && !snow.airplanes);
    let fog = layer_plan(WeatherCondition::Fog, true, true, true);
    assert!(fog.fog && !fog.airplanes && fog.birds && !fog.butterflies && !fog.clouds_drift);
    assert_eq!(fog.precipitation, Precipitation::Dry);
}

#[test]
fn fireflies_and_butterflies_need_warmth() {
    assert!(fireflies_visible(WeatherCondition::PartlyCloudy, false, true));
    assert!(!fireflies_visible(WeatherCondition::PartlyCloudy, false, false));
    assert!(!fireflies_visible(WeatherCondition::Clear, true, true));
    assert!(butterflies_visible(WeatherCondition::Clear, true, true));
    assert!(!butterflies_visible(WeatherCondition::Overcast, true, true));
}

#[test]
fn hud_positions_hug_the_corners() {
    let h = hud_layout(80, 24, 10);
    assert_eq!((h.flag_x, h.flag_y, h.pennant_x, h.pennant_y), (71, 20, 70, 21));
    assert_eq!((h.attribution_x, h.attribution_y), (68, 23));
    let small = hud_layout(5, 2, 10);
    assert_eq!((small.flag_x, small.flag_y, small.pennant_x, small.pennant_y), (0, 0, 0, 1));
    assert_eq!((small.attribution_x, small.attribution_y), (0, 1));
}
