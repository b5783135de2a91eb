use climacell::banding::{dewpoint_band, dewpoint_color, temp_band, temp_color, Severity};
use climacell::codes::{MoonPhase, PrecipType, WeatherCode};
use climacell::compass::{octant_of, Octant};
use climacell::measurements::{CompassLike, PercentLike, PressureLike, SpeedLike, TempLike};
use climacell::units::Unit;

#[test]
fn compass_centers_map_to_their_own_octant() {
    assert_eq!(octant_of(0), Octant::North);
    assert_eq!(octant_of(45_000_000), Octant::NorthEast);
    assert_eq!(octant_of(90_000_000), Octant::East);
    assert_eq!(octant_of(135_000_000), Octant::SouthEast);
    assert_eq!(octant_of(180_000_000), Octant::South);
    assert_eq!(octant_of(225_000_000), Octant::SouthWest);
    assert_eq!(octant_of(270_000_000), Octant::West);
    assert_eq!(octant_of(315_000_000), Octant::NorthWest);
    assert_eq!(octant_of(360_000_000), Octant::North);
}

#[test]
fn compass_boundaries_fall_clockwise() {
    assert_eq!(octant_of(22_500_000), Octant::NorthEast);
    assert_eq!(octant_of(67_500_000), Octant::East);
    assert_eq!(octant_of(112_500_000), Octant::SouthEast);
    assert_eq!(octant_of(157_500_000), Octant::South);
    assert_eq!(octant_of(202_500_000), Octant::SouthWest);
    assert_eq!(octant_of(247_500_000), Octant::West);
    assert_eq!(octant_of(292_500_000), Octant::NorthWest);
    assert_eq!(octant_of(337_500_000), Octant::North);
    assert_eq!(octant_of(22_499_999), Octant::North);
}

#[test]
fn compass_glyphs_match_the_table() {
    let wind = CompassLike {
        degrees: 219_250_000,
    };
    assert_eq!(wind.octant(), Octant::SouthWest);
    assert_eq!(wind.render(), "↗ SW");
    assert_eq!(CompassLike { degrees: 0 }.render(), "⬇ N");
}

#[test]
fn temperature_banding_uses_strict_thresholds() {
    assert_eq!(temp_band(96_000_000, false), Severity::Extreme);
    assert_eq!(temp_band(95_000_000, false), Severity::Severe);
    assert_eq!(temp_band(36_000_000, true), Severity::Extreme);
    assert_eq!(temp_band(35_000_000, false), Severity::Minimal);
    assert_eq!(temp_band(35_000_001, false), Severity::Low);
    assert_eq!(temp_color(96_000_000, false), "FRc");
    assert_eq!(temp_color(95_000_000, false), "Frc");
    assert_eq!(temp_color(36_000_000, true), "FRc");
    assert_eq!(temp_color(-40_000_000, false), "Fbc");
}

#[test]
fn dewpoint_banding_uses_strict_thresholds() {
    assert_eq!(dewpoint_band(81_000_000, false), Severity::Extreme);
    assert_eq!(dewpoint_band(80_000_000, false), Severity::Severe);
    assert_eq!(dewpoint_band(54_000_000, false), Severity::Minimal);
    assert_eq!(dewpoint_band(27_000_000, true), Severity::Extreme);
    assert_eq!(dewpoint_color(81_000_000, false), "FRc");
    assert_eq!(dewpoint_color(54_000_000, false), "Fbc");
    assert_eq!(dewpoint_color(55_000_000, false), "Fgc");
}

#[test]
fn celsius_conversion_is_exact_at_the_threshold() {
    // 35 degrees Celsius is exactly 95 Fahrenheit: on the threshold, so one
    // tier down by strictness, and one millionth more crosses it.
    assert_eq!(temp_band(35_000_000, true), Severity::Severe);
    assert_eq!(temp_band(35_000_001, true), Severity::Extreme);
}

#[test]
fn measurements_render_with_fixed_precision() {
    let temp = TempLike {
        value: 85_550_000,
        units: Unit::F,
    };
    assert_eq!(temp.render(), "85.6° F");
    let sentinel = TempLike {
        value: -1_000_000,
        units: Unit::F,
    };
    assert_eq!(sentinel.render(), "-1.0° F");
    let humidity = PercentLike { value: 63_690_000 };
    assert_eq!(humidity.render(), "63.7%");
    let cover = PercentLike { value: 0 };
    assert_eq!(cover.render(), "0.0%");
    let wind = SpeedLike {
        value: 6_150_000,
        units: Unit::MPH,
    };
    assert_eq!(wind.render(), "6.2 mph");
    let gust = SpeedLike {
        value: 13_000_000,
        units: Unit::MPH,
    };
    assert_eq!(gust.render(), "13.0 mph");
    let pressure = PressureLike {
        value: 29_823_400,
        units: Unit::INHG,
    };
    assert_eq!(pressure.render(), "29.82 inHg");
    let metric = SpeedLike {
        value: 2_750_000,
        units: Unit::MS,
    };
    assert_eq!(metric.render(), "2.8 m/s");
}

#[test]
fn code_labels_match_the_table() {
    assert_eq!(WeatherCode::Clear.label(), "🌞 Clear");
    assert_eq!(WeatherCode::Tstorm.label(), "⛈ T-Storm");
    assert_eq!(WeatherCode::FreezingRainHeavy.label(), "🍦 Heavy Freezing Rain");
    assert_eq!(MoonPhase::FirstQuarter.glyph(), "🌓");
    assert_eq!(MoonPhase::New.glyph(), "🌑");
    assert_eq!(PrecipType::NoPrecip.label(), "None");
    assert_eq!(PrecipType::IcePellets.label(), "Ice Pellets");
    assert_eq!(Unit::MS.abbrev(), "m/s");
}

#[test]
fn every_weather_discriminant_round_trips() {
    let wire = [
        ("freezing_rain_heavy", WeatherCode::FreezingRainHeavy),
        ("freezing_rain", WeatherCode::FreezingRain),
        ("freezing_rain_light", WeatherCode::FreezingRainLight),
        ("freezing_drizzle", WeatherCode::FreezingDrizzle),
        ("ice_pellets_heavy", WeatherCode::IcePelletsHeavy),
        ("ice_pellets", WeatherCode::IcePellets),
        ("ice_pellets_light", WeatherCode::IcePelletsLight),
        ("snow_heavy", WeatherCode::SnowHeavy),
        ("snow", WeatherCode::Snow),
        ("snow_light", WeatherCode::SnowLight),
        ("flurries", WeatherCode::Flurries),
        ("tstorm", WeatherCode::Tstorm),
        ("rain_heavy", WeatherCode::RainHeavy),
        ("rain", WeatherCode::Rain),
        ("rain_light", WeatherCode::RainLight),
        ("drizzle", WeatherCode::Drizzle),
        ("fog_light", WeatherCode::FogLight),
        ("fog", WeatherCode::Fog),
        ("cloudy", WeatherCode::Cloudy),
        ("mostly_cloudy", WeatherCode::MostlyCloudy),
        ("partly_cloudy", WeatherCode::PartlyCloudy),
        ("mostly_clear", WeatherCode::MostlyClear),
        ("clear", WeatherCode::Clear),
    ];
    for (name, code) in wire {
        assert_eq!(WeatherCode::from_wire(name), Some(code));
    }
    let moons = [
        ("new", MoonPhase::New),
        ("waxing_crescent", MoonPhase::WaxingCrescent),
        ("first_quarter", MoonPhase::FirstQuarter),
        ("waxing_gibbous", MoonPhase::WaxingGibbous),
        ("full", MoonPhase::Full),
        ("waning_gibbous", MoonPhase::WaningGibbous),
        ("last_quarter", MoonPhase::LastQuarter),
        ("waning_crescent", MoonPhase::WaningCrescent),
    ];
    for (name, phase) in moons {
        assert_eq!(MoonPhase::from_wire(name), Some(phase));
    }
}

#[test]
fn out_of_range_bearings_fall_in_the_north_bucket() {
    assert_eq!(octant_of(400_000_000), Octant::North);
    assert_eq!(octant_of(-10_000_000), Octant::North);
}
