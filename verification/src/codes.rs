//! The closed enumerated classifications of the wire format.
//!
//! Each code is keyed on the wire by a snake_case discriminant string (the
//! current generation of the upstream schema; an older generation used
//! PascalCase and is treated as a migration note, not supported). Every code
//! has exactly one display mapping and no fallback arm: an unrecognized
//! discriminant is a schema mismatch, never a silent default.

use vstd::prelude::*;
use crate::strutil::str_eq;

verus! {

/// Kind of precipitation reported with the conditions.
#[derive(Clone, Copy, Debug, PartialEq, Eq, Structural)]
pub enum PrecipType {
    NoPrecip,
    Rain,
    Snow,
    IcePellets,
    FreezingRain,
}

/// Which precipitation kind, if any, a wire discriminant denotes.
pub open spec fn spec_precip_from_wire(s: Seq<char>) -> Option<PrecipType> {
    if s == "none"@ {
        Some(PrecipType::NoPrecip)
    } else if s == "rain"@ {
        Some(PrecipType::Rain)
    } else if s == "snow"@ {
        Some(PrecipType::Snow)
    } else if s == "ice_pellets"@ {
        Some(PrecipType::IcePellets)
    } else if s == "freezing_rain"@ {
        Some(PrecipType::FreezingRain)
    } else {
        None
    }
}

/// The display text of a precipitation kind.
pub open spec fn spec_precip_label(p: PrecipType) -> Seq<char> {
    match p {
        PrecipType::NoPrecip => "None"@,
        PrecipType::Rain => "Rain"@,
        PrecipType::Snow => "Snow"@,
        PrecipType::IcePellets => "Ice Pellets"@,
        PrecipType::FreezingRain => "Freezing Rain"@,
    }
}

impl PrecipType {
    /// Parses a wire discriminant; `None` exactly when it is unrecognized.
    pub fn from_wire(s: &str) -> (r: Option<PrecipType>)
        ensures
            r == spec_precip_from_wire(s@),
    {
        if str_eq(s, "none") {
            Some(PrecipType::NoPrecip)
        } else if str_eq(s, "rain") {
            Some(PrecipType::Rain)
        } else if str_eq(s, "snow") {
            Some(PrecipType::Snow)
        } else if str_eq(s, "ice_pellets") {
            Some(PrecipType::IcePellets)
        } else if str_eq(s, "freezing_rain") {
            Some(PrecipType::FreezingRain)
        } else {
            None
        }
    }

    /// The display text.
    pub fn label(&self) -> (r: &'static str)
        ensures
            r@ == spec_precip_label(*self),
    {
        match self {
            PrecipType::NoPrecip => "None",
            PrecipType::Rain => "Rain",
            PrecipType::Snow => "Snow",
            PrecipType::IcePellets => "Ice Pellets",
            PrecipType::FreezingRain => "Freezing Rain",
        }
    }
}

/// Phase of the moon, eight values around the cycle.
#[derive(Clone, Copy, Debug, PartialEq, Eq, Structural)]
pub enum MoonPhase {
    New,
    WaxingCrescent,
    FirstQuarter,
    WaxingGibbous,
    Full,
    WaningGibbous,
    LastQuarter,
    WaningCrescent,
}

/// Which moon phase, if any, a wire discriminant denotes.
pub open spec fn spec_moon_from_wire(s: Seq<char>) -> Option<MoonPhase> {
    if s == "new"@ {
        Some(MoonPhase::New)
    } else if s == "waxing_crescent"@ {
        Some(MoonPhase::WaxingCrescent)
    } else if s == "first_quarter"@ {
        Some(MoonPhase::FirstQuarter)
    } else if s == "waxing_gibbous"@ {
        Some(MoonPhase::WaxingGibbous)
    } else if s == "full"@ {
        Some(MoonPhase::Full)
    } else if s == "waning_gibbous"@ {
        Some(MoonPhase::WaningGibbous)
    } else if s == "last_quarter"@ {
        Some(MoonPhase::LastQuarter)
    } else if s == "waning_crescent"@ {
        Some(MoonPhase::WaningCrescent)
    } else {
        None
    }
}

/// The moon emoji a phase renders as.
pub open spec fn spec_moon_glyph(p: MoonPhase) -> Seq<char> {
    match p {
        MoonPhase::New => "🌑"@,
        MoonPhase::WaxingCrescent => "🌒"@,
        MoonPhase::FirstQuarter => "🌓"@,
        MoonPhase::WaxingGibbous => "🌔"@,
        MoonPhase::Full => "🌕"@,
        MoonPhase::WaningGibbous => "🌖"@,
        MoonPhase::LastQuarter => "🌗"@,
        MoonPhase::WaningCrescent => "🌘"@,
    }
}

impl MoonPhase {
    /// Parses a wire discriminant; `None` exactly when it is unrecognized.
    pub fn from_wire(s: &str) -> (r: Option<MoonPhase>)
        ensures
            r == spec_moon_from_wire(s@),
    {
        if str_eq(s, "new") {
            Some(MoonPhase::New)
        } else if str_eq(s, "waxing_crescent") {
            Some(MoonPhase::WaxingCrescent)
        } else if str_eq(s, "first_quarter") {
            Some(MoonPhase::FirstQuarter)
        } else if str_eq(s, "waxing_gibbous") {
            Some(MoonPhase::WaxingGibbous)
        } else if str_eq(s, "full") {
            Some(MoonPhase::Full)
        } else if str_eq(s, "waning_gibbous") {
            Some(MoonPhase::WaningGibbous)
        } else if str_eq(s, "last_quarter") {
            Some(MoonPhase::LastQuarter)
        } else if str_eq(s, "waning_crescent") {
            Some(MoonPhase::WaningCrescent)
        } else {
            None
        }
    }

    /// The moon emoji.
    pub fn glyph(&self) -> (r: &'static str)
        ensures
            r@ == spec_moon_glyph(*self),
    {
        match self {
            MoonPhase::New => "🌑",
            MoonPhase::WaxingCrescent => "🌒",
            MoonPhase::FirstQuarter => "🌓",
            MoonPhase::WaxingGibbous => "🌔",
            MoonPhase::Full => "🌕",
            MoonPhase::WaningGibbous => "🌖",
            MoonPhase::LastQuarter => "🌗",
            MoonPhase::WaningCrescent => "🌘",
        }
    }
}

/// Weather condition code, the upstream's closed set of 23 states.
#[derive(Clone, Copy, Debug, PartialEq, Eq, Structural)]
pub enum WeatherCode {
    FreezingRainHeavy,
    FreezingRain,
    FreezingRainLight,
    FreezingDrizzle,
    IcePelletsHeavy,
    IcePellets,
    IcePelletsLight,
    SnowHeavy,
    Snow,
    SnowLight,
    Flurries,
    Tstorm,
    RainHeavy,
    Rain,
    RainLight,
    Drizzle,
    FogLight,
    Fog,
    Cloudy,
    MostlyCloudy,
    PartlyCloudy,
    MostlyClear,
    Clear,
}

/// Which weather code, if any, a wire discriminant denotes.
pub open spec fn spec_weather_from_wire(s: Seq<char>) -> Option<WeatherCode> {
    if s == "freezing_rain_heavy"@ {
        Some(WeatherCode::FreezingRainHeavy)
    } else if s == "freezing_rain"@ {
        Some(WeatherCode::FreezingRain)
    } else if s == "freezing_rain_light"@ {
        Some(WeatherCode::FreezingRainLight)
    } else if s == "freezing_drizzle"@ {
        Some(WeatherCode::FreezingDrizzle)
    } else if s == "ice_pellets_heavy"@ {
        Some(WeatherCode::IcePelletsHeavy)
    } else if s == "ice_pellets"@ {
        Some(WeatherCode::IcePellets)
    } else if s == "ice_pellets_light"@ {
        Some(WeatherCode::IcePelletsLight)
    } else if s == "snow_heavy"@ {
        Some(WeatherCode::SnowHeavy)
    } else if s == "snow"@ {
        Some(WeatherCode::Snow)
    } else if s == "snow_light"@ {
        Some(WeatherCode::SnowLight)
    } else if s == "flurries"@ {
        Some(WeatherCode::Flurries)
    } else if s == "tstorm"@ {
        Some(WeatherCode::Tstorm)
    } else if s == "rain_heavy"@ {
        Some(WeatherCode::RainHeavy)
    } else if s == "rain"@ {
        Some(WeatherCode::Rain)
    } else if s == "rain_light"@ {
        Some(WeatherCode::RainLight)
    } else if s == "drizzle"@ {
        Some(WeatherCode::Drizzle)
    } else if s == "fog_light"@ {
        Some(WeatherCode::FogLight)
    } else if s == "fog"@ {
        Some(WeatherCode::Fog)
    } else if s == "cloudy"@ {
        Some(WeatherCode::Cloudy)
    } else if s == "mostly_cloudy"@ {
        Some(WeatherCode::MostlyCloudy)
    } else if s == "partly_cloudy"@ {
        Some(WeatherCode::PartlyCloudy)
    } else if s == "mostly_clear"@ {
        Some(WeatherCode::MostlyClear)
    } else if s == "clear"@ {
        Some(WeatherCode::Clear)
    } else {
        None
    }
}

/// The emoji-and-text label of a weather code.
pub open spec fn spec_weather_label(w: WeatherCode) -> Seq<char> {
    match w {
        WeatherCode::FreezingRainHeavy => "🍦 Heavy Freezing Rain"@,
        WeatherCode::FreezingRain => "🍦 Freezing Rain"@,
        WeatherCode::FreezingRainLight => "🍦 Light Freezing Rain"@,
        WeatherCode::FreezingDrizzle => "🍦 Freezing Drizzle"@,
        WeatherCode::IcePelletsHeavy => "🌨 Heavy Ice Pellets"@,
        WeatherCode::IcePellets => "🌨 Ice Pellets"@,
        WeatherCode::IcePelletsLight => "🌨 Light Ice Pellets"@,
        WeatherCode::SnowHeavy => "❄️ Heavy Snow"@,
        WeatherCode::Snow => "❄️ Snow"@,
        WeatherCode::SnowLight => "❄️ Light Snow"@,
        WeatherCode::Flurries => "❄️ Flurries"@,
        WeatherCode::Tstorm => "⛈ T-Storm"@,
        WeatherCode::RainHeavy => "🌧 Heavy Rain"@,
        WeatherCode::Rain => "🌧 Rain"@,
        WeatherCode::RainLight => "🌦 Light Rain"@,
        WeatherCode::Drizzle => "🌧 Drizzle"@,
        WeatherCode::FogLight => "🌫 Light Fog"@,
        WeatherCode::Fog => "🌫 Fog"@,
        WeatherCode::Cloudy => "☁️ Cloudy"@,
        WeatherCode::MostlyCloudy => "🌥 Mostly Cloudy"@,
        WeatherCode::PartlyCloudy => "⛅️ Partly Cloudy"@,
        WeatherCode::MostlyClear => "🌤 Mostly Clear"@,
        WeatherCode::Clear => "🌞 Clear"@,
    }
}

impl WeatherCode {
    /// Parses a wire discriminant; `None` exactly when it is unrecognized.
    pub fn from_wire(s: &str) -> (r: Option<WeatherCode>)
        ensures
            r == spec_weather_from_wire(s@),
    {
        if str_eq(s, "freezing_rain_heavy") {
            Some(WeatherCode::FreezingRainHeavy)
        } else if str_eq(s, "freezing_rain") {
            Some(WeatherCode::FreezingRain)
        } else if str_eq(s, "freezing_rain_light") {
            Some(WeatherCode::FreezingRainLight)
        } else if str_eq(s, "freezing_drizzle") {
            Some(WeatherCode::FreezingDrizzle)
        } else if str_eq(s, "ice_pellets_heavy") {
            Some(WeatherCode::IcePelletsHeavy)
        } else if str_eq(s, "ice_pellets") {
            Some(WeatherCode::IcePellets)
        } else if str_eq(s, "ice_pellets_light") {
            Some(WeatherCode::IcePelletsLight)
        } else if str_eq(s, "snow_heavy") {
            Some(WeatherCode::SnowHeavy)
        } else if str_eq(s, "snow") {
            Some(WeatherCode::Snow)
        } else if str_eq(s, "snow_light") {
            Some(WeatherCode::SnowLight)
        } else if str_eq(s, "flurries") {
            Some(WeatherCode::Flurries)
        } else if str_eq(s, "tstorm") {
            Some(WeatherCode::Tstorm)
        } else if str_eq(s, "rain_heavy") {
            Some(WeatherCode::RainHeavy)
        } else if str_eq(s, "rain") {
            Some(WeatherCode::Rain)
        } else if str_eq(s, "rain_light") {
            Some(WeatherCode::RainLight)
        } else if str_eq(s, "drizzle") {
            Some(WeatherCode::Drizzle)
        } else if str_eq(s, "fog_light") {
            Some(WeatherCode::FogLight)
        } else if str_eq(s, "fog") {
            Some(WeatherCode::Fog)
        } else if str_eq(s, "cloudy") {
            Some(WeatherCode::Cloudy)
        } else if str_eq(s, "mostly_cloudy") {
            Some(WeatherCode::MostlyCloudy)
        } else if str_eq(s, "partly_cloudy") {
            Some(WeatherCode::PartlyCloudy)
        } else if str_eq(s, "mostly_clear") {
            Some(WeatherCode::MostlyClear)
        } else if str_eq(s, "clear") {
            Some(WeatherCode::Clear)
        } else {
            None
        }
    }

    /// The emoji-and-text label.
    pub fn label(&self) -> (r: &'static str)
        ensures
            r@ == spec_weather_label(*self),
    {
        match self {
            WeatherCode::FreezingRainHeavy => "🍦 Heavy Freezing Rain",
            WeatherCode::FreezingRain => "🍦 Freezing Rain",
            WeatherCode::FreezingRainLight => "🍦 Light Freezing Rain",
            WeatherCode::FreezingDrizzle => "🍦 Freezing Drizzle",
            WeatherCode::IcePelletsHeavy => "🌨 Heavy Ice Pellets",
            WeatherCode::IcePellets => "🌨 Ice Pellets",
            WeatherCode::IcePelletsLight => "🌨 Light Ice Pellets",
            WeatherCode::SnowHeavy => "❄️ Heavy Snow",
            WeatherCode::Snow => "❄️ Snow",
            WeatherCode::SnowLight => "❄️ Light Snow",
            WeatherCode::Flurries => "❄️ Flurries",
            WeatherCode::Tstorm => "⛈ T-Storm",
            WeatherCode::RainHeavy => "🌧 Heavy Rain",
            WeatherCode::Rain => "🌧 Rain",
            WeatherCode::RainLight => "🌦 Light Rain",
            WeatherCode::Drizzle => "🌧 Drizzle",
            WeatherCode::FogLight => "🌫 Light Fog",
            WeatherCode::Fog => "🌫 Fog",
            WeatherCode::Cloudy => "☁️ Cloudy",
            WeatherCode::MostlyCloudy => "🌥 Mostly Cloudy",
            WeatherCode::PartlyCloudy => "⛅️ Partly Cloudy",
            WeatherCode::MostlyClear => "🌤 Mostly Clear",
            WeatherCode::Clear => "🌞 Clear",
        }
    }
}

} // verus!
