//! Forecast-day records: per metric, an observation time and a min/max
//! pair, with one weather code and the coordinates for the day.
//!
//! The upstream never delivers a dewpoint for forecast days, so that field
//! is not read from the wire at all: it always carries the sentinel
//! default, present or not.

use vstd::prelude::*;
use crate::json::{JsonValue, JsonModel};
use crate::errors::WeatherError;
use crate::measurements::{TempLike, PercentLike, SpeedLike, PressureLike, CompassLike};
use crate::units::{Unit, spec_unit_from_wire};
use crate::codes::WeatherCode;
use crate::time::TimeLike;
use vstd::string::StringExecFns;
use crate::conditions::{spec_obj_get, spec_num_field, spec_str_field, spec_temp_like_of,
    spec_percent_like_of, spec_speed_like_of, spec_pressure_like_of, spec_compass_like_of,
    spec_time_like_of, spec_weather_of, obj_get, num_field, str_field, temp_like_of,
    percent_like_of, speed_like_of, pressure_like_of, compass_like_of, time_like_of, weather_of};

verus! {

/// A day's temperature span.
#[derive(Clone, Copy, Debug, PartialEq, Eq, Structural)]
pub struct ForecastTemp {
    pub observation_time: TimeLike,
    pub min: TempLike,
    pub max: TempLike,
}

/// A day's feels-like span.
#[derive(Clone, Copy, Debug, PartialEq, Eq, Structural)]
pub struct ForecastFeelsLike {
    pub observation_time: TimeLike,
    pub min: TempLike,
    pub max: TempLike,
}

/// A day's humidity span.
#[derive(Clone, Copy, Debug, PartialEq, Eq, Structural)]
pub struct ForecastHumidity {
    pub observation_time: TimeLike,
    pub min: PercentLike,
    pub max: PercentLike,
}

/// A day's pressure span.
#[derive(Clone, Copy, Debug, PartialEq, Eq, Structural)]
pub struct ForecastBaroPressure {
    pub observation_time: TimeLike,
    pub min: PressureLike,
    pub max: PressureLike,
}

/// A day's wind-speed span.
#[derive(Clone, Copy, Debug, PartialEq, Eq, Structural)]
pub struct ForecastWindSpeed {
    pub observation_time: TimeLike,
    pub min: SpeedLike,
    pub max: SpeedLike,
}

/// A day's wind-direction span.
#[derive(Clone, Copy, Debug, PartialEq, Eq, Structural)]
pub struct ForecastWindDirection {
    pub observation_time: TimeLike,
    pub min: CompassLike,
    pub max: CompassLike,
}

/// One wire value-and-units pair from the flat forecast observations.
#[derive(Clone, Copy, Debug, PartialEq, Eq, Structural)]
pub struct VUTuple {
    pub value: i64,
    pub units: Unit,
}

/// One forecast day.
#[derive(Clone, Copy, Debug, PartialEq, Eq, Structural)]
pub struct ForecastDay {
    pub temp: ForecastTemp,
    pub feels_like: ForecastFeelsLike,
    pub humidity: ForecastHumidity,
    pub baro_pressure: ForecastBaroPressure,
    pub wind_speed: ForecastWindSpeed,
    pub wind_direction: ForecastWindDirection,
    pub weather_code: WeatherCode,
    pub dewpoint: ForecastTemp,
    pub observation_time: TimeLike,
    pub lat: i64,
    pub lon: i64,
}

impl ForecastTemp {
    /// The sentinel span a never-delivered metric carries.
    pub open spec fn spec_default() -> ForecastTemp {
        ForecastTemp {
            observation_time: TimeLike::spec_default(),
            min: TempLike::spec_default(),
            max: TempLike::spec_default(),
        }
    }
}

impl Default for ForecastTemp {
    /// The sentinel span.
    fn default() -> (r: ForecastTemp)
        ensures
            r == ForecastTemp::spec_default(),
    {
        ForecastTemp {
            observation_time: TimeLike::default(),
            min: TempLike::default(),
            max: TempLike::default(),
        }
    }
}

/// A span object: an observation time and a min/max pair of temperatures.
pub open spec fn spec_forecast_temp_of(m: JsonModel) -> Option<ForecastTemp> {
    let obs = match spec_obj_get(m, "observation_time"@) {
        Option::Some(x) => spec_time_like_of(x),
        Option::None => None,
    };
    let min = match spec_obj_get(m, "min"@) {
        Option::Some(x) => spec_temp_like_of(x),
        Option::None => None,
    };
    let max = match spec_obj_get(m, "max"@) {
        Option::Some(x) => spec_temp_like_of(x),
        Option::None => None,
    };
    if obs is Some && min is Some && max is Some {
        Some(
            ForecastTemp {
                observation_time: obs->Some_0,
                min: min->Some_0,
                max: max->Some_0,
            },
        )
    } else {
        None
    }
}

/// Reads a temperature span object.
pub fn forecast_temp_of(v: &JsonValue) -> (r: Option<ForecastTemp>)
    ensures
        r == spec_forecast_temp_of(v@),
{
    let obs = match obj_get(v, "observation_time") {
        Option::Some(x) => match time_like_of(x) {
            Option::Some(t) => t,
            Option::None => {
                return None;
            },
        },
        Option::None => {
            return None;
        },
    };
    let min = match obj_get(v, "min") {
        Option::Some(x) => match temp_like_of(x) {
            Option::Some(t) => t,
            Option::None => {
                return None;
            },
        },
        Option::None => {
            return None;
        },
    };
    let max = match obj_get(v, "max") {
        Option::Some(x) => match temp_like_of(x) {
            Option::Some(t) => t,
            Option::None => {
                return None;
            },
        },
        Option::None => {
            return None;
        },
    };
    Some(ForecastTemp { observation_time: obs, min, max })
}

/// A value-and-units pair: a `value` number and any recognized unit tag.
pub open spec fn spec_vu_tuple_of(m: JsonModel) -> Option<VUTuple> {
    let v = spec_num_field(m, "value"@);
    let u = match spec_str_field(m, "units"@) {
        Option::Some(s) => spec_unit_from_wire(s),
        Option::None => None,
    };
    if v is Some && u is Some {
        Some(VUTuple { value: v->Some_0 as i64, units: u->Some_0 })
    } else {
        None
    }
}

impl VUTuple {
    /// Reads a value-and-units pair.
    pub fn from_json(v: &JsonValue) -> (r: Option<VUTuple>)
        ensures
            r == spec_vu_tuple_of(v@),
    {
        let value = match num_field(v, "value") {
            Option::Some(x) => x,
            Option::None => {
                return None;
            },
        };
        let units = match str_field(v, "units") {
            Option::Some(s) => match Unit::from_wire(s.as_str()) {
                Option::Some(u) => u,
                Option::None => {
                    return None;
                },
            },
            Option::None => {
                return None;
            },
        };
        Some(VUTuple { value, units })
    }
}


/// A span object: an observation time and a min/max pair of feels-like temperatures.
pub open spec fn spec_forecast_feels_like_of(m: JsonModel) -> Option<ForecastFeelsLike> {
    let obs = match spec_obj_get(m, "observation_time"@) {
        Option::Some(x) => spec_time_like_of(x),
        Option::None => None,
    };
    let min = match spec_obj_get(m, "min"@) {
        Option::Some(x) => spec_temp_like_of(x),
        Option::None => None,
    };
    let max = match spec_obj_get(m, "max"@) {
        Option::Some(x) => spec_temp_like_of(x),
        Option::None => None,
    };
    if obs is Some && min is Some && max is Some {
        Some(
            ForecastFeelsLike {
                observation_time: obs->Some_0,
                min: min->Some_0,
                max: max->Some_0,
            },
        )
    } else {
        None
    }
}

/// Reads a span object of feels-like temperatures.
pub fn forecast_feels_like_of(v: &JsonValue) -> (r: Option<ForecastFeelsLike>)
    ensures
        r == spec_forecast_feels_like_of(v@),
{
    let obs = match obj_get(v, "observation_time") {
        Option::Some(x) => match time_like_of(x) {
            Option::Some(t) => t,
            Option::None => {
                return None;
            },
        },
        Option::None => {
            return None;
        },
    };
    let min = match obj_get(v, "min") {
        Option::Some(x) => match temp_like_of(x) {
            Option::Some(t) => t,
            Option::None => {
                return None;
            },
        },
        Option::None => {
            return None;
        },
    };
    let max = match obj_get(v, "max") {
        Option::Some(x) => match temp_like_of(x) {
            Option::Some(t) => t,
            Option::None => {
                return None;
            },
        },
        Option::None => {
            return None;
        },
    };
    Some(ForecastFeelsLike { observation_time: obs, min, max })
}

/// A span object: an observation time and a min/max pair of humidity percentages.
pub open spec fn spec_forecast_humidity_of(m: JsonModel) -> Option<ForecastHumidity> {
    let obs = match spec_obj_get(m, "observation_time"@) {
        Option::Some(x) => spec_time_like_of(x),
        Option::None => None,
    };
    let min = match spec_obj_get(m, "min"@) {
        Option::Some(x) => spec_percent_like_of(x),
        Option::None => None,
    };
    let max = match spec_obj_get(m, "max"@) {
        Option::Some(x) => spec_percent_like_of(x),
        Option::None => None,
    };
    if obs is Some && min is Some && max is Some {
        Some(
            ForecastHumidity {
                observation_time: obs->Some_0,
                min: min->Some_0,
                max: max->Some_0,
            },
        )
    } else {
        None
    }
}

/// Reads a span object of humidity percentages.
pub fn forecast_humidity_of(v: &JsonValue) -> (r: Option<ForecastHumidity>)
    ensures
        r == spec_forecast_humidity_of(v@),
{
    let obs = match obj_get(v, "observation_time") {
        Option::Some(x) => match time_like_of(x) {
            Option::Some(t) => t,
            Option::None => {
                return None;
            },
        },
        Option::None => {
            return None;
        },
    };
    let min = match obj_get(v, "min") {
        Option::Some(x) => match percent_like_of(x) {
            Option::Some(t) => t,
            Option::None => {
                return None;
            },
        },
        Option::None => {
            return None;
        },
    };
    let max = match obj_get(v, "max") {
        Option::Some(x) => match percent_like_of(x) {
            Option::Some(t) => t,
            Option::None => {
                return None;
            },
        },
        Option::None => {
            return None;
        },
    };
    Some(ForecastHumidity { observation_time: obs, min, max })
}

/// A span object: an observation time and a min/max pair of pressures.
pub open spec fn spec_forecast_baro_pressure_of(m: JsonModel) -> Option<ForecastBaroPressure> {
    let obs = match spec_obj_get(m, "observation_time"@) {
        Option::Some(x) => spec_time_like_of(x),
        Option::None => None,
    };
    let min = match spec_obj_get(m, "min"@) {
        Option::Some(x) => spec_pressure_like_of(x),
        Option::None => None,
    };
    let max = match spec_obj_get(m, "max"@) {
        Option::Some(x) => spec_pressure_like_of(x),
        Option::None => None,
    };
    if obs is Some && min is Some && max is Some {
        Some(
            ForecastBaroPressure {
                observation_time: obs->Some_0,
                min: min->Some_0,
                max: max->Some_0,
            },
        )
    } else {
        None
    }
}

/// Reads a span object of pressures.
pub fn forecast_baro_pressure_of(v: &JsonValue) -> (r: Option<ForecastBaroPressure>)
    ensures
        r == spec_forecast_baro_pressure_of(v@),
{
    let obs = match obj_get(v, "observation_time") {
        Option::Some(x) => match time_like_of(x) {
            Option::Some(t) => t,
            Option::None => {
                return None;
            },
        },
        Option::None => {
            return None;
        },
    };
    let min = match obj_get(v, "min") {
        Option::Some(x) => match pressure_like_of(x) {
            Option::Some(t) => t,
            Option::None => {
                return None;
            },
        },
        Option::None => {
            return None;
        },
    };
    let max = match obj_get(v, "max") {
        Option::Some(x) => match pressure_like_of(x) {
            Option::Some(t) => t,
            Option::None => {
                return None;
            },
        },
        Option::None => {
            return None;
        },
    };
    Some(ForecastBaroPressure { observation_time: obs, min, max })
}

/// A span object: an observation time and a min/max pair of wind speeds.
pub open spec fn spec_forecast_wind_speed_of(m: JsonModel) -> Option<ForecastWindSpeed> {
    let obs = match spec_obj_get(m, "observation_time"@) {
        Option::Some(x) => spec_time_like_of(x),
        Option::None => None,
    };
    let min = match spec_obj_get(m, "min"@) {
        Option::Some(x) => spec_speed_like_of(x),
        Option::None => None,
    };
    let max = match spec_obj_get(m, "max"@) {
        Option::Some(x) => spec_speed_like_of(x),
        Option::None => None,
    };
    if obs is Some && min is Some && max is Some {
        Some(
            ForecastWindSpeed {
                observation_time: obs->Some_0,
                min: min->Some_0,
                max: max->Some_0,
            },
        )
    } else {
        None
    }
}

/// Reads a span object of wind speeds.
pub fn forecast_wind_speed_of(v: &JsonValue) -> (r: Option<ForecastWindSpeed>)
    ensures
        r == spec_forecast_wind_speed_of(v@),
{
    let obs = match obj_get(v, "observation_time") {
        Option::Some(x) => match time_like_of(x) {
            Option::Some(t) => t,
            Option::None => {
                return None;
            },
        },
        Option::None => {
            return None;
        },
    };
    let min = match obj_get(v, "min") {
        Option::Some(x) => match speed_like_of(x) {
            Option::Some(t) => t,
            Option::None => {
                return None;
            },
        },
        Option::None => {
            return None;
        },
    };
    let max = match obj_get(v, "max") {
        Option::Some(x) => match speed_like_of(x) {
            Option::Some(t) => t,
            Option::None => {
                return None;
            },
        },
        Option::None => {
            return None;
        },
    };
    Some(ForecastWindSpeed { observation_time: obs, min, max })
}

/// A span object: an observation time and a min/max pair of wind bearings.
pub open spec fn spec_forecast_wind_direction_of(m: JsonModel) -> Option<ForecastWindDirection> {
    let obs = match spec_obj_get(m, "observation_time"@) {
        Option::Some(x) => spec_time_like_of(x),
        Option::None => None,
    };
    let min = match spec_obj_get(m, "min"@) {
        Option::Some(x) => spec_compass_like_of(x),
        Option::None => None,
    };
    let max = match spec_obj_get(m, "max"@) {
        Option::Some(x) => spec_compass_like_of(x),
        Option::None => None,
    };
    if obs is Some && min is Some && max is Some {
        Some(
            ForecastWindDirection {
                observation_time: obs->Some_0,
                min: min->Some_0,
                max: max->Some_0,
            },
        )
    } else {
        None
    }
}

/// Reads a span object of wind bearings.
pub fn forecast_wind_direction_of(v: &JsonValue) -> (r: Option<ForecastWindDirection>)
    ensures
        r == spec_forecast_wind_direction_of(v@),
{
    let obs = match obj_get(v, "observation_time") {
        Option::Some(x) => match time_like_of(x) {
            Option::Some(t) => t,
            Option::None => {
                return None;
            },
        },
        Option::None => {
            return None;
        },
    };
    let min = match obj_get(v, "min") {
        Option::Some(x) => match compass_like_of(x) {
            Option::Some(t) => t,
            Option::None => {
                return None;
            },
        },
        Option::None => {
            return None;
        },
    };
    let max = match obj_get(v, "max") {
        Option::Some(x) => match compass_like_of(x) {
            Option::Some(t) => t,
            Option::None => {
                return None;
            },
        },
        Option::None => {
            return None;
        },
    };
    Some(ForecastWindDirection { observation_time: obs, min, max })
}

/// The forecast day a document tree denotes. The dewpoint member, present
/// or not, is never read: the record always carries the sentinel span.
pub open spec fn spec_forecast_day_of(m: JsonModel) -> Option<ForecastDay> {
    let temp = match spec_obj_get(m, "temp"@) {
        Option::Some(x) => spec_forecast_temp_of(x),
        Option::None => None,
    };
    let feels_like = match spec_obj_get(m, "feels_like"@) {
        Option::Some(x) => spec_forecast_feels_like_of(x),
        Option::None => None,
    };
    let humidity = match spec_obj_get(m, "humidity"@) {
        Option::Some(x) => spec_forecast_humidity_of(x),
        Option::None => None,
    };
    let baro_pressure = match spec_obj_get(m, "baro_pressure"@) {
        Option::Some(x) => spec_forecast_baro_pressure_of(x),
        Option::None => None,
    };
    let wind_speed = match spec_obj_get(m, "wind_speed"@) {
        Option::Some(x) => spec_forecast_wind_speed_of(x),
        Option::None => None,
    };
    let wind_direction = match spec_obj_get(m, "wind_direction"@) {
        Option::Some(x) => spec_forecast_wind_direction_of(x),
        Option::None => None,
    };
    let weather_code = match spec_obj_get(m, "weather_code"@) {
        Option::Some(x) => spec_weather_of(x),
        Option::None => None,
    };
    let observation_time = match spec_obj_get(m, "observation_time"@) {
        Option::Some(x) => spec_time_like_of(x),
        Option::None => None,
    };
    let lat = spec_num_field(m, "lat"@);
    let lon = spec_num_field(m, "lon"@);
    if temp is Some && feels_like is Some && humidity is Some && baro_pressure is Some
        && wind_speed is Some && wind_direction is Some && weather_code is Some
        && observation_time is Some && lat is Some && lon is Some {
        Some(
            ForecastDay {
                temp: temp->Some_0,
                feels_like: feels_like->Some_0,
                humidity: humidity->Some_0,
                baro_pressure: baro_pressure->Some_0,
                wind_speed: wind_speed->Some_0,
                wind_direction: wind_direction->Some_0,
                weather_code: weather_code->Some_0,
                dewpoint: ForecastTemp::spec_default(),
                observation_time: observation_time->Some_0,
                lat: lat->Some_0 as i64,
                lon: lon->Some_0 as i64,
            },
        )
    } else {
        None
    }
}

impl ForecastDay {
    /// Maps a document tree to a forecast day; a schema error exactly
    /// where the tree does not denote one. A missing dewpoint member never
    /// fails: the record's dewpoint is always the sentinel span.
    pub fn from_json(v: &JsonValue) -> (r: Result<ForecastDay, WeatherError>)
        ensures
            match r {
                Result::Ok(d) => spec_forecast_day_of(v@) == Some(d) && d.dewpoint
                    == ForecastTemp::spec_default(),
                Result::Err(e) => spec_forecast_day_of(v@) is None && e matches
                    WeatherError::Schema,
            },
    {
        let temp = match obj_get(v, "temp") {
            Option::Some(x) => match forecast_temp_of(x) {
                Option::Some(t) => t,
                Option::None => {
                    return Err(WeatherError::Schema);
                },
            },
            Option::None => {
                return Err(WeatherError::Schema);
            },
        };
        let feels_like = match obj_get(v, "feels_like") {
            Option::Some(x) => match forecast_feels_like_of(x) {
                Option::Some(t) => t,
                Option::None => {
                    return Err(WeatherError::Schema);
                },
            },
            Option::None => {
                return Err(WeatherError::Schema);
            },
        };
        let humidity = match obj_get(v, "humidity") {
            Option::Some(x) => match forecast_humidity_of(x) {
                Option::Some(t) => t,
                Option::None => {
                    return Err(WeatherError::Schema);
                },
            },
            Option::None => {
                return Err(WeatherError::Schema);
            },
        };
        let baro_pressure = match obj_get(v, "baro_pressure") {
            Option::Some(x) => match forecast_baro_pressure_of(x) {
                Option::Some(t) => t,
                Option::None => {
                    return Err(WeatherError::Schema);
                },
            },
            Option::None => {
                return Err(WeatherError::Schema);
            },
        };
        let wind_speed = match obj_get(v, "wind_speed") {
            Option::Some(x) => match forecast_wind_speed_of(x) {
                Option::Some(t) => t,
                Option::None => {
                    return Err(WeatherError::Schema);
                },
            },
            Option::None => {
                return Err(WeatherError::Schema);
            },
        };
        let wind_direction = match obj_get(v, "wind_direction") {
            Option::Some(x) => match forecast_wind_direction_of(x) {
                Option::Some(t) => t,
                Option::None => {
                    return Err(WeatherError::Schema);
                },
            },
            Option::None => {
                return Err(WeatherError::Schema);
            },
        };
        let weather_code = match obj_get(v, "weather_code") {
            Option::Some(x) => match weather_of(x) {
                Option::Some(t) => t,
                Option::None => {
                    return Err(WeatherError::Schema);
                },
            },
            Option::None => {
                return Err(WeatherError::Schema);
            },
        };
        let observation_time = match obj_get(v, "observation_time") {
            Option::Some(x) => match time_like_of(x) {
                Option::Some(t) => t,
                Option::None => {
                    return Err(WeatherError::Schema);
                },
            },
            Option::None => {
                return Err(WeatherError::Schema);
            },
        };
        let lat = match num_field(v, "lat") {
            Option::Some(x) => x,
            Option::None => {
                return Err(WeatherError::Schema);
            },
        };
        let lon = match num_field(v, "lon") {
            Option::Some(x) => x,
            Option::None => {
                return Err(WeatherError::Schema);
            },
        };
        Ok(
            ForecastDay {
                temp,
                feels_like,
                humidity,
                baro_pressure,
                wind_speed,
                wind_direction,
                weather_code,
                dewpoint: ForecastTemp::default(),
                observation_time,
                lat,
                lon,
            },
        )
    }
}

/// The forecast record: a mapping from day identifier to that day's entry,
/// in wire order.
#[derive(Debug, PartialEq, Eq)]
pub struct ForecastLoad {
    pub days: Vec<(String, ForecastDay)>,
}

/// The day entries a member list denotes, from position `i` on: every
/// member's value must denote a forecast day.
pub open spec fn spec_days_from(ms: Seq<crate::json::JsonMember>, i: int) -> Option<
    Seq<(Seq<char>, ForecastDay)>,
>
    decreases ms.len() - i,
{
    if !(0 <= i <= ms.len()) {
        None
    } else if i == ms.len() {
        Some(Seq::empty())
    } else {
        match spec_forecast_day_of(ms[i].value) {
            Option::Some(d) => match spec_days_from(ms, i + 1) {
                Option::Some(r) => Some(seq![(ms[i].name, d)] + r),
                Option::None => None,
            },
            Option::None => None,
        }
    }
}

/// The forecast record a document tree denotes: a `days` object whose
/// every member is a forecast day.
pub open spec fn spec_forecast_load_of(m: JsonModel) -> Option<Seq<(Seq<char>, ForecastDay)>> {
    match spec_obj_get(m, "days"@) {
        Option::Some(x) => match x {
            JsonModel::Obj(ms) => spec_days_from(ms, 0),
            _ => None,
        },
        Option::None => None,
    }
}

/// Reads the day entries of a member list from position `i` on.
fn days_from(
    ms: &Vec<(String, JsonValue)>,
    i: usize,
    Ghost(o): Ghost<Seq<crate::json::JsonMember>>,
) -> (r: Option<Vec<(String, ForecastDay)>>)
    requires
        i <= ms.len(),
        o.len() == ms@.len(),
        forall|k: int|
            0 <= k < ms@.len() ==> #[trigger] o[k] == (crate::json::JsonMember {
                name: ms@[k].0@,
                value: ms@[k].1@,
            }),
    ensures
        match r {
            Option::Some(out) => (spec_days_from(o, i as int) matches Some(w) && w.len()
                == out@.len() && (forall|t: int|
                0 <= t < out@.len() ==> #[trigger] w[t] == (out@[t].0@, out@[t].1))),
            Option::None => spec_days_from(o, i as int) is None,
        },
    decreases ms.len() - i,
{
    if i == ms.len() {
        let out: Vec<(String, ForecastDay)> = Vec::new();
        proof {
            assert(spec_days_from(o, i as int) matches Some(w) && w =~= Seq::empty());
        }
        return Some(out);
    }
    let pair = &ms[i];
    match ForecastDay::from_json(&pair.1) {
        Result::Err(_) => None,
        Result::Ok(d) => match days_from(ms, i + 1, Ghost(o)) {
            Option::None => None,
            Option::Some(rest) => {
                let ghost rest_view = rest@;
                let ghost prev = spec_days_from(o, i + 1)->Some_0;
                let key = String::from_str(pair.0.as_str());
                let mut out = rest;
                out.insert(0, (key, d));
                proof {
                    assert(out@ =~= seq![(out@[0].0, d)] + rest_view);
                    let w = spec_days_from(o, i as int)->Some_0;
                    assert(w =~= seq![(o[i as int].name, d)] + prev);
                    assert forall|t: int| 0 <= t < out@.len() implies #[trigger] w[t] == (
                        out@[t].0@,
                        out@[t].1,
                    ) by {
                        if t == 0 {
                        } else {
                            assert(out@[t] == rest_view[t - 1]);
                            assert(w[t] == prev[t - 1]);
                        }
                    }
                }
                Some(out)
            },
        },
    }
}

impl ForecastLoad {
    /// Maps a document tree to the forecast record; a schema error exactly
    /// where the tree does not denote one.
    pub fn from_json(v: &JsonValue) -> (r: Result<ForecastLoad, WeatherError>)
        ensures
            match r {
                Result::Ok(ld) => (spec_forecast_load_of(v@) matches Some(w) && w.len()
                    == ld.days@.len() && (forall|t: int|
                    0 <= t < ld.days@.len() ==> #[trigger] w[t] == (
                        ld.days@[t].0@,
                        ld.days@[t].1,
                    ))),
                Result::Err(e) => spec_forecast_load_of(v@) is None && e matches
                    WeatherError::Schema,
            },
    {
        match obj_get(v, "days") {
            Option::Some(x) => match x {
                JsonValue::Obj(ms) => {
                    let ghost o = x@->Obj_0;
                    match days_from(ms, 0, Ghost(o)) {
                        Option::Some(days) => Ok(ForecastLoad { days }),
                        Option::None => Err(WeatherError::Schema),
                    }
                },
                _ => Err(WeatherError::Schema),
            },
            Option::None => Err(WeatherError::Schema),
        }
    }

    /// Deserializes a whole wire document into the forecast record.
    pub fn from_wire(s: &str) -> (r: Result<ForecastLoad, WeatherError>)
        ensures
            match r {
                Result::Ok(ld) => (crate::json::spec_parse_document(s@) matches Some(m)
                    && spec_forecast_load_of(m) matches Some(w) && w.len() == ld.days@.len() && (
                    forall|t: int|
                        0 <= t < ld.days@.len() ==> #[trigger] w[t] == (
                            ld.days@[t].0@,
                            ld.days@[t].1,
                        ))),
                Result::Err(e) => (e matches WeatherError::Schema && (crate::json::spec_parse_document(
                    s@,
                ) matches Some(m) ==> spec_forecast_load_of(m) is None)),
            },
    {
        match crate::json::parse_document(s) {
            Result::Ok(v) => ForecastLoad::from_json(&v),
            Result::Err(e) => Err(e),
        }
    }
}

/// One group of named observations from the flat forecast shape.
pub open spec fn spec_vu_members_from(ms: Seq<crate::json::JsonMember>, i: int) -> Option<
    Seq<(Seq<char>, VUTuple)>,
>
    decreases ms.len() - i,
{
    if !(0 <= i <= ms.len()) {
        None
    } else if i == ms.len() {
        Some(Seq::empty())
    } else {
        match spec_vu_tuple_of(ms[i].value) {
            Option::Some(vu) => match spec_vu_members_from(ms, i + 1) {
                Option::Some(r) => Some(seq![(ms[i].name, vu)] + r),
                Option::None => None,
            },
            Option::None => None,
        }
    }
}

/// The observation groups an element list denotes, from position `i` on:
/// every element must be an object of value-and-units pairs.
pub open spec fn spec_obs_from(es: Seq<JsonModel>, i: int) -> Option<
    Seq<Seq<(Seq<char>, VUTuple)>>,
>
    decreases es.len() - i,
{
    if !(0 <= i <= es.len()) {
        None
    } else if i == es.len() {
        Some(Seq::empty())
    } else {
        match es[i] {
            JsonModel::Obj(ms) => match spec_vu_members_from(ms, 0) {
                Option::Some(g) => match spec_obs_from(es, i + 1) {
                    Option::Some(r) => Some(seq![g] + r),
                    Option::None => None,
                },
                Option::None => None,
            },
            _ => None,
        }
    }
}

/// The flat forecast item a document tree denotes: an `obs` array of
/// observation groups.
pub open spec fn spec_forecast_item_of(m: JsonModel) -> Option<Seq<Seq<(Seq<char>, VUTuple)>>> {
    match spec_obj_get(m, "obs"@) {
        Option::Some(x) => match x {
            JsonModel::Arr(es) => spec_obs_from(es, 0),
            _ => None,
        },
        Option::None => None,
    }
}

/// Whether an observation-group model describes a built group exactly.
pub open spec fn spec_vu_group_matches(w: Seq<(Seq<char>, VUTuple)>, g: Seq<(String, VUTuple)>) -> bool {
    &&& w.len() == g.len()
    &&& forall|t: int| 0 <= t < g.len() ==> #[trigger] w[t] == (g[t].0@, g[t].1)
}

/// A day's flat observations, kept from the earlier partial forecast
/// model: each group maps observation names to value-and-units pairs.
#[derive(Debug, PartialEq, Eq)]
pub struct ForecastItem {
    pub obs: Vec<Vec<(String, VUTuple)>>,
}

/// Reads the value-and-units pairs of a member list from position `i` on.
fn vu_members_from(
    ms: &Vec<(String, JsonValue)>,
    i: usize,
    Ghost(o): Ghost<Seq<crate::json::JsonMember>>,
) -> (r: Option<Vec<(String, VUTuple)>>)
    requires
        i <= ms.len(),
        o.len() == ms@.len(),
        forall|k: int|
            0 <= k < ms@.len() ==> #[trigger] o[k] == (crate::json::JsonMember {
                name: ms@[k].0@,
                value: ms@[k].1@,
            }),
    ensures
        match r {
            Option::Some(out) => (spec_vu_members_from(o, i as int) matches Some(w)
                && spec_vu_group_matches(w, out@)),
            Option::None => spec_vu_members_from(o, i as int) is None,
        },
    decreases ms.len() - i,
{
    if i == ms.len() {
        let out: Vec<(String, VUTuple)> = Vec::new();
        proof {
            assert(spec_vu_members_from(o, i as int) matches Some(w) && w =~= Seq::empty());
        }
        return Some(out);
    }
    let pair = &ms[i];
    match VUTuple::from_json(&pair.1) {
        Option::None => None,
        Option::Some(vu) => match vu_members_from(ms, i + 1, Ghost(o)) {
            Option::None => None,
            Option::Some(rest) => {
                let ghost rest_view = rest@;
                let ghost prev = spec_vu_members_from(o, i + 1)->Some_0;
                let key = String::from_str(pair.0.as_str());
                let mut out = rest;
                out.insert(0, (key, vu));
                proof {
                    assert(out@ =~= seq![(out@[0].0, vu)] + rest_view);
                    let w = spec_vu_members_from(o, i as int)->Some_0;
                    assert(w =~= seq![(o[i as int].name, vu)] + prev);
                    assert forall|t: int| 0 <= t < out@.len() implies #[trigger] w[t] == (
                        out@[t].0@,
                        out@[t].1,
                    ) by {
                        if t == 0 {
                        } else {
                            assert(out@[t] == rest_view[t - 1]);
                            assert(w[t] == prev[t - 1]);
                        }
                    }
                }
                Some(out)
            },
        },
    }
}

/// Reads the observation groups of an element list from position `i` on.
fn obs_from(es: &Vec<JsonValue>, i: usize, Ghost(eo): Ghost<Seq<JsonModel>>) -> (r: Option<
    Vec<Vec<(String, VUTuple)>>,
>)
    requires
        i <= es.len(),
        eo.len() == es@.len(),
        forall|k: int| 0 <= k < es@.len() ==> #[trigger] eo[k] == es@[k]@,
    ensures
        match r {
            Option::Some(out) => (spec_obs_from(eo, i as int) matches Some(w) && w.len()
                == out@.len() && (forall|k: int|
                0 <= k < out@.len() ==> spec_vu_group_matches(#[trigger] w[k], out@[k]@))),
            Option::None => spec_obs_from(eo, i as int) is None,
        },
    decreases es.len() - i,
{
    if i == es.len() {
        let out: Vec<Vec<(String, VUTuple)>> = Vec::new();
        proof {
            assert(spec_obs_from(eo, i as int) matches Some(w) && w =~= Seq::empty());
        }
        return Some(out);
    }
    let e = &es[i];
    match e {
        JsonValue::Obj(ms) => {
            let ghost o = e@->Obj_0;
            match vu_members_from(ms, 0, Ghost(o)) {
                Option::None => None,
                Option::Some(group) => match obs_from(es, i + 1, Ghost(eo)) {
                    Option::None => None,
                    Option::Some(rest) => {
                        let ghost group_view = group@;
                        let ghost rest_view = rest@;
                        let ghost prev = spec_obs_from(eo, i + 1)->Some_0;
                        let ghost g = spec_vu_members_from(o, 0)->Some_0;
                        let mut out = rest;
                        out.insert(0, group);
                        proof {
                            assert(out@ =~= seq![out@[0]] + rest_view);
                            let w = spec_obs_from(eo, i as int)->Some_0;
                            assert(w =~= seq![g] + prev);
                            assert forall|k: int|
                                0 <= k < out@.len() implies spec_vu_group_matches(
                                #[trigger] w[k],
                                out@[k]@,
                            ) by {
                                if k == 0 {
                                    assert(w[0] == g);
                                    assert(out@[0]@ == group_view);
                                } else {
                                    assert(out@[k] == rest_view[k - 1]);
                                    assert(w[k] == prev[k - 1]);
                                }
                            }
                        }
                        Some(out)
                    },
                },
            }
        },
        _ => None,
    }
}

impl ForecastItem {
    /// Maps a document tree to the flat forecast item; a schema error
    /// exactly where the tree does not denote one.
    pub fn from_json(v: &JsonValue) -> (r: Result<ForecastItem, WeatherError>)
        ensures
            match r {
                Result::Ok(it) => (spec_forecast_item_of(v@) matches Some(w) && w.len()
                    == it.obs@.len() && (forall|k: int|
                    0 <= k < it.obs@.len() ==> spec_vu_group_matches(
                        #[trigger] w[k],
                        it.obs@[k]@,
                    ))),
                Result::Err(e) => spec_forecast_item_of(v@) is None && e matches
                    WeatherError::Schema,
            },
    {
        match obj_get(v, "obs") {
            Option::Some(x) => match x {
                JsonValue::Arr(es) => {
                    let ghost eo = x@->Arr_0;
                    match obs_from(es, 0, Ghost(eo)) {
                        Option::Some(obs) => Ok(ForecastItem { obs }),
                        Option::None => Err(WeatherError::Schema),
                    }
                },
                _ => Err(WeatherError::Schema),
            },
            Option::None => Err(WeatherError::Schema),
        }
    }
}

/// Law: every decoded forecast day carries the sentinel dewpoint span,
/// whether or not the document carried a dewpoint member.
pub proof fn lemma_forecast_dewpoint_is_sentinel(m: JsonModel)
    ensures
        spec_forecast_day_of(m) matches Some(d) ==> d.dewpoint == ForecastTemp::spec_default(),
{
}

} // verus!
