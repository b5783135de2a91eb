//! The mapping from a wire document tree to the current-conditions record.
//!
//! Field names are fixed by the upstream schema. The observation-time and
//! bearing objects accept a legacy alias member (`value`) besides their own
//! name, kept from an earlier schema generation. Every enumerated member
//! must carry a recognized discriminant and every required member must be
//! present and well typed, or the whole document is rejected with a schema
//! error; the dewpoint is the one member allowed to be absent, defaulting
//! to the sentinel temperature.

use vstd::prelude::*;
use crate::json::{JsonValue, JsonModel, JsonMember};
use crate::errors::WeatherError;
use crate::fixed::MAX_ABS;
use crate::measurements::{TempLike, PercentLike, SpeedLike, PressureLike, CompassLike};
use crate::units::{Unit, spec_unit_from_wire};
use crate::codes::{PrecipType, MoonPhase, WeatherCode, spec_precip_from_wire,
    spec_moon_from_wire, spec_weather_from_wire};
use crate::time::{TimeLike, spec_time_from_wire};
use crate::strutil::str_eq;

verus! {

/// The first member with the given name, if any.
pub open spec fn spec_members_get(ms: Seq<JsonMember>, name: Seq<char>) -> Option<JsonModel>
    decreases ms.len(),
{
    if ms.len() == 0 {
        None
    } else if ms[0].name == name {
        Some(ms[0].value)
    } else {
        spec_members_get(ms.drop_first(), name)
    }
}

/// The named member of an object; `None` for any other tree.
pub open spec fn spec_obj_get(m: JsonModel, name: Seq<char>) -> Option<JsonModel> {
    match m {
        JsonModel::Obj(ms) => spec_members_get(ms, name),
        _ => None,
    }
}

/// Law: a lookup passes over members whose names differ.
proof fn lemma_members_get_skip(ms: Seq<JsonMember>, name: Seq<char>, i: int)
    requires
        0 <= i <= ms.len(),
        forall|k: int| 0 <= k < i ==> ms[k].name != name,
    ensures
        spec_members_get(ms, name) == spec_members_get(ms.skip(i), name),
    decreases i,
{
    if i > 0 {
        assert(ms.drop_first() =~= ms.skip(1));
        lemma_members_get_skip(ms.skip(1), name, i - 1);
        assert(ms.skip(1).skip(i - 1) =~= ms.skip(i));
    } else {
        assert(ms.skip(0) =~= ms);
    }
}

/// Looks up the named member of an object; `None` exactly where the tree
/// is no object or has no member of that name.
pub fn obj_get<'a>(v: &'a JsonValue, name: &str) -> (r: Option<&'a JsonValue>)
    ensures
        match r {
            Option::Some(x) => spec_obj_get(v@, name@) == Some(x@),
            Option::None => spec_obj_get(v@, name@) is None,
        },
{
    match v {
        JsonValue::Obj(ms) => {
            let ghost o = v@->Obj_0;
            let n = ms.len();
            let mut i: usize = 0;
            while i < n
                invariant
                    n == ms.len(),
                    o == v@->Obj_0,
                    v@ matches JsonModel::Obj(oo) && oo == o,
                    o.len() == ms@.len(),
                    forall|k: int|
                        0 <= k < ms@.len() ==> #[trigger] o[k] == (JsonMember {
                            name: ms@[k].0@,
                            value: ms@[k].1@,
                        }),
                    i <= n,
                    forall|k: int| 0 <= k < i ==> #[trigger] o[k].name != name@,
                decreases n - i,
            {
                let pair = &ms[i];
                if str_eq(pair.0.as_str(), name) {
                    proof {
                        lemma_members_get_skip(o, name@, i as int);
                        assert(o.skip(i as int)[0] == o[i as int]);
                        assert(spec_members_get(o.skip(i as int), name@) == Some(o[i as int].value));
                    }
                    return Some(&pair.1);
                }
                i += 1;
            }
            proof {
                lemma_members_get_skip(o, name@, o.len() as int);
                assert(o.skip(o.len() as int).len() == 0);
            }
            None
        },
        _ => None,
    }
}

/// The named member as an in-range number, in millionths. Numbers beyond
/// twelve integer digits are a schema mismatch, as in the reader.
pub open spec fn spec_num_field(m: JsonModel, name: Seq<char>) -> Option<int> {
    match spec_obj_get(m, name) {
        Option::Some(x) => match x {
            JsonModel::Num(n) => if -MAX_ABS <= n <= MAX_ABS {
                Some(n)
            } else {
                None
            },
            _ => None,
        },
        Option::None => None,
    }
}

/// Reads the named member as an in-range number.
pub fn num_field(v: &JsonValue, name: &str) -> (r: Option<i64>)
    ensures
        match r {
            Option::Some(n) => spec_num_field(v@, name@) == Some(n as int),
            Option::None => spec_num_field(v@, name@) is None,
        },
{
    match obj_get(v, name) {
        Option::Some(x) => match x {
            JsonValue::Num(n) => {
                if -MAX_ABS <= *n && *n <= MAX_ABS {
                    Some(*n)
                } else {
                    None
                }
            },
            _ => None,
        },
        Option::None => None,
    }
}

/// The named member as a string.
pub open spec fn spec_str_field(m: JsonModel, name: Seq<char>) -> Option<Seq<char>> {
    match spec_obj_get(m, name) {
        Option::Some(x) => match x {
            JsonModel::Str(s) => Some(s),
            _ => None,
        },
        Option::None => None,
    }
}

/// Reads the named member as a string.
pub fn str_field<'a>(v: &'a JsonValue, name: &str) -> (r: Option<&'a String>)
    ensures
        match r {
            Option::Some(s) => spec_str_field(v@, name@) == Some(s@),
            Option::None => spec_str_field(v@, name@) is None,
        },
{
    match obj_get(v, name) {
        Option::Some(x) => match x {
            JsonValue::Str(s) => Some(s),
            _ => None,
        },
        Option::None => None,
    }
}

/// A temperature object: a `value` number and a `units` tag naming one of
/// the two temperature scales.
pub open spec fn spec_temp_like_of(m: JsonModel) -> Option<TempLike> {
    let v = spec_num_field(m, "value"@);
    let u = match spec_str_field(m, "units"@) {
        Option::Some(s) => spec_unit_from_wire(s),
        Option::None => None,
    };
    if v is Some && u is Some && (u->Some_0 == Unit::F || u->Some_0 == Unit::C) {
        Some(TempLike { value: v->Some_0 as i64, units: u->Some_0 })
    } else {
        None
    }
}

/// Reads a temperature object.
pub fn temp_like_of(v: &JsonValue) -> (r: Option<TempLike>)
    ensures
        r == spec_temp_like_of(v@),
        r matches Option::Some(t) ==> t.wf(),
{
    let value = match num_field(v, "value") {
        Option::Some(x) => x,
        Option::None => {
            return None;
        },
    };
    let units = match str_field(v, "units") {
        Option::Some(s) => match Unit::from_wire(s.as_str()) {
            Option::Some(u) => u,
            Option::None => {
                return None;
            },
        },
        Option::None => {
            return None;
        },
    };
    if matches!(units, Unit::F) || matches!(units, Unit::C) {
        Some(TempLike { value, units })
    } else {
        None
    }
}

/// A percentage object: a `value` number.
pub open spec fn spec_percent_like_of(m: JsonModel) -> Option<PercentLike> {
    match spec_num_field(m, "value"@) {
        Option::Some(n) => Some(PercentLike { value: n as i64 }),
        Option::None => None,
    }
}

/// Reads a percentage object.
pub fn percent_like_of(v: &JsonValue) -> (r: Option<PercentLike>)
    ensures
        r == spec_percent_like_of(v@),
        r matches Option::Some(p) ==> p.wf(),
{
    match num_field(v, "value") {
        Option::Some(n) => Some(PercentLike { value: n }),
        Option::None => None,
    }
}

/// A speed object: a `value` number and a `units` tag naming one of the
/// two speed units.
pub open spec fn spec_speed_like_of(m: JsonModel) -> Option<SpeedLike> {
    let v = spec_num_field(m, "value"@);
    let u = match spec_str_field(m, "units"@) {
        Option::Some(s) => spec_unit_from_wire(s),
        Option::None => None,
    };
    if v is Some && u is Some && (u->Some_0 == Unit::MPH || u->Some_0 == Unit::MS) {
        Some(SpeedLike { value: v->Some_0 as i64, units: u->Some_0 })
    } else {
        None
    }
}

/// Reads a speed object.
pub fn speed_like_of(v: &JsonValue) -> (r: Option<SpeedLike>)
    ensures
        r == spec_speed_like_of(v@),
        r matches Option::Some(t) ==> t.wf(),
{
    let value = match num_field(v, "value") {
        Option::Some(x) => x,
        Option::None => {
            return None;
        },
    };
    let units = match str_field(v, "units") {
        Option::Some(s) => match Unit::from_wire(s.as_str()) {
            Option::Some(u) => u,
            Option::None => {
                return None;
            },
        },
        Option::None => {
            return None;
        },
    };
    if matches!(units, Unit::MPH) || matches!(units, Unit::MS) {
        Some(SpeedLike { value, units })
    } else {
        None
    }
}

/// A pressure object: a `value` number and a `units` tag naming one of the
/// two pressure units.
pub open spec fn spec_pressure_like_of(m: JsonModel) -> Option<PressureLike> {
    let v = spec_num_field(m, "value"@);
    let u = match spec_str_field(m, "units"@) {
        Option::Some(s) => spec_unit_from_wire(s),
        Option::None => None,
    };
    if v is Some && u is Some && (u->Some_0 == Unit::HPA || u->Some_0 == Unit::INHG) {
        Some(PressureLike { value: v->Some_0 as i64, units: u->Some_0 })
    } else {
        None
    }
}

/// Reads a pressure object.
pub fn pressure_like_of(v: &JsonValue) -> (r: Option<PressureLike>)
    ensures
        r == spec_pressure_like_of(v@),
        r matches Option::Some(t) ==> t.wf(),
{
    let value = match num_field(v, "value") {
        Option::Some(x) => x,
        Option::None => {
            return None;
        },
    };
    let units = match str_field(v, "units") {
        Option::Some(s) => match Unit::from_wire(s.as_str()) {
            Option::Some(u) => u,
            Option::None => {
                return None;
            },
        },
        Option::None => {
            return None;
        },
    };
    if matches!(units, Unit::HPA) || matches!(units, Unit::INHG) {
        Some(PressureLike { value, units })
    } else {
        None
    }
}

/// A bearing object: a `degrees` number, or under the legacy alias
/// `value`. Where both members stand, `degrees` wins.
pub open spec fn spec_compass_like_of(m: JsonModel) -> Option<CompassLike> {
    match spec_obj_get(m, "degrees"@) {
        Option::Some(x) => match x {
            JsonModel::Num(n) => if -MAX_ABS <= n <= MAX_ABS {
                Some(CompassLike { degrees: n as i64 })
            } else {
                None
            },
            _ => None,
        },
        Option::None => match spec_num_field(m, "value"@) {
            Option::Some(n) => Some(CompassLike { degrees: n as i64 }),
            Option::None => None,
        },
    }
}

/// Reads a bearing object.
pub fn compass_like_of(v: &JsonValue) -> (r: Option<CompassLike>)
    ensures
        r == spec_compass_like_of(v@),
        r matches Option::Some(c) ==> c.wf(),
{
    match obj_get(v, "degrees") {
        Option::Some(x) => match x {
            JsonValue::Num(n) => {
                if -MAX_ABS <= *n && *n <= MAX_ABS {
                    Some(CompassLike { degrees: *n })
                } else {
                    None
                }
            },
            _ => None,
        },
        Option::None => match num_field(v, "value") {
            Option::Some(n) => Some(CompassLike { degrees: n }),
            Option::None => None,
        },
    }
}

/// A timestamp object: a `dt` string, or under the legacy alias `value`.
/// Where both members stand, `dt` wins.
pub open spec fn spec_time_like_of(m: JsonModel) -> Option<TimeLike> {
    match spec_obj_get(m, "dt"@) {
        Option::Some(x) => match x {
            JsonModel::Str(s) => spec_time_from_wire(s),
            _ => None,
        },
        Option::None => match spec_str_field(m, "value"@) {
            Option::Some(s) => spec_time_from_wire(s),
            Option::None => None,
        },
    }
}

/// Reads a timestamp object.
pub fn time_like_of(v: &JsonValue) -> (r: Option<TimeLike>)
    ensures
        r == spec_time_like_of(v@),
        r matches Option::Some(t) ==> t.wf(),
{
    match obj_get(v, "dt") {
        Option::Some(x) => match x {
            JsonValue::Str(s) => TimeLike::from_wire(s.as_str()),
            _ => None,
        },
        Option::None => match str_field(v, "value") {
            Option::Some(s) => TimeLike::from_wire(s.as_str()),
            Option::None => None,
        },
    }
}

/// A tagged precipitation code: the discriminant under `value`.
pub open spec fn spec_precip_of(m: JsonModel) -> Option<PrecipType> {
    match spec_str_field(m, "value"@) {
        Option::Some(s) => spec_precip_from_wire(s),
        Option::None => None,
    }
}

/// Reads a tagged precipitation code.
pub fn precip_of(v: &JsonValue) -> (r: Option<PrecipType>)
    ensures
        r == spec_precip_of(v@),
{
    match str_field(v, "value") {
        Option::Some(s) => PrecipType::from_wire(s.as_str()),
        Option::None => None,
    }
}

/// A tagged moon phase: the discriminant under `value`.
pub open spec fn spec_moon_of(m: JsonModel) -> Option<MoonPhase> {
    match spec_str_field(m, "value"@) {
        Option::Some(s) => spec_moon_from_wire(s),
        Option::None => None,
    }
}

/// Reads a tagged moon phase.
pub fn moon_of(v: &JsonValue) -> (r: Option<MoonPhase>)
    ensures
        r == spec_moon_of(v@),
{
    match str_field(v, "value") {
        Option::Some(s) => MoonPhase::from_wire(s.as_str()),
        Option::None => None,
    }
}

/// A tagged weather code: the discriminant under `value`.
pub open spec fn spec_weather_of(m: JsonModel) -> Option<WeatherCode> {
    match spec_str_field(m, "value"@) {
        Option::Some(s) => spec_weather_from_wire(s),
        Option::None => None,
    }
}

/// Reads a tagged weather code.
pub fn weather_of(v: &JsonValue) -> (r: Option<WeatherCode>)
    ensures
        r == spec_weather_of(v@),
{
    match str_field(v, "value") {
        Option::Some(s) => WeatherCode::from_wire(s.as_str()),
        Option::None => None,
    }
}


/// One observation of current conditions, immutable once constructed.
/// Coordinates are in millionths of a degree.
#[derive(Clone, Copy, Debug, PartialEq, Eq, Structural)]
pub struct CurrentConditions {
    pub lat: i64,
    pub lon: i64,
    pub observation_time: TimeLike,
    pub temp: TempLike,
    pub feels_like: TempLike,
    pub dewpoint: TempLike,
    pub humidity: PercentLike,
    pub wind_speed: SpeedLike,
    pub wind_direction: CompassLike,
    pub wind_gust: SpeedLike,
    pub baro_pressure: PressureLike,
    pub precipitation_type: PrecipType,
    pub sunrise: TimeLike,
    pub sunset: TimeLike,
    pub cloud_cover: PercentLike,
    pub moon_phase: MoonPhase,
    pub weather_code: WeatherCode,
}

impl CurrentConditions {
    /// Every measurement in range and every timestamp on the calendar.
    pub open spec fn wf(&self) -> bool {
        &&& -MAX_ABS <= self.lat <= MAX_ABS
        &&& -MAX_ABS <= self.lon <= MAX_ABS
        &&& self.observation_time.wf()
        &&& self.temp.wf()
        &&& self.feels_like.wf()
        &&& self.dewpoint.wf()
        &&& self.humidity.wf()
        &&& self.wind_speed.wf()
        &&& self.wind_direction.wf()
        &&& self.wind_gust.wf()
        &&& self.baro_pressure.wf()
        &&& self.sunrise.wf()
        &&& self.sunset.wf()
        &&& self.cloud_cover.wf()
    }
}

/// The record a document tree denotes: every required member present,
/// well typed and recognized; only the dewpoint may be absent, defaulting
/// to the sentinel temperature.
pub open spec fn spec_current_conditions_of(m: JsonModel) -> Option<CurrentConditions> {
    let lat = spec_num_field(m, "lat"@);
    let lon = spec_num_field(m, "lon"@);
    let observation_time = match spec_obj_get(m, "observation_time"@) {
        Option::Some(x) => spec_time_like_of(x),
        Option::None => None,
    };
    let temp = match spec_obj_get(m, "temp"@) {
        Option::Some(x) => spec_temp_like_of(x),
        Option::None => None,
    };
    let feels_like = match spec_obj_get(m, "feels_like"@) {
        Option::Some(x) => spec_temp_like_of(x),
        Option::None => None,
    };
    let dewpoint = match spec_obj_get(m, "dewpoint"@) {
        Option::Some(x) => spec_temp_like_of(x),
        Option::None => Some(TempLike::spec_default()),
    };
    let humidity = match spec_obj_get(m, "humidity"@) {
        Option::Some(x) => spec_percent_like_of(x),
        Option::None => None,
    };
    let wind_speed = match spec_obj_get(m, "wind_speed"@) {
        Option::Some(x) => spec_speed_like_of(x),
        Option::None => None,
    };
    let wind_direction = match spec_obj_get(m, "wind_direction"@) {
        Option::Some(x) => spec_compass_like_of(x),
        Option::None => None,
    };
    let wind_gust = match spec_obj_get(m, "wind_gust"@) {
        Option::Some(x) => spec_speed_like_of(x),
        Option::None => None,
    };
    let baro_pressure = match spec_obj_get(m, "baro_pressure"@) {
        Option::Some(x) => spec_pressure_like_of(x),
        Option::None => None,
    };
    let precipitation_type = match spec_obj_get(m, "precipitation_type"@) {
        Option::Some(x) => spec_precip_of(x),
        Option::None => None,
    };
    let sunrise = match spec_obj_get(m, "sunrise"@) {
        Option::Some(x) => spec_time_like_of(x),
        Option::None => None,
    };
    let sunset = match spec_obj_get(m, "sunset"@) {
        Option::Some(x) => spec_time_like_of(x),
        Option::None => None,
    };
    let cloud_cover = match spec_obj_get(m, "cloud_cover"@) {
        Option::Some(x) => spec_percent_like_of(x),
        Option::None => None,
    };
    let moon_phase = match spec_obj_get(m, "moon_phase"@) {
        Option::Some(x) => spec_moon_of(x),
        Option::None => None,
    };
    let weather_code = match spec_obj_get(m, "weather_code"@) {
        Option::Some(x) => spec_weather_of(x),
        Option::None => None,
    };
    if lat is Some && lon is Some && observation_time is Some && temp is Some && feels_like is Some
        && dewpoint is Some && humidity is Some && wind_speed is Some && wind_direction is Some
        && wind_gust is Some && baro_pressure is Some && precipitation_type is Some
        && sunrise is Some && sunset is Some && cloud_cover is Some && moon_phase is Some
        && weather_code is Some {
        Some(
            CurrentConditions {
                lat: lat->Some_0 as i64,
                lon: lon->Some_0 as i64,
                observation_time: observation_time->Some_0,
                temp: temp->Some_0,
                feels_like: feels_like->Some_0,
                dewpoint: dewpoint->Some_0,
                humidity: humidity->Some_0,
                wind_speed: wind_speed->Some_0,
                wind_direction: wind_direction->Some_0,
                wind_gust: wind_gust->Some_0,
                baro_pressure: baro_pressure->Some_0,
                precipitation_type: precipitation_type->Some_0,
                sunrise: sunrise->Some_0,
                sunset: sunset->Some_0,
                cloud_cover: cloud_cover->Some_0,
                moon_phase: moon_phase->Some_0,
                weather_code: weather_code->Some_0,
            },
        )
    } else {
        None
    }
}

impl CurrentConditions {
    /// Maps a document tree to the record; a schema error exactly where
    /// the tree does not denote one.
    pub fn from_json(v: &JsonValue) -> (r: Result<CurrentConditions, WeatherError>)
        ensures
            match r {
                Result::Ok(cc) => spec_current_conditions_of(v@) == Some(cc) && cc.wf(),
                Result::Err(e) => spec_current_conditions_of(v@) is None && e matches
                    WeatherError::Schema,
            },
    {
        let lat = match num_field(v, "lat") {
            Option::Some(x) => x,
            Option::None => {
                return Err(WeatherError::Schema);
            },
        };
        let lon = match num_field(v, "lon") {
            Option::Some(x) => x,
            Option::None => {
                return Err(WeatherError::Schema);
            },
        };
        let observation_time = match obj_get(v, "observation_time") {
            Option::Some(x) => match time_like_of(x) {
                Option::Some(t) => t,
                Option::None => {
                    return Err(WeatherError::Schema);
                },
            },
            Option::None => {
                return Err(WeatherError::Schema);
            },
        };
        let temp = match obj_get(v, "temp") {
            Option::Some(x) => match temp_like_of(x) {
                Option::Some(t) => t,
                Option::None => {
                    return Err(WeatherError::Schema);
                },
            },
            Option::None => {
                return Err(WeatherError::Schema);
            },
        };
        let feels_like = match obj_get(v, "feels_like") {
            Option::Some(x) => match temp_like_of(x) {
                Option::Some(t) => t,
                Option::None => {
                    return Err(WeatherError::Schema);
                },
            },
            Option::None => {
                return Err(WeatherError::Schema);
            },
        };
        let dewpoint = match obj_get(v, "dewpoint") {
            Option::Some(x) => match temp_like_of(x) {
                Option::Some(t) => t,
                Option::None => {
                    return Err(WeatherError::Schema);
                },
            },
            Option::None => TempLike::default(),
        };
        let humidity = match obj_get(v, "humidity") {
            Option::Some(x) => match percent_like_of(x) {
                Option::Some(t) => t,
                Option::None => {
                    return Err(WeatherError::Schema);
                },
            },
            Option::None => {
                return Err(WeatherError::Schema);
            },
        };
        let wind_speed = match obj_get(v, "wind_speed") {
            Option::Some(x) => match speed_like_of(x) {
                Option::Some(t) => t,
                Option::None => {
                    return Err(WeatherError::Schema);
                },
            },
            Option::None => {
                return Err(WeatherError::Schema);
            },
        };
        let wind_direction = match obj_get(v, "wind_direction") {
            Option::Some(x) => match compass_like_of(x) {
                Option::Some(t) => t,
                Option::None => {
                    return Err(WeatherError::Schema);
                },
            },
            Option::None => {
                return Err(WeatherError::Schema);
            },
        };
        let wind_gust = match obj_get(v, "wind_gust") {
            Option::Some(x) => match speed_like_of(x) {
                Option::Some(t) => t,
                Option::None => {
                    return Err(WeatherError::Schema);
                },
            },
            Option::None => {
                return Err(WeatherError::Schema);
            },
        };
        let baro_pressure = match obj_get(v, "baro_pressure") {
            Option::Some(x) => match pressure_like_of(x) {
                Option::Some(t) => t,
                Option::None => {
                    return Err(WeatherError::Schema);
                },
            },
            Option::None => {
                return Err(WeatherError::Schema);
            },
        };
        let precipitation_type = match obj_get(v, "precipitation_type") {
            Option::Some(x) => match precip_of(x) {
                Option::Some(t) => t,
                Option::None => {
                    return Err(WeatherError::Schema);
                },
            },
            Option::None => {
                return Err(WeatherError::Schema);
            },
        };
        let sunrise = match obj_get(v, "sunrise") {
            Option::Some(x) => match time_like_of(x) {
                Option::Some(t) => t,
                Option::None => {
                    return Err(WeatherError::Schema);
                },
            },
            Option::None => {
                return Err(WeatherError::Schema);
            },
        };
        let sunset = match obj_get(v, "sunset") {
            Option::Some(x) => match time_like_of(x) {
                Option::Some(t) => t,
                Option::None => {
                    return Err(WeatherError::Schema);
                },
            },
            Option::None => {
                return Err(WeatherError::Schema);
            },
        };
        let cloud_cover = match obj_get(v, "cloud_cover") {
            Option::Some(x) => match percent_like_of(x) {
                Option::Some(t) => t,
                Option::None => {
                    return Err(WeatherError::Schema);
                },
            },
            Option::None => {
                return Err(WeatherError::Schema);
            },
        };
        let moon_phase = match obj_get(v, "moon_phase") {
            Option::Some(x) => match moon_of(x) {
                Option::Some(t) => t,
                Option::None => {
                    return Err(WeatherError::Schema);
                },
            },
            Option::None => {
                return Err(WeatherError::Schema);
            },
        };
        let weather_code = match obj_get(v, "weather_code") {
            Option::Some(x) => match weather_of(x) {
                Option::Some(t) => t,
                Option::None => {
                    return Err(WeatherError::Schema);
                },
            },
            Option::None => {
                return Err(WeatherError::Schema);
            },
        };
        Ok(
            CurrentConditions {
                lat,
                lon,
                observation_time,
                temp,
                feels_like,
                dewpoint,
                humidity,
                wind_speed,
                wind_direction,
                wind_gust,
                baro_pressure,
                precipitation_type,
                sunrise,
                sunset,
                cloud_cover,
                moon_phase,
                weather_code,
            },
        )
    }

    /// Deserializes a whole wire document into the record. A schema error
    /// exactly where the text is no well-formed document or the document
    /// does not denote a record.
    pub fn from_wire(s: &str) -> (r: Result<CurrentConditions, WeatherError>)
        ensures
            match r {
                Result::Ok(cc) => (crate::json::spec_parse_document(s@) matches Some(m)
                    && spec_current_conditions_of(m) == Some(cc) && cc.wf()),
                Result::Err(e) => (e matches WeatherError::Schema && (crate::json::spec_parse_document(
                    s@,
                ) matches Some(m) ==> spec_current_conditions_of(m) is None)),
            },
    {
        match crate::json::parse_document(s) {
            Result::Ok(v) => CurrentConditions::from_json(&v),
            Result::Err(e) => Err(e),
        }
    }
}


/// Law: an unrecognized weather-code discriminant fails the whole decode;
/// nothing defaults silently. `spec_weather_of(x)` is `None` exactly for a
/// missing `value` member or a discriminant outside the closed set.
pub proof fn lemma_unknown_weather_code_fails(m: JsonModel, x: JsonModel)
    requires
        spec_obj_get(m, "weather_code"@) == Some(x),
        spec_weather_of(x) is None,
    ensures
        spec_current_conditions_of(m) is None,
{
}

/// Law: an unrecognized precipitation discriminant fails the whole decode.
pub proof fn lemma_unknown_precip_fails(m: JsonModel, x: JsonModel)
    requires
        spec_obj_get(m, "precipitation_type"@) == Some(x),
        spec_precip_of(x) is None,
    ensures
        spec_current_conditions_of(m) is None,
{
}

/// Law: an unrecognized moon-phase discriminant fails the whole decode.
pub proof fn lemma_unknown_moon_fails(m: JsonModel, x: JsonModel)
    requires
        spec_obj_get(m, "moon_phase"@) == Some(x),
        spec_moon_of(x) is None,
    ensures
        spec_current_conditions_of(m) is None,
{
}

/// Law: a document without a dewpoint member still decodes (given the
/// rest), and its dewpoint is the sentinel temperature rather than a
/// failure.
pub proof fn lemma_missing_dewpoint_defaults(m: JsonModel)
    requires
        spec_obj_get(m, "dewpoint"@) is None,
    ensures
        spec_current_conditions_of(m) matches Some(cc) ==> cc.dewpoint
            == TempLike::spec_default(),
{
}

} // verus!
