use climacell::codes::{MoonPhase, PrecipType, WeatherCode};
use climacell::conditions::CurrentConditions;
use climacell::errors::WeatherError;
use climacell::forecast::{ForecastDay, ForecastTemp};
use climacell::json::{parse_document, JsonValue};
use climacell::measurements::{CompassLike, PercentLike, PressureLike, SpeedLike, TempLike};
use climacell::time::TimeLike;
use climacell::units::Unit;

fn realtime_fixture() -> &'static str {
    r#"{
        "lat": 38.860409,
        "lon": -77.32479,
        "temp": {"value": 85.55, "units": "F"},
        "feels_like": {"value": 91.51, "units": "F"},
        "dewpoint": {"value": 71.83, "units": "F"},
        "humidity": {"value": 63.69},
        "wind_speed": {"value": 6.15, "units": "mph"},
        "wind_direction": {"value": 219.25},
        "wind_gust": {"value": 13.0, "units": "mph"},
        "baro_pressure": {"value": 29.8234, "units": "inHg"},
        "precipitation_type": {"value": "none"},
        "sunrise": {"value": "2020-07-28T10:07:34.007Z"},
        "sunset": {"value": "2020-07-29T00:23:59.494Z"},
        "observation_time": {"value": "2020-07-28T02:00:03.981Z"},
        "cloud_cover": {"value": 0},
        "moon_phase": {"value": "first_quarter"},
        "weather_code": {"value": "clear"}
    }"#
}

#[test]
fn test_deserialize_realtime() {
    let rt = CurrentConditions::from_wire(realtime_fixture()).unwrap();
    let other = CurrentConditions {
        lat: 38_860_409,
        lon: -77_324_790,
        temp: TempLike {
            value: 85_550_000,
            units: Unit::F,
        },
        feels_like: TempLike {
            value: 91_510_000,
            units: Unit::F,
        },
        dewpoint: TempLike {
            value: 71_830_000,
            units: Unit::F,
        },
        observation_time: TimeLike {
            year: 2020,
            month: 7,
            day: 28,
            hour: 2,
            minute: 0,
            second: 3,
            milli: 981,
        },
        baro_pressure: PressureLike {
            value: 29_823_400,
            units: Unit::INHG,
        },
        cloud_cover: PercentLike { value: 0 },
        humidity: PercentLike { value: 63_690_000 },
        moon_phase: MoonPhase::FirstQuarter,
        precipitation_type: PrecipType::NoPrecip,
        weather_code: WeatherCode::Clear,
        wind_direction: CompassLike {
            degrees: 219_250_000,
        },
        wind_gust: SpeedLike {
            value: 13_000_000,
            units: Unit::MPH,
        },
        wind_speed: SpeedLike {
            value: 6_150_000,
            units: Unit::MPH,
        },
        sunrise: TimeLike {
            year: 2020,
            month: 7,
            day: 28,
            hour: 10,
            minute: 7,
            second: 34,
            milli: 7,
        },
        sunset: TimeLike {
            year: 2020,
            month: 7,
            day: 29,
            hour: 0,
            minute: 23,
            second: 59,
            milli: 494,
        },
    };
    assert_eq!(rt, other);
}

#[test]
fn unrecognized_weather_code_is_schema_error() {
    let doc = realtime_fixture().replace("\"clear\"", "\"sharknado\"");
    let r = CurrentConditions::from_wire(&doc);
    assert!(matches!(r, Err(WeatherError::Schema)));
}

#[test]
fn pascal_case_discriminant_is_rejected() {
    assert!(WeatherCode::from_wire("Clear").is_none());
    assert!(PrecipType::from_wire("IcePellets").is_none());
    assert!(MoonPhase::from_wire("FirstQuarter").is_none());
    let doc = realtime_fixture().replace("\"first_quarter\"", "\"FirstQuarter\"");
    assert!(matches!(
        CurrentConditions::from_wire(&doc),
        Err(WeatherError::Schema)
    ));
}

#[test]
fn missing_required_field_is_schema_error() {
    let doc = realtime_fixture().replace("\"humidity\"", "\"relative_humidity\"");
    assert!(matches!(
        CurrentConditions::from_wire(&doc),
        Err(WeatherError::Schema)
    ));
}

#[test]
fn missing_dewpoint_defaults_to_sentinel() {
    let doc = realtime_fixture().replace(
        "\"dewpoint\": {\"value\": 71.83, \"units\": \"F\"},",
        "",
    );
    let rt = CurrentConditions::from_wire(&doc).unwrap();
    assert_eq!(
        rt.dewpoint,
        TempLike {
            value: -1_000_000,
            units: Unit::F
        }
    );
}

#[test]
fn unknown_unit_string_is_schema_error() {
    let doc = realtime_fixture().replace("\"inHg\"", "\"furlongs\"");
    assert!(matches!(
        CurrentConditions::from_wire(&doc),
        Err(WeatherError::Schema)
    ));
}

#[test]
fn wrong_unit_kind_for_temperature_is_schema_error() {
    let doc = realtime_fixture().replace(
        "\"temp\": {\"value\": 85.55, \"units\": \"F\"}",
        "\"temp\": {\"value\": 85.55, \"units\": \"mph\"}",
    );
    assert!(matches!(
        CurrentConditions::from_wire(&doc),
        Err(WeatherError::Schema)
    ));
}

fn forecast_day_fixture() -> &'static str {
    r#"{
        "temp": {
            "observation_time": {"value": "2020-07-28T00:00:00Z"},
            "min": {"value": 71.2, "units": "F"},
            "max": {"value": 93.4, "units": "F"}
        },
        "feels_like": {
            "observation_time": {"value": "2020-07-28T00:00:00Z"},
            "min": {"value": 71.2, "units": "F"},
            "max": {"value": 99.1, "units": "F"}
        },
        "humidity": {
            "observation_time": {"value": "2020-07-28T00:00:00Z"},
            "min": {"value": 40.0},
            "max": {"value": 95.5}
        },
        "baro_pressure": {
            "observation_time": {"value": "2020-07-28T00:00:00Z"},
            "min": {"value": 29.7, "units": "inHg"},
            "max": {"value": 30.1, "units": "inHg"}
        },
        "wind_speed": {
            "observation_time": {"value": "2020-07-28T00:00:00Z"},
            "min": {"value": 1.5, "units": "mph"},
            "max": {"value": 12.25, "units": "mph"}
        },
        "wind_direction": {
            "observation_time": {"value": "2020-07-28T00:00:00Z"},
            "min": {"value": 180.0},
            "max": {"value": 250.5}
        },
        "weather_code": {"value": "mostly_clear"},
        "observation_time": {"value": "2020-07-28T00:00:00Z"},
        "lat": 38.860409,
        "lon": -77.32479
    }"#
}

#[test]
fn forecast_day_without_dewpoint_gets_sentinel() {
    let doc = parse_document(forecast_day_fixture()).unwrap();
    let day = ForecastDay::from_json(&doc).unwrap();
    assert_eq!(day.dewpoint, ForecastTemp::default());
    assert_eq!(day.dewpoint.min.value, -1_000_000);
    assert_eq!(day.dewpoint.min.units, Unit::F);
    assert_eq!(day.weather_code, WeatherCode::MostlyClear);
    assert_eq!(day.temp.max.value, 93_400_000);
    assert_eq!(day.humidity.min.value, 40_000_000);
    assert_eq!(day.lat, 38_860_409);
}

#[test]
fn forecast_day_present_dewpoint_is_still_sentinel() {
    let doc = forecast_day_fixture().replace(
        "\"weather_code\": {\"value\": \"mostly_clear\"},",
        r#""weather_code": {"value": "mostly_clear"},
        "dewpoint": {
            "observation_time": {"value": "2020-07-28T00:00:00Z"},
            "min": {"value": 60.0, "units": "F"},
            "max": {"value": 70.0, "units": "F"}
        },"#,
    );
    let tree = parse_document(&doc).unwrap();
    let day = ForecastDay::from_json(&tree).unwrap();
    assert_eq!(day.dewpoint, ForecastTemp::default());
}

#[test]
fn number_reading_is_exact_fixed_point() {
    match parse_document("-77.32479").unwrap() {
        JsonValue::Num(n) => assert_eq!(n, -77_324_790),
        _ => panic!("expected a number"),
    }
    match parse_document("85.55").unwrap() {
        JsonValue::Num(n) => assert_eq!(n, 85_550_000),
        _ => panic!("expected a number"),
    }
    match parse_document("1.2345678").unwrap() {
        JsonValue::Num(n) => assert_eq!(n, 1_234_567),
        _ => panic!("expected a number"),
    }
    match parse_document("0").unwrap() {
        JsonValue::Num(n) => assert_eq!(n, 0),
        _ => panic!("expected a number"),
    }
}

#[test]
fn malformed_numbers_are_schema_errors() {
    assert!(matches!(
        parse_document("01"),
        Err(WeatherError::Schema)
    ));
    assert!(matches!(
        parse_document("1e5"),
        Err(WeatherError::Schema)
    ));
    assert!(matches!(
        parse_document("1."),
        Err(WeatherError::Schema)
    ));
    assert!(matches!(
        parse_document("9999999999999"),
        Err(WeatherError::Schema)
    ));
}

#[test]
fn timestamp_reading_validates_the_calendar() {
    let t = TimeLike::from_wire("2020-07-28T02:00:03.981Z").unwrap();
    assert_eq!(
        t,
        TimeLike {
            year: 2020,
            month: 7,
            day: 28,
            hour: 2,
            minute: 0,
            second: 3,
            milli: 981
        }
    );
    assert!(TimeLike::from_wire("2020-02-29T00:00:00Z").is_some());
    assert!(TimeLike::from_wire("2019-02-29T00:00:00Z").is_none());
    assert!(TimeLike::from_wire("2020-02-30T00:00:00Z").is_none());
    assert!(TimeLike::from_wire("2020-07-28T24:00:00Z").is_none());
    assert!(TimeLike::from_wire("2020-07-28T02:00:03.981+00:00").is_none());
    assert!(TimeLike::from_wire("2020-07-28 02:00:03Z").is_none());
}

#[test]
fn unit_aliases_are_accepted_case_sensitively() {
    assert_eq!(Unit::from_wire("mph"), Some(Unit::MPH));
    assert_eq!(Unit::from_wire("MPH"), Some(Unit::MPH));
    assert_eq!(Unit::from_wire("m/s"), Some(Unit::MS));
    assert_eq!(Unit::from_wire("MS"), Some(Unit::MS));
    assert_eq!(Unit::from_wire("hPa"), Some(Unit::HPA));
    assert_eq!(Unit::from_wire("inHg"), Some(Unit::INHG));
    assert_eq!(Unit::from_wire("Mph"), None);
    assert_eq!(Unit::from_wire("f"), None);
}

#[test]
fn error_kinds_are_distinguishable() {
    assert_eq!(
        WeatherError::Schema.message(),
        "document does not match the wire schema"
    );
    assert_eq!(WeatherError::Transport.message(), "network fetch failed");
    assert_eq!(
        WeatherError::Io.message(),
        "file or process operation failed"
    );
    assert_eq!(
        WeatherError::MissingConfig.message(),
        "API key is not configured"
    );
    assert_eq!(WeatherError::Unimplemented.message(), "not implemented");
}

#[test]
fn forecast_load_maps_day_ids_to_entries() {
    let doc = format!(
        "{{\"days\": {{\"2020-07-28\": {day}, \"2020-07-29\": {day}}}}}",
        day = forecast_day_fixture()
    );
    let load = climacell::forecast::ForecastLoad::from_wire(&doc).unwrap();
    assert_eq!(load.days.len(), 2);
    assert_eq!(load.days[0].0, "2020-07-28");
    assert_eq!(load.days[1].0, "2020-07-29");
    assert_eq!(load.days[0].1.weather_code, WeatherCode::MostlyClear);
    assert_eq!(load.days[0].1.dewpoint, ForecastTemp::default());
}

#[test]
fn forecast_load_rejects_a_bad_day() {
    let doc = "{\"days\": {\"2020-07-28\": {\"lat\": 1.0}}}";
    assert!(matches!(
        climacell::forecast::ForecastLoad::from_wire(doc),
        Err(WeatherError::Schema)
    ));
}

#[test]
fn forecast_item_reads_flat_observation_groups() {
    let doc = parse_document(
        r#"{"obs": [
            {"temp": {"value": 85.5, "units": "F"}, "humidity": {"value": 60.25, "units": "mph"}},
            {"baro_pressure": {"value": 29.7, "units": "inHg"}}
        ]}"#,
    )
    .unwrap();
    let item = climacell::forecast::ForecastItem::from_json(&doc).unwrap();
    assert_eq!(item.obs.len(), 2);
    assert_eq!(item.obs[0].len(), 2);
    assert_eq!(item.obs[0][0].0, "temp");
    assert_eq!(
        item.obs[0][0].1,
        climacell::forecast::VUTuple {
            value: 85_500_000,
            units: Unit::F
        }
    );
    assert_eq!(item.obs[1][0].0, "baro_pressure");
    let bad = parse_document(r#"{"obs": [{"temp": {"value": 85.5}}]}"#).unwrap();
    assert!(matches!(
        climacell::forecast::ForecastItem::from_json(&bad),
        Err(WeatherError::Schema)
    ));
}

#[test]
fn empty_and_truncated_documents_are_schema_errors() {
    assert!(matches!(parse_document(""), Err(WeatherError::Schema)));
    assert!(matches!(parse_document("   "), Err(WeatherError::Schema)));
    assert!(matches!(parse_document("{"), Err(WeatherError::Schema)));
    assert!(matches!(
        parse_document("{\"a\": 1,}"),
        Err(WeatherError::Schema)
    ));
    assert!(matches!(
        parse_document("{} {}"),
        Err(WeatherError::Schema)
    ));
    assert!(matches!(
        CurrentConditions::from_wire("{}"),
        Err(WeatherError::Schema)
    ));
}

#[test]
fn string_escapes_and_control_characters_are_rejected() {
    assert!(matches!(
        parse_document(r#""a\nb""#),
        Err(WeatherError::Schema)
    ));
    assert!(matches!(
        parse_document("\"a\nb\""),
        Err(WeatherError::Schema)
    ));
    match parse_document("\"plain text\"").unwrap() {
        JsonValue::Str(s) => assert_eq!(s, "plain text"),
        _ => panic!("expected a string"),
    }
}

#[test]
fn literals_and_arrays_parse() {
    assert!(matches!(parse_document("true").unwrap(), JsonValue::Bool(true)));
    assert!(matches!(parse_document("false").unwrap(), JsonValue::Bool(false)));
    assert!(matches!(parse_document("null").unwrap(), JsonValue::Null));
    match parse_document(" [1, 2.5, []] ").unwrap() {
        JsonValue::Arr(es) => {
            assert_eq!(es.len(), 3);
            assert!(matches!(es[0], JsonValue::Num(1_000_000)));
            assert!(matches!(es[1], JsonValue::Num(2_500_000)));
            assert!(matches!(&es[2], JsonValue::Arr(inner) if inner.is_empty()));
        },
        _ => panic!("expected an array"),
    }
}

#[test]
fn duplicate_members_take_the_first_occurrence() {
    let doc = parse_document("{\"value\": 1, \"value\": 2}").unwrap();
    assert_eq!(climacell::conditions::num_field(&doc, "value"), Some(1_000_000));
}
