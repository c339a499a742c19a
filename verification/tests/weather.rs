use chrono::TimeZone;
use hike_club_api::float::FloatBits;
use hike_club_api::time::Instant;
use hike_club_api::weather::{
    build_weather, build_weather_v2, build_weather_v3, first_word_of, forecast_hourly_url, http_failure, is_settled,
    observation_period, observations_due, on_station_readings, order_by_start, parse_active_alerts, parse_periods,
    read_observations, AlertFields, ObservationFields, PeriodFields, PeriodSignals, RawAlert, RawForecast, RawPeriod,
    Reading, StationStep, FORECAST_TTL_SECS, MAX_STATIONS, OBSERVATION_TTL_SECS,
};

fn bits(x: f64) -> FloatBits {
    FloatBits(x.to_bits())
}

fn val(b: FloatBits) -> f64 {
    f64::from_bits(b.0)
}

fn instant(t: chrono::DateTime<chrono::Utc>) -> Instant {
    Instant { secs: t.timestamp(), nanos: t.timestamp_subsec_nanos() }
}

fn parse(s: &str) -> Instant {
    instant(s.parse::<chrono::DateTime<chrono::Utc>>().unwrap())
}

/// UTC instant on the hike's test day.
fn at(hour: u32, min: u32) -> Instant {
    instant(chrono::Utc.with_ymd_and_hms(2026, 7, 18, hour, min, 0).unwrap())
}

/// One-hour period starting at `hour:00` UTC.
fn hour(hour: u32, temp_f: f64, humidity_pct: f64, wind_mph: f64, precip: u8) -> RawPeriod {
    RawPeriod {
        start: at(hour, 0),
        end: at(hour + 1, 0),
        temp_f: bits(temp_f),
        humidity_pct: Some(bits(humidity_pct)),
        wind_mph: Some(bits(wind_mph)),
        precip_prob_pct: precip,
        short_forecast: format!("Hour {hour}"),
    }
}

fn alert(event: &str, onset: Option<Instant>, ends: Option<Instant>) -> RawAlert {
    RawAlert { event: event.to_string(), onset, ends }
}

/// The NWS Rothfusz regression, as the worker computes it.
fn heat_index(t: f64, r: f64) -> f64 {
    let simple = 0.5 * (t + 61.0 + (t - 68.0) * 1.2 + r * 0.094);
    if simple < 80.0 {
        return simple;
    }
    -42.379 + 2.04901523 * t + 10.14333127 * r - 0.22475541 * t * r - 0.00683783 * t * t
        - 0.05481717 * r * r
        + 0.00122874 * t * t * r
        + 0.00085282 * t * r * r
        - 0.00000199 * t * t * r * r
}

/// The NWS wind chill formula, as the worker computes it.
fn wind_chill(t: f64, w: f64) -> f64 {
    let v = w.powf(0.16);
    35.74 + 0.6215 * t - 35.75 * v + 0.4275 * t * v
}

fn reading(x: f64) -> Reading {
    Reading { value: bits(x), whole: format!("{x:.0}") }
}

/// The derived readings of every period.
fn signals(raw: &RawForecast) -> Vec<PeriodSignals> {
    raw.periods
        .iter()
        .map(|p| PeriodSignals {
            heat_index: p.humidity_pct.map(|h| reading(heat_index(val(p.temp_f), val(h)))),
            wind_chill: p.wind_mph.map(|w| reading(wind_chill(val(p.temp_f), val(w)))),
        })
        .collect()
}

const UTC: i32 = 0;

// one 08:00-09:00 period, window covering it
fn one_period(temp_f: f64, humidity_pct: f64, wind_mph: f64, precip: u8) -> RawForecast {
    RawForecast { periods: vec![hour(8, temp_f, humidity_pct, wind_mph, precip)], alerts: vec![] }
}

fn empty() -> RawForecast {
    RawForecast { periods: vec![], alerts: vec![] }
}

#[test]
fn no_periods_means_no_weather() {
    assert!(build_weather(&empty(), at(8, 0), at(9, 0), &vec![]).is_none());
    assert!(build_weather_v2(&empty(), at(8, 0), at(9, 0), UTC, &vec![]).is_none());
}

fn fields(json_like: [Option<&str>; 2], temp: Option<f64>) -> PeriodFields {
    PeriodFields {
        start_time: json_like[0].map(str::to_string),
        end_time: json_like[1].map(str::to_string),
        temperature: temp.map(bits),
        relative_humidity: None,
        wind_mph: None,
        precip_prob: None,
        short_forecast: None,
    }
}

/// What the worker reads from `windSpeed`: the first word, as a number.
fn parse_wind_mph(raw: &str) -> Option<f64> {
    first_word_of(raw)?.parse().ok()
}

#[test]
fn parse_periods_reads_real_nws_shape() {
    let entries = vec![PeriodFields {
        start_time: Some("2026-07-18T08:00:00-04:00".to_string()),
        end_time: Some("2026-07-18T09:00:00-04:00".to_string()),
        temperature: Some(bits(78.0)),
        relative_humidity: Some(bits(55.0)),
        wind_mph: parse_wind_mph("10 mph").map(bits),
        precip_prob: Some(20),
        short_forecast: Some("Partly Cloudy".to_string()),
    }];
    let periods = parse_periods(&entries);
    assert_eq!(periods.len(), 1);
    assert_eq!(val(periods[0].temp_f), 78.0);
    assert_eq!(periods[0].humidity_pct.map(val), Some(55.0));
    assert_eq!(periods[0].wind_mph.map(val), Some(10.0));
    assert_eq!(periods[0].precip_prob_pct, 20);
    assert_eq!(periods[0].short_forecast, "Partly Cloudy");
}

#[test]
fn parse_periods_drops_entries_missing_required_fields() {
    assert!(parse_periods(&vec![fields([None, None], Some(78.0))]).is_empty());
}

#[test]
fn parse_periods_handles_missing_array() {
    assert!(parse_periods(&vec![]).is_empty());
}

#[test]
fn parse_periods_keeps_good_entries_around_bad_ones_and_defaults_the_rest() {
    let entries = vec![
        fields([Some("2026-07-18T08:00:00Z"), Some("2026-07-18T09:00:00Z")], Some(70.0)),
        fields([Some("not a time"), Some("2026-07-18T10:00:00Z")], Some(71.0)),
        fields([Some("2026-07-18T10:00:00Z"), Some("2026-07-18T11:00:00Z")], None),
        PeriodFields {
            precip_prob: Some(300),
            ..fields([Some("2026-07-18T07:00:00-04:00"), Some("2026-07-18T08:00:00-04:00")], Some(72.0))
        },
    ];
    let periods = parse_periods(&entries);
    assert_eq!(periods.len(), 2);
    assert_eq!(val(periods[0].temp_f), 70.0);
    assert_eq!(periods[0].precip_prob_pct, 0);
    assert_eq!(periods[0].short_forecast, "");
    assert_eq!(periods[1].start, parse("2026-07-18T11:00:00Z"));
    assert_eq!(periods[1].precip_prob_pct, 300u64 as u8);
}

#[test]
fn parse_active_alerts_reads_events_and_times() {
    let features = vec![
        AlertFields {
            event: Some("Flash Flood Watch".to_string()),
            onset: Some("2026-07-18T08:00:00-04:00".to_string()),
            effective: None,
            ends: Some("2026-07-18T20:00:00-04:00".to_string()),
            expires: None,
        },
        // falls back to effective/expires when onset/ends absent
        AlertFields {
            event: Some("Heat Advisory".to_string()),
            onset: None,
            effective: Some("2026-07-18T10:00:00-04:00".to_string()),
            ends: None,
            expires: Some("2026-07-18T18:00:00-04:00".to_string()),
        },
    ];
    let parsed = parse_active_alerts(&features);
    assert_eq!(parsed.len(), 2);
    assert_eq!(parsed[0].event, "Flash Flood Watch");
    assert_eq!(parsed[0].onset, Some(parse("2026-07-18T12:00:00Z")));
    assert_eq!(parsed[1].event, "Heat Advisory");
    assert_eq!(parsed[1].onset, Some(parse("2026-07-18T14:00:00Z")));
    assert_eq!(parsed[1].ends, Some(parse("2026-07-18T22:00:00Z")));
}

#[test]
fn parse_active_alerts_handles_missing_array_and_times() {
    assert!(parse_active_alerts(&vec![]).is_empty());
    let no_times = vec![AlertFields {
        event: Some("X".to_string()),
        onset: None,
        effective: None,
        ends: None,
        expires: None,
    }];
    let parsed = parse_active_alerts(&no_times);
    assert_eq!(parsed[0].onset, None);
    assert_eq!(parsed[0].ends, None);
}

#[test]
fn an_alert_without_an_event_is_dropped_and_a_bad_primary_bound_does_not_fall_back() {
    let features = vec![
        AlertFields { event: None, onset: None, effective: None, ends: None, expires: None },
        AlertFields {
            event: Some("Wind Advisory".to_string()),
            onset: Some("garbage".to_string()),
            effective: Some("2026-07-18T10:00:00Z".to_string()),
            ends: None,
            expires: None,
        },
    ];
    let parsed = parse_active_alerts(&features);
    assert_eq!(parsed.len(), 1);
    assert_eq!(parsed[0].event, "Wind Advisory");
    assert_eq!(parsed[0].onset, None);
}

#[test]
fn parse_wind_mph_handles_range_format() {
    assert_eq!(parse_wind_mph("10 to 20 mph"), Some(10.0));
    assert_eq!(parse_wind_mph("10 mph"), Some(10.0));
    assert_eq!(parse_wind_mph(""), None);
}

#[test]
fn first_word_skips_leading_whitespace_of_any_kind() {
    assert_eq!(first_word_of("  \t5 mph").as_deref(), Some("5"));
    assert_eq!(first_word_of("\u{3000}12\u{a0}km").as_deref(), Some("12"));
    assert_eq!(first_word_of(" \n "), None);
    assert_eq!(first_word_of("calm").as_deref(), Some("calm"));
}

#[test]
fn build_weather_ignores_periods_outside_the_window() {
    // 08:00 period is in-window; a hot 20:00 period must not leak into metrics.
    let raw = RawForecast {
        periods: vec![hour(8, 70.0, 40.0, 5.0, 0), hour(20, 99.0, 90.0, 5.0, 80)],
        alerts: vec![],
    };
    let w = build_weather(&raw, at(8, 0), at(9, 0), &signals(&raw)).unwrap();
    assert_eq!(val(w.temperature_f), 70.0);
    assert_eq!(w.precipitation.probability_pct, 0);
    assert!(w.alerts.is_empty());
}

#[test]
fn mild_conditions_produce_no_alerts() {
    let raw = one_period(70.0, 40.0, 5.0, 0);
    let w = build_weather(&raw, at(8, 0), at(9, 0), &signals(&raw)).unwrap();
    assert!(w.alerts.is_empty());
    assert!(w.heat_index_f.is_none());
    assert!(w.wind_chill_f.is_none());
}

#[test]
fn hot_humid_triggers_heat_index_alert() {
    let raw = one_period(95.0, 70.0, 5.0, 0);
    let w = build_weather(&raw, at(8, 0), at(9, 0), &signals(&raw)).unwrap();
    assert!(val(w.heat_index_f.unwrap()) > 85.0);
    assert!(w.alerts.iter().any(|a| a.kind == "heat_index"));
}

#[test]
fn cold_windy_triggers_wind_chill_alert() {
    let raw = one_period(20.0, 40.0, 15.0, 0);
    let w = build_weather(&raw, at(8, 0), at(9, 0), &signals(&raw)).unwrap();
    assert!(val(w.wind_chill_f.unwrap()) < 32.0);
    assert!(w.alerts.iter().any(|a| a.kind == "wind_chill"));
}

#[test]
fn any_precip_probability_triggers_precip_alert() {
    let raw = one_period(70.0, 40.0, 5.0, 20);
    let w = build_weather(&raw, at(8, 0), at(9, 0), &signals(&raw)).unwrap();
    assert!(w.alerts.iter().any(|a| a.kind == "precip"));
}

#[test]
fn v1_passes_through_all_active_nws_alerts_regardless_of_time() {
    let raw = RawForecast {
        periods: vec![hour(8, 70.0, 40.0, 5.0, 0)],
        // ends long before the hike — v1 still passes it through (frozen behavior)
        alerts: vec![alert("Flash Flood Watch", Some(at(0, 0)), Some(at(2, 0)))],
    };
    let w = build_weather(&raw, at(8, 0), at(9, 0), &signals(&raw)).unwrap();
    assert!(w.alerts.iter().any(|a| a.kind == "nws_alert" && a.message == "Flash Flood Watch"));
}

#[test]
fn v2_reports_start_and_end_temps() {
    let raw = RawForecast {
        periods: vec![hour(8, 70.0, 40.0, 5.0, 0), hour(9, 75.0, 40.0, 5.0, 0), hour(10, 80.0, 40.0, 5.0, 0)],
        alerts: vec![],
    };
    let w = build_weather_v2(&raw, at(8, 0), at(11, 0), UTC, &signals(&raw)).unwrap();
    assert_eq!(val(w.start_temp_f), 70.0);
    assert_eq!(val(w.end_temp_f), 80.0);
    assert_eq!(w.conditions, "Hour 8");
}

#[test]
fn v2_precip_timing_detects_rain_before_the_hike() {
    // Rain 06:00-08:00 (>=50%), hike 08:00-11:00 dry. Timing spans the pre-hike
    // rain; probabilityPct (during the window) stays 0.
    let raw = RawForecast {
        periods: vec![
            hour(6, 65.0, 80.0, 5.0, 70),
            hour(7, 66.0, 80.0, 5.0, 60),
            hour(8, 70.0, 40.0, 5.0, 0),
            hour(9, 72.0, 40.0, 5.0, 0),
            hour(10, 74.0, 40.0, 5.0, 0),
        ],
        alerts: vec![],
    };
    let w = build_weather_v2(&raw, at(8, 0), at(11, 0), UTC, &signals(&raw)).unwrap();
    assert!(w.precipitation.expected);
    assert_eq!(w.precipitation.probability_pct, 0);
    assert_eq!(w.precipitation.starts_at.as_deref(), Some("2026-07-18T06:00:00+00:00"));
    assert_eq!(w.precipitation.ends_at.as_deref(), Some("2026-07-18T08:00:00+00:00"));
}

#[test]
fn v2_precip_timing_empty_when_no_likely_hours() {
    let raw = RawForecast { periods: vec![hour(8, 70.0, 40.0, 5.0, 30)], alerts: vec![] };
    let w = build_weather_v2(&raw, at(8, 0), at(9, 0), UTC, &signals(&raw)).unwrap();
    assert!(!w.precipitation.expected);
    assert!(w.precipitation.starts_at.is_none());
    assert!(w.precipitation.ends_at.is_none());
}

#[test]
fn v2_precip_timing_respects_local_calendar_day() {
    // Offset -04:00: hike starts 2026-07-18T12:00Z == 08:00 local (day 07-18).
    let offset = -4 * 3600;
    let rain = |start: &str, end: &str, temp: f64| RawPeriod {
        start: parse(start),
        end: parse(end),
        temp_f: bits(temp),
        humidity_pct: Some(bits(80.0)),
        wind_mph: Some(bits(5.0)),
        precip_prob_pct: 90,
        short_forecast: "Rain".to_string(),
    };
    let raw = RawForecast {
        periods: vec![
            // 2026-07-18T02:00Z == 2026-07-17T22:00 local — previous day, excluded
            rain("2026-07-18T02:00:00Z", "2026-07-18T03:00:00Z", 60.0),
            // 2026-07-18T13:00Z == 09:00 local — same day, included
            rain("2026-07-18T13:00:00Z", "2026-07-18T14:00:00Z", 70.0),
        ],
        alerts: vec![],
    };
    let start = parse("2026-07-18T12:00:00Z");
    let end = parse("2026-07-18T16:00:00Z");
    let w = build_weather_v2(&raw, start, end, offset, &signals(&raw)).unwrap();
    assert_eq!(w.precipitation.starts_at.as_deref(), Some("2026-07-18T09:00:00-04:00"));
    assert_eq!(w.precipitation.ends_at.as_deref(), Some("2026-07-18T10:00:00-04:00"));
}

#[test]
fn v2_filters_alerts_to_the_hike_window() {
    let raw = RawForecast {
        periods: vec![hour(8, 70.0, 40.0, 5.0, 0)],
        alerts: vec![
            alert("Overlaps", Some(at(8, 30)), Some(at(10, 0))),
            alert("Before hike", Some(at(0, 0)), Some(at(2, 0))),
            alert("Open ended", None, None),
        ],
    };
    let w = build_weather_v2(&raw, at(8, 0), at(9, 0), UTC, &signals(&raw)).unwrap();
    let events: Vec<&str> =
        w.alerts.iter().filter(|a| a.kind == "nws_alert").map(|a| a.message.as_str()).collect();
    assert!(events.contains(&"Overlaps"));
    assert!(events.contains(&"Open ended"));
    assert!(!events.contains(&"Before hike"));
}

#[test]
fn alerts_come_in_order_precip_nws_heat_chill_with_exact_messages() {
    let mut hot = hour(8, 95.0, 70.0, 5.0, 40);
    hot.short_forecast = "Hot".to_string();
    let cold = hour(9, 20.0, 40.0, 15.0, 0);
    let raw = RawForecast { periods: vec![hot, cold], alerts: vec![alert("Heat Advisory", None, None)] };
    let sig = signals(&raw);
    let w = build_weather_v2(&raw, at(8, 0), at(10, 0), UTC, &sig).unwrap();
    let kinds: Vec<&str> = w.alerts.iter().map(|a| a.kind.as_str()).collect();
    assert_eq!(kinds, vec!["precip", "nws_alert", "heat_index", "wind_chill"]);
    assert_eq!(w.alerts[0].message, "Precipitation predicted during the hike window (40% chance)");
    let hi = sig[0].heat_index.as_ref().unwrap().whole.clone();
    assert_eq!(w.alerts[2].message, format!("Heat index of {hi}\u{b0}F exceeds 85\u{b0}F"));
    let wc = sig[1].wind_chill.as_ref().unwrap().whole.clone();
    assert_eq!(w.alerts[3].message, format!("Wind chill of {wc}\u{b0}F is below 32\u{b0}F"));
}

#[test]
fn heat_index_needs_eighty_degrees_and_wind_chill_needs_more_than_three_mph() {
    // 79°F and humid: no heat index; 40°F with a 3 mph wind: no wind chill.
    let raw = RawForecast {
        periods: vec![hour(8, 79.0, 99.0, 3.0, 0), hour(9, 40.0, 50.0, 3.0, 0)],
        alerts: vec![],
    };
    let w = build_weather(&raw, at(8, 0), at(10, 0), &signals(&raw)).unwrap();
    assert!(w.heat_index_f.is_none());
    assert!(w.wind_chill_f.is_none());
    assert_eq!(val(w.precipitation.amount_in), 0.0);
}

#[test]
fn the_reported_extremes_are_the_window_extremes() {
    let raw = RawForecast {
        periods: vec![
            hour(8, 85.0, 50.0, 5.0, 0),
            hour(9, 95.0, 70.0, 5.0, 0),
            hour(10, 90.0, 60.0, 5.0, 0),
            hour(11, 100.0, 90.0, 5.0, 0),
        ],
        alerts: vec![],
    };
    let w = build_weather(&raw, at(8, 0), at(11, 0), &signals(&raw)).unwrap();
    assert_eq!(val(w.heat_index_f.unwrap()), heat_index(95.0, 70.0));
}

#[test]
fn a_period_touching_the_window_edge_is_outside_it() {
    // 07:00-08:00 ends exactly when the hike starts; 09:00-10:00 starts exactly when it ends.
    let raw = RawForecast {
        periods: vec![hour(7, 60.0, 40.0, 5.0, 90), hour(8, 70.0, 40.0, 5.0, 10), hour(9, 80.0, 40.0, 5.0, 90)],
        alerts: vec![],
    };
    let w = build_weather_v2(&raw, at(8, 0), at(9, 0), UTC, &signals(&raw)).unwrap();
    assert_eq!(val(w.start_temp_f), 70.0);
    assert_eq!(val(w.end_temp_f), 70.0);
    assert_eq!(w.precipitation.probability_pct, 10);
}

/// What an NWS `/points` response names as its hourly forecast, when it names one.
fn hourly_field(points: &serde_json::Value) -> Option<&str> {
    points["properties"]["forecastHourly"].as_str()
}

#[test]
fn forecast_hourly_url_extracts_from_points_response() {
    let points: serde_json::Value = serde_json::from_str(
        r#"{"properties": {"forecastHourly": "https://api.weather.gov/gridpoints/LWX/1,1/forecast/hourly"}}"#,
    )
    .unwrap();
    assert_eq!(
        forecast_hourly_url(hourly_field(&points)).unwrap(),
        "https://api.weather.gov/gridpoints/LWX/1,1/forecast/hourly"
    );
}

#[test]
fn forecast_hourly_url_errors_when_missing() {
    let points: serde_json::Value = serde_json::from_str("{}").unwrap();
    assert!(forecast_hourly_url(hourly_field(&points)).is_err());
    assert_eq!(
        forecast_hourly_url(None).unwrap_err(),
        "NWS points response missing forecastHourly"
    );
}

#[test]
fn an_error_status_fails_the_request_with_the_url_and_code() {
    assert_eq!(http_failure("https://api.weather.gov/points/1,2", 200), None);
    assert_eq!(http_failure("https://api.weather.gov/points/1,2", 399), None);
    assert_eq!(
        http_failure("https://api.weather.gov/points/1,2", 400).unwrap(),
        "https://api.weather.gov/points/1,2 returned HTTP 400"
    );
    assert_eq!(http_failure("u", 503).unwrap(), "u returned HTTP 503");
}

#[test]
fn an_empty_forecast_is_settled_only_when_empty_results_are_kept() {
    assert!(is_settled(&one_period(60.0, 40.0, 5.0, 0), false));
    assert!(is_settled(&one_period(60.0, 40.0, 5.0, 0), true));
    assert!(!is_settled(&empty(), false));
    assert!(is_settled(&empty(), true));
    assert_eq!(FORECAST_TTL_SECS, 600);
}

fn observation(timestamp: &str, temp_f: f64, rained: bool) -> ObservationFields {
    ObservationFields {
        timestamp: Some(timestamp.to_string()),
        temp_f: Some(bits(temp_f)),
        humidity_pct: Some(bits(40.0)),
        wind_mph: None,
        rained,
        description: Some("Clear".to_string()),
    }
}

#[test]
fn only_a_finished_hike_is_served_from_observations() {
    assert!(observations_due(at(12, 0), at(12, 1)));
    assert!(!observations_due(at(12, 0), at(12, 0)));
    assert!(!observations_due(at(12, 0), at(11, 0)));
}

#[test]
fn the_station_walk_stops_at_the_first_station_with_readings() {
    assert!(matches!(on_station_readings(0, 5, vec![]), StationStep::Fetch(0)));
    assert!(matches!(on_station_readings(1, 5, vec![]), StationStep::Fetch(1)));
    let readings = vec![hour(8, 70.0, 40.0, 5.0, 0)];
    let StationStep::Done(raw) = on_station_readings(2, 5, readings) else {
        panic!("expected the walk to stop");
    };
    assert_eq!(raw.periods.len(), 1);
    assert!(raw.alerts.is_empty());
}

#[test]
fn the_station_walk_tries_at_most_three_stations() {
    assert!(matches!(on_station_readings(2, 5, vec![]), StationStep::Fetch(2)));
    let StationStep::Done(raw) = on_station_readings(3, 5, vec![]) else {
        panic!("expected the walk to end after three stations");
    };
    assert!(raw.periods.is_empty() && raw.alerts.is_empty());
    assert_eq!(MAX_STATIONS, 3);
    assert_eq!(OBSERVATION_TTL_SECS, 86_400);
}

#[test]
fn the_station_walk_ends_with_the_list() {
    let StationStep::Done(raw) = on_station_readings(0, 0, vec![]) else {
        panic!("no station, no walk");
    };
    assert!(raw.periods.is_empty());
    assert!(matches!(on_station_readings(1, 1, vec![]), StationStep::Done(_)));
}

#[test]
fn an_observation_covers_the_hour_from_its_timestamp() {
    let p = observation_period(&observation("2026-07-18T12:00:00+00:00", 70.0, true)).unwrap();
    assert_eq!(p.start, at(12, 0));
    assert_eq!(p.end, at(13, 0));
    assert_eq!(p.precip_prob_pct, 100);
    assert_eq!(p.short_forecast, "Clear");
    let dry = observation_period(&observation("2026-07-18T12:00:00+00:00", 70.0, false)).unwrap();
    assert_eq!(dry.precip_prob_pct, 0);
}

#[test]
fn observations_without_a_timestamp_or_temperature_are_dropped_and_sorted() {
    let mut no_temp = observation("2026-07-18T10:00:00+00:00", 0.0, false);
    no_temp.temp_f = None;
    let entries = vec![
        observation("2026-07-18T13:00:00+00:00", 75.0, false),
        observation("not a time", 70.0, false),
        no_temp,
        observation("2026-07-18T11:00:00+00:00", 65.0, false),
    ];
    let read = read_observations(&entries);
    assert_eq!(read.len(), 2);
    let ordered = order_by_start(read);
    assert_eq!(ordered[0].start, at(11, 0));
    assert_eq!(ordered[1].start, at(13, 0));
    assert_eq!(val(ordered[0].temp_f), 65.0);
}

#[test]
fn build_weather_v3_reports_conditions_at_both_ends() {
    let mut first = hour(8, 70.0, 40.0, 5.0, 10);
    first.short_forecast = "Sunny".to_string();
    let mut last = hour(9, 75.0, 40.0, 5.0, 10);
    last.short_forecast = "Thunderstorms".to_string();
    let raw = RawForecast { periods: vec![first, last], alerts: vec![] };
    let w = build_weather_v3(&raw, at(8, 0), at(10, 0), UTC, &signals(&raw)).unwrap();
    assert_eq!(w.start_conditions, "Sunny");
    assert_eq!(w.end_conditions, "Thunderstorms");
    assert_eq!(val(w.start_temp_f), 70.0);
    assert_eq!(val(w.end_temp_f), 75.0);
    assert!(build_weather_v3(&raw, at(12, 0), at(13, 0), UTC, &signals(&raw)).is_none());
}

/// NWS writes wind as prose; a first word of "NaN" reads as a NaN speed,
/// which is not above 3 mph, so the period yields no wind chill.
#[test]
fn a_nan_wind_speed_is_not_windy() {
    let raw = one_period(40.0, 50.0, f64::NAN, 0);
    let w = build_weather_v2(&raw, at(8, 0), at(9, 0), UTC, &signals(&raw)).unwrap();
    assert_eq!(w.wind_chill_f, None);
    assert!(w.alerts.iter().all(|a| a.kind != "wind_chill"));
    let v1 = build_weather(&raw, at(8, 0), at(9, 0), &signals(&raw)).unwrap();
    assert_eq!(v1.wind_chill_f, None);
}

/// The extremes fold as `f64::max` and `f64::min` do: a NaN reading gives way
/// to a later number and never displaces an earlier one.
#[test]
fn a_nan_reading_never_wins_the_extreme() {
    let raw = RawForecast {
        periods: vec![hour(8, 90.0, 60.0, 10.0, 0), hour(9, 91.0, 60.0, 10.0, 0), hour(10, 92.0, 60.0, 10.0, 0)],
        alerts: vec![],
    };
    let mut sig = signals(&raw);
    sig[0].heat_index = Some(reading(f64::NAN));
    sig[2].heat_index = Some(reading(f64::NAN));
    let w = build_weather_v2(&raw, at(8, 0), at(11, 0), UTC, &sig).unwrap();
    let expected = [f64::NAN, heat_index(91.0, 60.0), f64::NAN].into_iter().fold(None, |acc: Option<f64>, hi| {
        Some(acc.map_or(hi, |a| a.max(hi)))
    });
    assert_eq!(val(w.heat_index_f.unwrap()), expected.unwrap());
}

#[test]
fn observation_query_times_end_in_z() {
    assert_eq!(hike_club_api::weather::nws_query_time(at(12, 5)), "2026-07-18T12:05:00Z");
}
