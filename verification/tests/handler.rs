use hike_club_api::float::FloatBits;
use hike_club_api::handler::{
    build_locations_response, locations_body, on_forecast, on_forecast_v3, on_presigned, on_presigned_v3, on_record,
    parse_window, HikeStep, QueryWindow, ServePlan, StepV3,
};
use hike_club_api::models::{google_maps_url, HikeLocation, HikeRecord, HikeResponseV2, HikeResponseV3, MeetingCoords};
use hike_club_api::time::{instant_checked, Instant};
use hike_club_api::version::ApiVersion;
use hike_club_api::weather::{PeriodSignals, RawForecast, RawPeriod};

fn location(short: &str, full: &str) -> HikeLocation {
    HikeLocation { short_name: short.to_string(), full_name: full.to_string() }
}

fn bits(x: f64) -> FloatBits {
    FloatBits(x.to_bits())
}

fn parse(s: &str) -> Instant {
    let t = s.parse::<chrono::DateTime<chrono::Utc>>().unwrap();
    Instant { secs: t.timestamp(), nanos: t.timestamp_subsec_nanos() }
}

#[test]
fn locations_are_served_as_a_json_array_in_stored_order() {
    let outcome = Ok(Some(vec![location("oakhurst", "Oakhurst"), location("blackwell", "Blackwell")]));
    assert_eq!(
        build_locations_response(&outcome),
        (
            200,
            r#"[{"short_name":"oakhurst","full_name":"Oakhurst"},{"short_name":"blackwell","full_name":"Blackwell"}]"#
                .to_string()
        )
    );
}

#[test]
fn an_empty_location_list_is_served() {
    assert_eq!(build_locations_response(&Ok(Some(vec![]))), (200, "[]".to_string()));
}

#[test]
fn an_absent_location_list_is_misconfiguration() {
    assert_eq!(
        build_locations_response(&Ok(None)),
        (500, "server misconfigured: location list not found".to_string())
    );
}

#[test]
fn an_unreadable_location_list_is_an_upstream_error() {
    assert_eq!(
        build_locations_response(&Err("bad json".to_string())),
        (502, "upstream error: bad json".to_string())
    );
}

#[test]
fn location_names_are_escaped_as_json_strings() {
    let body = locations_body(&vec![location("a\"b", "Back\\slash\nline\u{1}")]);
    assert_eq!(body, r#"[{"short_name":"a\"b","full_name":"Back\\slash\nline\u0001"}]"#);
    let parsed: serde_json::Value = serde_json::from_str(&body).unwrap();
    assert_eq!(parsed[0]["full_name"], "Back\\slash\nline\u{1}");
}

fn sample_record() -> HikeRecord {
    HikeRecord {
        id: "blue-ridge".to_string(),
        start: Some("2026-07-18T08:00:00-04:00".to_string()),
        end: Some("2026-07-18T12:00:00-04:00".to_string()),
        meeting: MeetingCoords { lat: bits(37.6), lon: bits(-79.2) },
        trails: vec!["Blue Ridge Loop".to_string()],
        map_key: "hikes/blue-ridge/map.png".to_string(),
    }
}

/// A forecast whose single period covers the sample hike window (08:00-12:00
/// local == 12:00-16:00Z).
fn sample_forecast() -> RawForecast {
    RawForecast {
        periods: vec![RawPeriod {
            start: parse("2026-07-18T12:00:00Z"),
            end: parse("2026-07-18T16:00:00Z"),
            temp_f: bits(78.0),
            humidity_pct: Some(bits(50.0)),
            wind_mph: Some(bits(5.0)),
            precip_prob_pct: 10,
            short_forecast: "Partly Cloudy".to_string(),
        }],
        alerts: vec![],
    }
}

/// The signals of the sample forecast: neither gate is met, so their values
/// never reach the block.
fn quiet_signals(raw: &RawForecast) -> Vec<PeriodSignals> {
    raw.periods
        .iter()
        .map(|p| PeriodSignals {
            heat_index: p.humidity_pct.map(|_| hike_club_api::weather::Reading { value: bits(78.0), whole: "78".to_string() }),
            wind_chill: p.wind_mph.map(|_| hike_club_api::weather::Reading { value: bits(80.0), whole: "80".to_string() }),
        })
        .collect()
}

fn signed_map() -> Option<(String, Instant)> {
    Some(("https://example.com/map.png".to_string(), instant_checked(1_784_379_600, 0).unwrap()))
}

/// Runs the staged assembly the way the worker does, with fixed answers.
fn assemble(
    version: ApiVersion,
    record: Result<Option<HikeRecord>, String>,
    map: Result<Option<(String, Instant)>, String>,
    forecast: Result<RawForecast, String>,
) -> Result<Option<HikeResponseV2>, String> {
    let mut step = on_record(version, record);
    let mut map = Some(map);
    loop {
        step = match step {
            HikeStep::Done(r) => return r,
            HikeStep::Presign(record) => on_presigned(version, record, map.take().unwrap()),
            HikeStep::Forecast(plan) => {
                let signals = match &forecast {
                    Ok(raw) => quiet_signals(raw),
                    Err(_) => vec![],
                };
                return Ok(Some(on_forecast(plan, forecast, signals)));
            }
        };
    }
}

#[test]
fn v2_missing_hike_returns_none() {
    let result = assemble(ApiVersion::V2, Ok(None), Ok(signed_map()), Ok(sample_forecast())).unwrap();
    assert!(result.is_none());
}

#[test]
fn v2_weather_failure_is_best_effort() {
    let response =
        assemble(ApiVersion::V2, Ok(Some(sample_record())), Ok(signed_map()), Err("nws down".to_string()))
            .unwrap()
            .unwrap();
    assert!(!response.weather_available);
    assert!(response.weather.is_none());
    assert_eq!(response.id, "blue-ridge");
}

#[test]
fn v2_forecast_populates_weather() {
    let response = assemble(ApiVersion::V2, Ok(Some(sample_record())), Ok(signed_map()), Ok(sample_forecast()))
        .unwrap()
        .unwrap();
    assert!(response.weather_available);
    assert_eq!(response.weather.unwrap().conditions, "Partly Cloudy");
}

#[test]
fn v2_meeting_point_carries_the_record_coordinates() {
    let response = assemble(ApiVersion::V2, Ok(Some(sample_record())), Ok(signed_map()), Ok(sample_forecast()))
        .unwrap()
        .unwrap();
    let lat = f64::from_bits(response.meeting_point.lat.0);
    let lon = f64::from_bits(response.meeting_point.lon.0);
    assert_eq!(lat, 37.6);
    assert_eq!(lon, -79.2);
    assert_eq!(google_maps_url(&lat.to_string(), &lon.to_string()), "https://maps.google.com/?q=37.6,-79.2");
}

/// Every envelope field a hike screen needs is present in one response.
#[test]
fn v2_found_hike_returns_the_full_envelope() {
    let response = assemble(ApiVersion::V2, Ok(Some(sample_record())), Ok(signed_map()), Ok(sample_forecast()))
        .unwrap()
        .unwrap();
    assert_eq!(response.id, "blue-ridge");
    assert_eq!(response.start, "2026-07-18T08:00:00-04:00");
    assert_eq!(response.end, "2026-07-18T12:00:00-04:00");
    assert_eq!(response.trails, vec!["Blue Ridge Loop".to_string()]);
    assert_eq!(response.map.url, "https://example.com/map.png");
    assert_eq!(response.map.expires_at, "2026-07-18T13:00:00+00:00");
    assert!(response.weather_available);
}

/// The record's offset has to reach the weather builder, which reports
/// precipitation timing in it.
#[test]
fn v2_the_records_offset_reaches_the_weather_block() {
    let mut forecast = sample_forecast();
    forecast.periods[0].precip_prob_pct = 80;
    let r = assemble(ApiVersion::V2, Ok(Some(sample_record())), Ok(signed_map()), Ok(forecast))
        .unwrap()
        .unwrap();
    let starts_at = r.weather.unwrap().precipitation.starts_at.unwrap();
    assert!(starts_at.ends_with("-04:00"), "expected the record's offset, got {starts_at}");
}

#[test]
fn v2_store_failure_fails_the_request() {
    let result = assemble(ApiVersion::V2, Err("r2 unavailable".to_string()), Ok(signed_map()), Ok(sample_forecast()));
    let Err(err) = result else {
        panic!("expected storage failure to fail the request");
    };
    assert_eq!(err, "r2 unavailable");
}

#[test]
fn a_presign_failure_fails_the_request() {
    let result = assemble(ApiVersion::V2, Ok(Some(sample_record())), Err("head failed".to_string()), Ok(sample_forecast()));
    assert_eq!(result.err().as_deref(), Some("head failed"));
}

#[test]
fn version_one_has_no_response_shape() {
    let result = assemble(ApiVersion::V1, Ok(Some(sample_record())), Ok(signed_map()), Ok(sample_forecast()));
    assert_eq!(result.err().as_deref(), Some("api version 1 has no response shape"));
}

#[test]
fn version_two_cannot_serve_a_missing_map() {
    let result = assemble(ApiVersion::V2, Ok(Some(sample_record())), Ok(None), Ok(sample_forecast()));
    assert_eq!(result.err().as_deref(), Some("map object hikes/blue-ridge/map.png does not exist"));
}

#[test]
fn a_record_without_a_usable_window_is_an_error() {
    let cases = [
        (None, Some("2026-07-18T12:00:00-04:00"), "hike record has no start"),
        (Some("soon"), Some("2026-07-18T12:00:00-04:00"), "hike record start is not a valid RFC 3339 timestamp"),
        (Some("2026-07-18T08:00:00-04:00"), None, "hike record has no end"),
        (Some("2026-07-18T08:00:00-04:00"), Some("later"), "hike record end is not a valid RFC 3339 timestamp"),
        (Some("2026-07-18T08:00:00-04:00"), Some("2026-07-18T08:00:00-04:00"), "hike record end must be after start"),
        (Some("2026-07-18T12:00:00-04:00"), Some("2026-07-18T08:00:00-04:00"), "hike record end must be after start"),
    ];
    for (start, end, message) in cases {
        let mut record = sample_record();
        record.start = start.map(str::to_string);
        record.end = end.map(str::to_string);
        let result = assemble(ApiVersion::V2, Ok(Some(record)), Ok(signed_map()), Ok(sample_forecast()));
        assert_eq!(result.err().as_deref(), Some(message));
    }
}

#[test]
fn a_forecast_outside_the_window_leaves_weather_unavailable() {
    let mut forecast = sample_forecast();
    forecast.periods[0].start = parse("2026-07-19T12:00:00Z");
    forecast.periods[0].end = parse("2026-07-19T13:00:00Z");
    let r = assemble(ApiVersion::V2, Ok(Some(sample_record())), Ok(signed_map()), Ok(forecast))
        .unwrap()
        .unwrap();
    assert!(!r.weather_available);
    assert!(r.weather.is_none());
}

#[test]
fn a_plan_carries_the_window_in_utc_and_the_start_offset() {
    let step = on_presigned(ApiVersion::V2, sample_record(), Ok(signed_map()));
    let HikeStep::Forecast(ServePlan { start, end, offset, .. }) = step else {
        panic!("expected a forecast step");
    };
    assert_eq!(start, parse("2026-07-18T12:00:00Z"));
    assert_eq!(end, parse("2026-07-18T16:00:00Z"));
    assert_eq!(offset, -4 * 3600);
}

// ---------------------------------------------------------------------------
// Version 3
// ---------------------------------------------------------------------------

#[test]
fn non_v3_ignores_the_query_entirely() {
    // Garbage that would fail to parse if it were ever read.
    assert_eq!(parse_window(ApiVersion::V2, Some("not a date"), None), Ok(None));
    assert_eq!(parse_window(ApiVersion::V1, None, None), Ok(None));
}

#[test]
fn v3_requires_both_query_parameters() {
    assert_eq!(
        parse_window(ApiVersion::V3, None, Some("2026-07-18T12:00:00-04:00")),
        Err("start query parameter is required".to_string())
    );
    assert_eq!(
        parse_window(ApiVersion::V3, Some("2026-07-18T08:00:00-04:00"), None),
        Err("end query parameter is required".to_string())
    );
}

#[test]
fn v3_rejects_a_malformed_timestamp() {
    assert_eq!(
        parse_window(ApiVersion::V3, Some("not a date"), Some("2026-07-18T12:00:00-04:00")),
        Err("start is not a valid RFC 3339 timestamp".to_string())
    );
    assert_eq!(
        parse_window(ApiVersion::V3, Some("2026-07-18T08:00:00-04:00"), Some("not a date")),
        Err("end is not a valid RFC 3339 timestamp".to_string())
    );
}

#[test]
fn v3_rejects_an_end_not_after_start() {
    let same = "2026-07-18T08:00:00-04:00";
    assert_eq!(parse_window(ApiVersion::V3, Some(same), Some(same)), Err("end must be after start".to_string()));
    assert_eq!(
        parse_window(ApiVersion::V3, Some("2026-07-18T12:00:00-04:00"), Some("2026-07-18T08:00:00-04:00")),
        Err("end must be after start".to_string())
    );
}

#[test]
fn v3_accepts_a_valid_window() {
    let start = "2026-07-18T08:00:00-04:00";
    let end = "2026-07-18T12:00:00-04:00";
    let window = parse_window(ApiVersion::V3, Some(start), Some(end)).unwrap();
    assert_eq!(window, Some((parse("2026-07-18T12:00:00Z"), -4 * 3600, parse("2026-07-18T16:00:00Z"), -4 * 3600)));
}

#[test]
fn a_window_keeps_each_ends_own_offset() {
    let window =
        parse_window(ApiVersion::V3, Some("2026-07-18T08:00:00-04:00"), Some("2026-07-18T17:00:00Z")).unwrap();
    assert_eq!(window, Some((parse("2026-07-18T12:00:00Z"), -4 * 3600, parse("2026-07-18T17:00:00Z"), 0)));
}

/// A record as version 3 reads it: no window of its own.
fn undated_record() -> HikeRecord {
    HikeRecord { start: None, end: None, ..sample_record() }
}

/// The window a caller supplies, independent of the record.
fn sample_window() -> QueryWindow {
    parse_window(ApiVersion::V3, Some("2026-07-18T08:00:00-04:00"), Some("2026-07-18T12:00:00-04:00"))
        .unwrap()
        .unwrap()
}

/// Runs the version 3 assembly the way the worker does, with fixed answers;
/// also returns the offset the weather source was asked with, if it was.
fn assemble_v3(
    record: Result<Option<HikeRecord>, String>,
    window: Option<QueryWindow>,
    map: Result<Option<(String, Instant)>, String>,
    forecast: Result<RawForecast, String>,
) -> (Result<Option<HikeResponseV3>, String>, Option<i32>) {
    let record = match on_record(ApiVersion::V3, record) {
        HikeStep::Done(Err(e)) => return (Err(e), None),
        HikeStep::Done(Ok(_)) => return (Ok(None), None),
        HikeStep::Presign(record) => record,
        HikeStep::Forecast(_) => panic!("no forecast before the map"),
    };
    match on_presigned_v3(record, window, map) {
        StepV3::Failed(e) => (Err(e), None),
        StepV3::Forecast(plan) => {
            let offset = plan.offset;
            let signals = match &forecast {
                Ok(raw) => quiet_signals(raw),
                Err(_) => vec![],
            };
            (Ok(Some(on_forecast_v3(plan, forecast, signals))), Some(offset))
        }
    }
}

fn serve_v3(forecast: Result<RawForecast, String>) -> HikeResponseV3 {
    assemble_v3(Ok(Some(undated_record())), Some(sample_window()), Ok(signed_map()), forecast).0.unwrap().unwrap()
}

#[test]
fn missing_hike_returns_none() {
    let (result, _) = assemble_v3(Ok(None), None, Ok(signed_map()), Ok(sample_forecast()));
    assert!(result.unwrap().is_none());
}

#[test]
fn found_hike_with_weather_failure_is_best_effort() {
    let response = serve_v3(Err("nws down".to_string()));
    assert!(!response.weather_available);
    assert!(response.weather.is_none());
    assert_eq!(response.id, "blue-ridge");
}

#[test]
fn a_forecast_populates_weather() {
    let response = serve_v3(Ok(sample_forecast()));
    assert!(response.weather_available);
    assert_eq!(response.weather.unwrap().start_conditions, "Partly Cloudy");
}

/// The client gets a ready-to-open maps link rather than composing one: the
/// worker renders it from the assembled response's coordinates.
#[test]
fn meeting_point_carries_a_google_maps_url() {
    let response = serve_v3(Ok(sample_forecast()));
    let lat = f64::from_bits(response.meeting_point.lat.0);
    let lon = f64::from_bits(response.meeting_point.lon.0);
    assert_eq!(lat, 37.6);
    assert_eq!(lon, -79.2);
    assert_eq!(google_maps_url(&lat.to_string(), &lon.to_string()), "https://maps.google.com/?q=37.6,-79.2");
}

#[test]
fn a_found_hike_returns_the_full_envelope() {
    let response = serve_v3(Ok(sample_forecast()));
    assert_eq!(response.id, "blue-ridge");
    assert_eq!(response.trails, vec!["Blue Ridge Loop".to_string()]);
    assert_eq!(response.map.unwrap().url, "https://example.com/map.png");
    assert!(response.weather_available);
}

#[test]
fn the_query_windows_offset_reaches_the_weather_block() {
    let mut forecast = sample_forecast();
    forecast.periods[0].precip_prob_pct = 80;
    let r = serve_v3(Ok(forecast));
    let starts_at = r.weather.unwrap().precipitation.starts_at.unwrap();
    assert!(starts_at.ends_with("-04:00"), "expected the query window's offset, got {starts_at}");
}

#[test]
fn store_failure_fails_the_request_rather_than_degrading() {
    let (result, _) = assemble_v3(Err("r2 unavailable".to_string()), None, Ok(signed_map()), Ok(sample_forecast()));
    assert_eq!(result.err().as_deref(), Some("r2 unavailable"));
}

#[test]
fn v3_serves_a_missing_map_as_absent() {
    let (r, _) = assemble_v3(Ok(Some(undated_record())), Some(sample_window()), Ok(None), Ok(sample_forecast()));
    let r = r.unwrap().unwrap();
    assert!(r.map.is_none());
    assert!(!r.map_available);
    assert_eq!(f64::from_bits(r.meeting_point.lat.0), 37.6);
    assert!(r.weather_available);
}

#[test]
fn serves_from_the_query_window_alone() {
    let r = serve_v3(Ok(sample_forecast()));
    assert!(r.weather_available);
}

#[test]
fn v3_fails_without_a_window() {
    let (result, _) = assemble_v3(Ok(Some(undated_record())), None, Ok(signed_map()), Ok(sample_forecast()));
    assert_eq!(result.err().as_deref(), Some("start and end query parameters are required"));
}

#[test]
fn v3_presign_failure_comes_before_the_window() {
    let (result, _) = assemble_v3(Ok(Some(undated_record())), None, Err("head failed".to_string()), Ok(sample_forecast()));
    assert_eq!(result.err().as_deref(), Some("head failed"));
}

#[test]
fn v3_is_served_in_its_own_shape() {
    let r = serve_v3(Ok(sample_forecast()));
    assert!(r.map_available);
    let map = r.map.unwrap();
    assert_eq!(map.url, "https://example.com/map.png");
    assert_eq!(map.expires_at, "2026-07-18T13:00:00+00:00");
    assert!(r.weather_available);
    let w = r.weather.unwrap();
    assert_eq!(w.start_conditions, "Partly Cloudy");
    assert_eq!(w.end_conditions, "Partly Cloudy");
}

#[test]
fn v3_passes_the_query_windows_offset_to_the_weather_source() {
    let (_, offset) = assemble_v3(Ok(Some(undated_record())), Some(sample_window()), Ok(signed_map()), Ok(sample_forecast()));
    assert_eq!(offset, Some(-4 * 3600));
}

#[test]
fn v3_conditions_come_from_both_ends_of_the_window() {
    let mut forecast = sample_forecast();
    forecast.periods[0].end = parse("2026-07-18T14:00:00Z");
    forecast.periods.push(RawPeriod {
        start: parse("2026-07-18T14:00:00Z"),
        end: parse("2026-07-18T16:00:00Z"),
        temp_f: bits(84.0),
        humidity_pct: None,
        wind_mph: None,
        precip_prob_pct: 0,
        short_forecast: "Thunderstorms".to_string(),
    });
    let w = serve_v3(Ok(forecast)).weather.unwrap();
    assert_eq!(w.start_conditions, "Partly Cloudy");
    assert_eq!(w.end_conditions, "Thunderstorms");
    assert_eq!(f64::from_bits(w.start_temp_f.0), 78.0);
    assert_eq!(f64::from_bits(w.end_temp_f.0), 84.0);
}

/// Version 2 validates the record's window as the record is read, so a bad
/// window fails the request before the map is presigned.
#[test]
fn v2_record_window_is_checked_before_the_map() {
    let mut record = sample_record();
    record.start = Some("soon".to_string());
    let result = assemble(ApiVersion::V2, Ok(Some(record)), Err("head failed".to_string()), Ok(sample_forecast()));
    assert_eq!(result.err().as_deref(), Some("hike record start is not a valid RFC 3339 timestamp"));
    assert!(matches!(on_record(ApiVersion::V2, Ok(Some(undated_record()))), HikeStep::Done(Err(_))));
}

/// Version 3 never reads the record's `start`/`end`.
#[test]
fn v3_serves_an_undated_record() {
    assert!(matches!(on_record(ApiVersion::V3, Ok(Some(undated_record()))), HikeStep::Presign(_)));
}
