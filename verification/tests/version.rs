use chrono::TimeZone;
use hike_club_api::time::Instant;
use hike_club_api::version::{gone_body, live_versions, parse_version, status, sunset, ApiVersion, Status};

/// Midnight UTC on the given day, the granularity every sunset date uses.
fn at(y: i32, m: u32, d: u32) -> Instant {
    let t = chrono::Utc.with_ymd_and_hms(y, m, d, 0, 0, 0).unwrap();
    Instant { secs: t.timestamp(), nanos: 0 }
}

#[test]
fn missing_header_is_rejected() {
    assert_eq!(parse_version(None), Err(()));
}

#[test]
fn known_versions_parse() {
    assert_eq!(parse_version(Some("1")), Ok(ApiVersion::V1));
    assert_eq!(parse_version(Some("2")), Ok(ApiVersion::V2));
}

#[test]
fn unknown_or_nonnumeric_versions_are_rejected() {
    assert_eq!(parse_version(Some("3")), Err(()));
    assert_eq!(parse_version(Some("v2")), Err(()));
    assert_eq!(parse_version(Some("")), Err(()));
}

#[test]
fn v1_is_deprecated() {
    assert_eq!(sunset(ApiVersion::V1), Some("Thu, 20 Aug 2026 00:00:00 GMT"));
    assert!(sunset(ApiVersion::V2).is_none());
}

/// A typo in a registry date must fail here rather than silently reading as
/// "not sunset" at runtime.
#[test]
fn every_registry_sunset_date_parses() {
    for version in [ApiVersion::V1, ApiVersion::V2] {
        if let Some(date) = sunset(version) {
            assert!(
                chrono::DateTime::parse_from_rfc2822(date).is_ok(),
                "version {version:?} has an unparseable sunset date: {date}"
            );
        }
    }
}

#[test]
fn a_version_with_no_sunset_is_current() {
    assert_eq!(status(ApiVersion::V2, at(2026, 9, 20)), Status::Current);
}

#[test]
fn a_version_before_its_sunset_is_deprecated() {
    assert_eq!(
        status(ApiVersion::V1, at(2026, 8, 19)),
        Status::Deprecated { sunset: "Thu, 20 Aug 2026 00:00:00 GMT" }
    );
}

/// "at or before the current time": the sunset instant itself is already gone.
#[test]
fn a_version_at_or_past_its_sunset_is_sunset() {
    let gone = Status::Sunset { sunset: "Thu, 20 Aug 2026 00:00:00 GMT" };
    assert_eq!(status(ApiVersion::V1, at(2026, 8, 20)), gone);
    assert_eq!(status(ApiVersion::V1, at(2026, 8, 21)), gone);
}

#[test]
fn live_versions_exclude_the_sunset_ones() {
    assert_eq!(live_versions(at(2026, 8, 19)), vec!["1", "2"]);
    assert_eq!(live_versions(at(2026, 8, 20)), vec!["2"]);
}

#[test]
fn a_sunset_version_gets_a_body_naming_the_date_and_the_live_versions() {
    assert_eq!(
        gone_body(ApiVersion::V1, at(2026, 9, 20)).as_deref(),
        Some("api version 1 was sunset on Thu, 20 Aug 2026 00:00:00 GMT; supported versions: 2")
    );
}

#[test]
fn a_version_that_is_not_sunset_gets_no_body() {
    assert_eq!(gone_body(ApiVersion::V1, at(2026, 8, 19)), None);
    assert_eq!(gone_body(ApiVersion::V2, at(2026, 9, 20)), None);
}

#[test]
fn one_nanosecond_before_the_sunset_is_still_deprecated() {
    let sunset_instant = at(2026, 8, 20);
    let just_before = Instant { secs: sunset_instant.secs - 1, nanos: 999_999_999 };
    assert!(matches!(status(ApiVersion::V1, just_before), Status::Deprecated { .. }));
    assert_eq!(live_versions(just_before), vec!["1", "2"]);
}

#[test]
fn every_registered_label_parses_back_to_its_version() {
    for version in [ApiVersion::V1, ApiVersion::V2] {
        assert_eq!(parse_version(Some(hike_club_api::version::label(version))), Ok(version));
    }
}

#[test]
fn a_sunset_version_is_not_among_the_versions_its_body_offers() {
    let now = at(2027, 1, 1);
    let body = gone_body(ApiVersion::V1, now).unwrap();
    let offered = body.split("supported versions: ").nth(1).unwrap();
    assert!(!offered.split(", ").any(|v| v == "1"));
    assert!(!live_versions(now).contains(&"1"));
}

#[test]
fn version_three_has_a_shape_but_is_not_registered() {
    assert_eq!(parse_version(Some("3")), Err(()));
    assert_eq!(sunset(ApiVersion::V3), None);
    assert_eq!(status(ApiVersion::V3, at(2026, 9, 20)), Status::Current);
    assert_eq!(gone_body(ApiVersion::V3, at(2030, 1, 1)), None);
    assert_eq!(live_versions(at(2026, 9, 20)), vec!["2"]);
}
