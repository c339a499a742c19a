//! The values a hike response is made of. Doubles are carried as their bit
//! patterns (`FloatBits`); their JSON forms live beside the serializer.
use vstd::prelude::*;
use crate::float::FloatBits;

verus! {

/// A presigned map URL and when it stops working (RFC 3339).
pub struct MapRef {
    pub url: String,
    pub expires_at: String,
}

/// One alert of a weather block: its kind (`precip`, `nws_alert`,
/// `heat_index` or `wind_chill`) and a human-readable message.
pub struct Alert {
    pub kind: String,
    pub message: String,
}

/// The v1 precipitation block: the in-window probability and an amount the
/// hourly forecast never provides, always 0.0.
pub struct Precipitation {
    pub probability_pct: u8,
    pub amount_in: FloatBits,
}

/// The v1 weather block: the first in-window period's temperature and
/// conditions, and every active NWS alert at the point.
pub struct Weather {
    pub temperature_f: FloatBits,
    pub conditions: String,
    pub precipitation: Precipitation,
    pub heat_index_f: Option<FloatBits>,
    pub wind_chill_f: Option<FloatBits>,
    pub alerts: Vec<Alert>,
}

/// v2 precipitation: probability plus *when* precipitation is expected across
/// the hike's local calendar day (times may fall before or after the window).
pub struct PrecipitationV2 {
    pub probability_pct: u8,
    /// Whether any hour on the hike's calendar day is at or above the
    /// "likely" threshold.
    pub expected: bool,
    /// RFC 3339 start of the first likely hour, in the hike's offset.
    pub starts_at: Option<String>,
    /// RFC 3339 end of the last likely hour, in the hike's offset.
    pub ends_at: Option<String>,
}

/// The v2 weather block: start and end temperatures, precipitation timing,
/// and NWS alerts filtered to the hike window.
pub struct WeatherV2 {
    pub start_temp_f: FloatBits,
    pub end_temp_f: FloatBits,
    pub conditions: String,
    pub precipitation: PrecipitationV2,
    pub heat_index_f: Option<FloatBits>,
    pub wind_chill_f: Option<FloatBits>,
    pub alerts: Vec<Alert>,
}

/// The v3 weather block: v2's, with conditions reported at both ends of the
/// hike window so they read the same way as the temperatures beside them.
pub struct WeatherV3 {
    pub start_temp_f: FloatBits,
    pub end_temp_f: FloatBits,
    pub start_conditions: String,
    pub end_conditions: String,
    pub precipitation: PrecipitationV2,
    pub heat_index_f: Option<FloatBits>,
    pub wind_chill_f: Option<FloatBits>,
    pub alerts: Vec<Alert>,
}

/// One entry of the location list stored in R2: the slug and the display
/// name.
pub struct HikeLocation {
    pub short_name: String,
    pub full_name: String,
}

/// Meeting-point coordinates.
#[derive(Clone, Copy, Debug, PartialEq, Eq, Structural)]
pub struct MeetingCoords {
    pub lat: FloatBits,
    pub lon: FloatBits,
}

/// Raw hike metadata as stored in R2 at `hikes/{id}.json`. `start`/`end` are
/// optional and read only to serve version 2.
pub struct HikeRecord {
    pub id: String,
    pub start: Option<String>,
    pub end: Option<String>,
    pub meeting: MeetingCoords,
    pub trails: Vec<String>,
    pub map_key: String,
}

/// The full `GET /hike/{id}` response under `x-api-version: 2`. The meeting
/// point is carried as its coordinates; its maps link is rendered from them
/// (see `google_maps_url`).
pub struct HikeResponseV2 {
    pub id: String,
    pub start: String,
    pub end: String,
    pub meeting_point: MeetingCoords,
    pub trails: Vec<String>,
    pub map: MapRef,
    pub weather_available: bool,
    pub weather: Option<WeatherV2>,
}

/// The full `GET /hike/{id}` response under `x-api-version: 3`. `map` is
/// nullable beside `map_available`, the way `weather` degrades beside
/// `weather_available`. It carries no `start`/`end`: the caller supplies the
/// hike's window as query parameters.
pub struct HikeResponseV3 {
    pub id: String,
    pub meeting_point: MeetingCoords,
    pub trails: Vec<String>,
    pub map: Option<MapRef>,
    pub map_available: bool,
    pub weather_available: bool,
    pub weather: Option<WeatherV3>,
}

/// The maps link of a meeting point, from the decimal texts of its latitude
/// and longitude.
pub open spec fn maps_link(lat_text: Seq<char>, lon_text: Seq<char>) -> Seq<char> {
    "https://maps.google.com/?q="@ + lat_text + ","@ + lon_text
}

/// Builds `https://maps.google.com/?q={lat},{lon}` from the coordinates'
/// decimal texts, so the client opens a ready link rather than composing one.
pub fn google_maps_url(lat_text: &str, lon_text: &str) -> (url: String)
    ensures
        url@ == maps_link(lat_text@, lon_text@),
{
    let mut url: String = String::new();
    url.push_str("https://maps.google.com/?q=");
    url.push_str(lat_text);
    url.push_str(",");
    url.push_str(lon_text);
    url
}

/// An owned copy of a text.
pub fn owned(s: &str) -> (r: String)
    ensures
        r@ == s@,
{
    let mut r: String = String::new();
    r.push_str(s);
    r
}

} // verus!
