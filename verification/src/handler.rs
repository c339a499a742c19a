//! What the two data endpoints answer once a request is admitted: the
//! location list as JSON, and the staged assembly of a hike response from the
//! store's and the weather source's answers.
use vstd::prelude::*;
use crate::admission::header_text;
use crate::models::{HikeLocation, HikeRecord, HikeResponseV2, HikeResponseV3, MapRef, MeetingCoords, WeatherV2, WeatherV3, owned};
use crate::strings::hex_lower_byte;
use crate::time::{Instant, before, is_before, parse_rfc3339, rfc3339_reading, rfc3339_text, rfc3339_writing, valid_instant, valid_offset};
use crate::version::ApiVersion;
use crate::weather::{
    PeriodSignals, RawForecast, build_weather_v2, build_weather_v3, signals_fit, valid_periods, weather_v2_holds,
    weather_v3_holds, window_indices,
};

verus! {

// ---------------------------------------------------------------------------
// JSON text
// ---------------------------------------------------------------------------

/// How `serde_json` writes one character inside a JSON string: `"` and `\`
/// and the control characters with short forms are backslash-escaped, other
/// control characters become `\u00XX` (lower-case hex), and everything else
/// stands for itself.
pub open spec fn json_escape_char(c: char) -> Seq<char> {
    if c == '"' {
        seq!['\\', '"']
    } else if c == '\\' {
        seq!['\\', '\\']
    } else if c == '\u{8}' {
        seq!['\\', 'b']
    } else if c == '\t' {
        seq!['\\', 't']
    } else if c == '\n' {
        seq!['\\', 'n']
    } else if c == '\u{c}' {
        seq!['\\', 'f']
    } else if c == '\r' {
        seq!['\\', 'r']
    } else if (c as int) < 32 {
        seq!['\\', 'u', '0', '0'] + hex_lower_byte((c as int) as u8)
    } else {
        seq![c]
    }
}

/// The escaped characters of a JSON string's body.
pub open spec fn json_escaped(s: Seq<char>) -> Seq<char>
    decreases s.len(),
{
    if s.len() == 0 {
        Seq::empty()
    } else {
        json_escaped(s.drop_last()) + json_escape_char(s.last())
    }
}

/// A JSON string literal: the escaped text between double quotes.
pub open spec fn json_quoted(s: Seq<char>) -> Seq<char> {
    seq!['"'] + json_escaped(s) + seq!['"']
}

/// Writes a text as a JSON string literal with `serde_json::to_string`, which
/// cannot fail for a string.
#[verifier::external_body]
fn json_string(s: &str) -> (r: String)
    ensures
        r@ == json_quoted(s@),
{
    serde_json::to_string(s).expect("a string always serializes")
}

/// One location as compact JSON, fields in declaration order.
pub open spec fn location_json(l: HikeLocation) -> Seq<char> {
    "{\"short_name\":"@ + json_quoted(l.short_name@) + ",\"full_name\":"@ + json_quoted(l.full_name@)
        + "}"@
}

/// The entries of a location list as JSON, separated by commas.
pub open spec fn location_entries_json(list: Seq<HikeLocation>) -> Seq<char>
    decreases list.len(),
{
    if list.len() == 0 {
        Seq::empty()
    } else if list.len() == 1 {
        location_json(list[0])
    } else {
        location_entries_json(list.drop_last()) + ","@ + location_json(list.last())
    }
}

/// A location list as a compact JSON array, in stored order, carrying only
/// `short_name` and `full_name`.
pub open spec fn locations_json(list: Seq<HikeLocation>) -> Seq<char> {
    "["@ + location_entries_json(list) + "]"@
}

/// Serializes a location list as a compact JSON array.
pub fn locations_body(list: &Vec<HikeLocation>) -> (body: String)
    ensures
        body@ == locations_json(list@),
{
    let mut body: String = owned("[");
    let mut i: usize = 0;
    while i < list.len()
        invariant
            i <= list@.len(),
            body@ == "["@ + location_entries_json(list@.subrange(0, i as int)),
        decreases list.len() - i,
    {
        let ghost prev = body@;
        if i > 0 {
            body.push_str(",");
        }
        body.push_str("{\"short_name\":");
        let short: String = json_string(list[i].short_name.as_str());
        body.push_str(short.as_str());
        body.push_str(",\"full_name\":");
        let full: String = json_string(list[i].full_name.as_str());
        body.push_str(full.as_str());
        body.push_str("}");
        proof {
            let next = list@.subrange(0, i + 1);
            assert(next.drop_last() =~= list@.subrange(0, i as int));
            assert(next.last() == list@[i as int]);
            if i == 0 {
                assert(list@.subrange(0, 0) =~= Seq::<HikeLocation>::empty());
                assert(location_entries_json(list@.subrange(0, 0)) =~= Seq::<char>::empty());
            }
            assert(body@ =~= "["@ + location_entries_json(next));
        }
        i = i + 1;
    }
    body.push_str("]");
    assert(list@.subrange(0, list@.len() as int) =~= list@);
    body
}

// ---------------------------------------------------------------------------
// GET /hike-locations
// ---------------------------------------------------------------------------

/// What `GET /hike-locations` answers past admission, by what the store
/// returned: the list as JSON (200); misconfiguration when the list object is
/// absent (500); an upstream error when it is unreadable (502).
pub open spec fn locations_reply(outcome: Result<Option<Seq<HikeLocation>>, Seq<char>>) -> (u16, Seq<char>) {
    match outcome {
        Ok(Some(list)) => (200, locations_json(list)),
        Ok(None) => (500, "server misconfigured: location list not found"@),
        Err(e) => (502, "upstream error: "@ + e),
    }
}

/// `GET /hike-locations` past admission, as status and body. The list comes
/// only from the store: there is no compiled-in copy to fall back on.
pub fn build_locations_response(outcome: &Result<Option<Vec<HikeLocation>>, String>) -> (r: (u16, String))
    ensures
        (r.0, r.1@) == locations_reply(
            match outcome {
                Ok(Some(list)) => Ok(Some(list@)),
                Ok(None) => Ok(None),
                Err(e) => Err(e@),
            },
        ),
{
    match outcome {
        Ok(Some(list)) => (200, locations_body(list)),
        Ok(None) => (500, owned("server misconfigured: location list not found")),
        Err(e) => {
            let mut body: String = owned("upstream error: ");
            body.push_str(e.as_str());
            (502, body)
        },
    }
}

// ---------------------------------------------------------------------------
// GET /hike/{id}
// ---------------------------------------------------------------------------

/// Everything a version 2 response needs besides the weather: the record's
/// parts, the signed map, and the hike window read from the record.
pub struct ServePlan {
    pub id: String,
    /// `start` as written in the record, echoed verbatim.
    pub start_text: String,
    /// `end` as written in the record, echoed verbatim.
    pub end_text: String,
    pub meeting: MeetingCoords,
    pub trails: Vec<String>,
    pub map: MapRef,
    /// The window's start, UTC.
    pub start: Instant,
    /// The window's end, UTC.
    pub end: Instant,
    /// The UTC offset `start` was written in: the hike's local day is read in it.
    pub offset: i32,
}

/// The next step of assembling a hike response.
pub enum HikeStep {
    /// The answer: `Ok(None)` for no such hike, `Err` for a failure that
    /// fails the request, `Ok(Some(..))` for a response.
    Done(Result<Option<HikeResponseV2>, String>),
    /// Ask the store to presign the map of this record.
    Presign(HikeRecord),
    /// Ask the weather source for the forecast at the meeting point.
    Forecast(ServePlan),
}

/// The hike window a record carries: `start` and `end` must both be present,
/// both RFC 3339, and `end` strictly after `start`. The offset is `start`'s.
pub open spec fn record_window(start: Option<String>, end: Option<String>) -> Result<(Instant, Instant, i32), Seq<char>> {
    match start {
        None => Err("hike record has no start"@),
        Some(s) => match rfc3339_reading(s@) {
            None => Err("hike record start is not a valid RFC 3339 timestamp"@),
            Some((ss, sn, offset)) => match end {
                None => Err("hike record has no end"@),
                Some(e) => match rfc3339_reading(e@) {
                    None => Err("hike record end is not a valid RFC 3339 timestamp"@),
                    Some((es, en, _)) => if before(Instant { secs: ss, nanos: sn }, Instant { secs: es, nanos: en }) {
                        Ok((Instant { secs: ss, nanos: sn }, Instant { secs: es, nanos: en }, offset))
                    } else {
                        Err("hike record end must be after start"@)
                    },
                },
            },
        },
    }
}

/// Reads a record's window, as `record_window` says: the start instant and
/// offset as `start` was written, and the end instant.
fn read_record_window(start: &Option<String>, end: &Option<String>) -> (r: Result<(Instant, i32, Instant), String>)
    ensures
        match (r, record_window(*start, *end)) {
            (Ok((s, offset, e)), Ok(expected)) => (s, e, offset) == expected && valid_instant(s) && valid_offset(
                offset as int,
            ),
            (Err(m), Err(why)) => m@ == why,
            _ => false,
        },
{
    let start_text: &String = match start {
        None => return Err(owned("hike record has no start")),
        Some(t) => t,
    };
    let (start_at, offset): (Instant, i32) = match parse_rfc3339(start_text.as_str()) {
        None => return Err(owned("hike record start is not a valid RFC 3339 timestamp")),
        Some(parsed) => parsed,
    };
    let end_text: &String = match end {
        None => return Err(owned("hike record has no end")),
        Some(t) => t,
    };
    let end_at: Instant = match parse_rfc3339(end_text.as_str()) {
        None => return Err(owned("hike record end is not a valid RFC 3339 timestamp")),
        Some((t, _)) => t,
    };
    if !is_before(start_at, end_at) {
        return Err(owned("hike record end must be after start"));
    }
    Ok((start_at, offset, end_at))
}

/// The first step, on the store's answer to the record read: a failure fails
/// the request, an absent record is no such hike. Version 2 validates the
/// record's window as the record is read, so a record whose window does not
/// read fails there; any other record goes on to its map.
pub fn on_record(version: ApiVersion, outcome: Result<Option<HikeRecord>, String>) -> (step: HikeStep)
    ensures
        match outcome {
            Err(e) => step matches HikeStep::Done(Err(m)) && m@ == e@,
            Ok(None) => step matches HikeStep::Done(Ok(None)),
            Ok(Some(record)) => match (version, record_window(record.start, record.end)) {
                (ApiVersion::V2, Err(why)) => step matches HikeStep::Done(Err(m)) && m@ == why,
                _ => step matches HikeStep::Presign(r) && r == record,
            },
        },
{
    match outcome {
        Err(e) => HikeStep::Done(Err(e)),
        Ok(None) => HikeStep::Done(Ok(None)),
        Ok(Some(record)) => {
            if version == ApiVersion::V2 {
                if let Err(why) = read_record_window(&record.start, &record.end) {
                    return HikeStep::Done(Err(why));
                }
            }
            HikeStep::Presign(record)
        },
    }
}

/// A presigned map as the response carries it: the URL and its expiry in
/// RFC 3339.
pub open spec fn map_view(map: MapRef) -> (Seq<char>, Seq<char>) {
    (map.url@, map.expires_at@)
}

/// The second step for versions 1 and 2, on the store's answer to presigning
/// the map (version 3 takes `on_presigned_v3`). A failure fails the request.
/// Version 1 has no response shape. Version 2 cannot say a
/// map is absent, so an absent map fails the request, and so does a record
/// whose window does not read; otherwise the plan goes on to the forecast.
pub fn on_presigned(
    version: ApiVersion,
    record: HikeRecord,
    outcome: Result<Option<(String, Instant)>, String>,
) -> (step: HikeStep)
    requires
        version != ApiVersion::V3,
        outcome matches Ok(Some((_, expires))) ==> valid_instant(expires),
    ensures
        match outcome {
            Err(e) => step matches HikeStep::Done(Err(m)) && m@ == e@,
            Ok(map) => match version {
                ApiVersion::V3 => true,
                ApiVersion::V1 => step matches HikeStep::Done(Err(m)) && m@ == "api version 1 has no response shape"@,
                ApiVersion::V2 => match map {
                    None => step matches HikeStep::Done(Err(m)) && m@ == "map object "@ + record.map_key@
                        + " does not exist"@,
                    Some((url, expires)) => match record_window(record.start, record.end) {
                        Err(why) => step matches HikeStep::Done(Err(m)) && m@ == why,
                        Ok((start, end, offset)) => step matches HikeStep::Forecast(plan) && {
                            &&& plan.id == record.id
                            &&& Some(plan.start_text) == record.start
                            &&& Some(plan.end_text) == record.end
                            &&& plan.meeting == record.meeting
                            &&& plan.trails == record.trails
                            &&& map_view(plan.map) == (url@, rfc3339_writing(expires.secs, expires.nanos, 0))
                            &&& plan.start == start
                            &&& plan.end == end
                            &&& plan.offset == offset
                            &&& valid_instant(plan.start)
                            &&& valid_offset(plan.offset as int)
                        },
                    },
                },
            },
        },
{
    let map: Option<(String, Instant)> = match outcome {
        Err(e) => return HikeStep::Done(Err(e)),
        Ok(map) => map,
    };
    match version {
        ApiVersion::V3 => {
            proof {
                assert(false);
            }
            HikeStep::Done(Ok(None))
        },
        ApiVersion::V1 => HikeStep::Done(Err(owned("api version 1 has no response shape"))),
        ApiVersion::V2 => {
            let (url, expires): (String, Instant) = match map {
                None => {
                    let mut m: String = owned("map object ");
                    m.push_str(record.map_key.as_str());
                    m.push_str(" does not exist");
                    return HikeStep::Done(Err(m));
                },
                Some(signed) => signed,
            };
            let (start_at, offset, end_at): (Instant, i32, Instant) = match read_record_window(
                &record.start,
                &record.end,
            ) {
                Err(why) => return HikeStep::Done(Err(why)),
                Ok(w) => w,
            };
            let HikeRecord { id, start, end, meeting, trails, map_key } = record;
            let (start_text, end_text): (String, String) = match (start, end) {
                (Some(s), Some(e)) => (s, e),
                _ => {
                    proof {
                        assert(false);
                    }
                    return HikeStep::Done(Ok(None));
                },
            };
            let expires_at: String = rfc3339_text(expires, 0);
            HikeStep::Forecast(ServePlan {
                id,
                start_text,
                end_text,
                meeting,
                trails,
                map: MapRef { url, expires_at },
                start: start_at,
                end: end_at,
                offset,
            })
        },
    }
}

/// The last step, on the weather source's answer: the version 2 response.
/// Weather is the one part allowed to fail: a failed forecast, or one with no
/// period in the window, leaves the block absent and `weatherAvailable` false.
pub fn on_forecast(plan: ServePlan, outcome: Result<RawForecast, String>, signals: Vec<PeriodSignals>) -> (r: HikeResponseV2)
    requires
        valid_instant(plan.start),
        valid_offset(plan.offset as int),
        outcome matches Ok(raw) ==> signals_fit(raw.periods@, signals@) && valid_periods(raw.periods@),
    ensures
        r.id == plan.id,
        r.start == plan.start_text,
        r.end == plan.end_text,
        r.meeting_point == plan.meeting,
        r.trails == plan.trails,
        r.map == plan.map,
        r.weather_available == r.weather is Some,
        r.weather is None <==> match outcome {
            Err(_) => true,
            Ok(raw) => window_indices(raw.periods@, plan.start, plan.end).len() == 0,
        },
        r.weather matches Some(w) ==> outcome matches Ok(raw) && weather_v2_holds(
            w,
            &raw,
            signals@,
            plan.start,
            plan.end,
            plan.offset,
        ),
{
    let weather: Option<WeatherV2> = match &outcome {
        Ok(raw) => build_weather_v2(raw, plan.start, plan.end, plan.offset, &signals),
        Err(_) => None,
    };
    let ServePlan { id, start_text, end_text, meeting, trails, map, start, end, offset } = plan;
    let weather_available: bool = weather.is_some();
    HikeResponseV2 {
        id,
        start: start_text,
        end: end_text,
        meeting_point: meeting,
        trails,
        map,
        weather_available,
        weather,
    }
}

// ---------------------------------------------------------------------------
// GET /hike/{id} under version 3
// ---------------------------------------------------------------------------

/// A version 3 window read from the query: the start instant (UTC) and the
/// offset it was written in, then the same for the end.
pub type QueryWindow = (Instant, i32, Instant, i32);

/// The window version 3 takes from the `start` and `end` query parameters.
/// Every other version ignores them. Both must be present (`start` is checked
/// first), both RFC 3339, and `end` strictly after `start`.
pub open spec fn window_reading(
    version: ApiVersion,
    start: Option<Seq<char>>,
    end: Option<Seq<char>>,
) -> Result<Option<QueryWindow>, Seq<char>> {
    if version != ApiVersion::V3 {
        Ok(None)
    } else {
        match start {
            None => Err("start query parameter is required"@),
            Some(s) => match end {
                None => Err("end query parameter is required"@),
                Some(e) => match rfc3339_reading(s) {
                    None => Err("start is not a valid RFC 3339 timestamp"@),
                    Some((ss, sn, so)) => match rfc3339_reading(e) {
                        None => Err("end is not a valid RFC 3339 timestamp"@),
                        Some((es, en, eo)) => if before(Instant { secs: ss, nanos: sn }, Instant { secs: es, nanos: en }) {
                            Ok(Some((Instant { secs: ss, nanos: sn }, so, Instant { secs: es, nanos: en }, eo)))
                        } else {
                            Err("end must be after start"@)
                        },
                    },
                },
            },
        }
    }
}

/// Parses the `start`/`end` query parameters `GET /hike/{id}` accepts under
/// version 3, returning `Ok(None)` for every other version without reading
/// them at all.
pub fn parse_window(version: ApiVersion, start: Option<&str>, end: Option<&str>) -> (r: Result<Option<QueryWindow>, String>)
    ensures
        match (r, window_reading(version, header_text(start), header_text(end))) {
            (Ok(w), Ok(expected)) => w == expected,
            (Err(m), Err(why)) => m@ == why,
            _ => false,
        },
        r matches Ok(Some(w)) ==> valid_instant(w.0) && valid_offset(w.1 as int) && valid_instant(w.2) && valid_offset(
            w.3 as int,
        ),
{
    if version != ApiVersion::V3 {
        return Ok(None);
    }
    let start: &str = match start {
        None => return Err(owned("start query parameter is required")),
        Some(s) => s,
    };
    let end: &str = match end {
        None => return Err(owned("end query parameter is required")),
        Some(e) => e,
    };
    let (start_at, start_offset): (Instant, i32) = match parse_rfc3339(start) {
        None => return Err(owned("start is not a valid RFC 3339 timestamp")),
        Some(parsed) => parsed,
    };
    let (end_at, end_offset): (Instant, i32) = match parse_rfc3339(end) {
        None => return Err(owned("end is not a valid RFC 3339 timestamp")),
        Some(parsed) => parsed,
    };
    if !is_before(start_at, end_at) {
        return Err(owned("end must be after start"));
    }
    Ok(Some((start_at, start_offset, end_at, end_offset)))
}

/// Everything a version 3 response needs besides the weather.
pub struct PlanV3 {
    pub id: String,
    pub meeting: MeetingCoords,
    pub trails: Vec<String>,
    /// The signed map, or `None` when the map object does not exist.
    pub map: Option<MapRef>,
    /// The window's start, UTC.
    pub start: Instant,
    /// The window's end, UTC.
    pub end: Instant,
    /// The UTC offset the query's `start` was written in.
    pub offset: i32,
}

/// The next step of a version 3 assembly after the map.
pub enum StepV3 {
    /// The request fails with this detail.
    Failed(String),
    /// Ask the weather source for the forecast of this plan's window.
    Forecast(PlanV3),
}

/// An optional presigned map as the response carries it.
pub open spec fn opt_map_view(map: Option<MapRef>) -> Option<(Seq<char>, Seq<char>)> {
    match map {
        Some(m) => Some(map_view(m)),
        None => None,
    }
}

/// The signed map answer as the response carries it: the URL and the expiry
/// in RFC 3339, UTC.
pub open spec fn signed_view(map: Option<(String, Instant)>) -> Option<(Seq<char>, Seq<char>)> {
    match map {
        Some((url, expires)) => Some((url@, rfc3339_writing(expires.secs, expires.nanos, 0))),
        None => None,
    }
}

/// The second step under version 3, on the store's answer to presigning the
/// map and the query window. A presign failure fails the request; an absent
/// map is no failure (the response says so beside `map_available`); a missing
/// window fails the request; otherwise the plan goes on to the forecast, with
/// the offset of the query's `start`.
pub fn on_presigned_v3(
    record: HikeRecord,
    window: Option<QueryWindow>,
    outcome: Result<Option<(String, Instant)>, String>,
) -> (step: StepV3)
    requires
        outcome matches Ok(Some((_, expires))) ==> valid_instant(expires),
        window matches Some(w) ==> valid_instant(w.0) && valid_offset(w.1 as int),
    ensures
        match outcome {
            Err(e) => step matches StepV3::Failed(m) && m@ == e@,
            Ok(map) => match window {
                None => step matches StepV3::Failed(m) && m@ == "start and end query parameters are required"@,
                Some((start, offset, end, _)) => step matches StepV3::Forecast(plan) && {
                    &&& plan.id == record.id
                    &&& plan.meeting == record.meeting
                    &&& plan.trails == record.trails
                    &&& opt_map_view(plan.map) == signed_view(map)
                    &&& plan.start == start
                    &&& plan.end == end
                    &&& plan.offset == offset
                    &&& valid_instant(plan.start)
                    &&& valid_offset(plan.offset as int)
                },
            },
        },
{
    let map: Option<(String, Instant)> = match outcome {
        Err(e) => return StepV3::Failed(e),
        Ok(map) => map,
    };
    let map: Option<MapRef> = match map {
        Some((url, expires)) => Some(MapRef { url, expires_at: rfc3339_text(expires, 0) }),
        None => None,
    };
    let (start, offset, end, _): QueryWindow = match window {
        None => return StepV3::Failed(owned("start and end query parameters are required")),
        Some(w) => w,
    };
    let HikeRecord { id, start: _, end: _, meeting, trails, map_key: _ } = record;
    StepV3::Forecast(PlanV3 { id, meeting, trails, map, start, end, offset })
}

/// The last step under version 3, on the weather source's answer: the
/// version 3 response. `map_available` says whether the map is there; weather
/// degrades the same way as under version 2.
pub fn on_forecast_v3(plan: PlanV3, outcome: Result<RawForecast, String>, signals: Vec<PeriodSignals>) -> (r: HikeResponseV3)
    requires
        valid_instant(plan.start),
        valid_offset(plan.offset as int),
        outcome matches Ok(raw) ==> signals_fit(raw.periods@, signals@) && valid_periods(raw.periods@),
    ensures
        r.id == plan.id,
        r.meeting_point == plan.meeting,
        r.trails == plan.trails,
        r.map == plan.map,
        r.map_available == plan.map is Some,
        r.weather_available == r.weather is Some,
        r.weather is None <==> match outcome {
            Err(_) => true,
            Ok(raw) => window_indices(raw.periods@, plan.start, plan.end).len() == 0,
        },
        r.weather matches Some(w) ==> outcome matches Ok(raw) && weather_v3_holds(
            w,
            &raw,
            signals@,
            plan.start,
            plan.end,
            plan.offset,
        ),
{
    let weather: Option<WeatherV3> = match &outcome {
        Ok(raw) => build_weather_v3(raw, plan.start, plan.end, plan.offset, &signals),
        Err(_) => None,
    };
    let PlanV3 { id, meeting, trails, map, start, end, offset } = plan;
    let map_available: bool = map.is_some();
    let weather_available: bool = weather.is_some();
    HikeResponseV3 { id, meeting_point: meeting, trails, map, map_available, weather_available, weather }
}

/// Texts joined with a comma between each consecutive pair, read from the
/// front.
pub open spec fn comma_joined(parts: Seq<Seq<char>>) -> Seq<char>
    decreases parts.len(),
{
    if parts.len() == 0 {
        Seq::empty()
    } else if parts.len() == 1 {
        parts[0]
    } else {
        parts[0] + ","@ + comma_joined(parts.drop_first())
    }
}

proof fn lemma_comma_joined_push(parts: Seq<Seq<char>>, last: Seq<char>)
    requires
        parts.len() > 0,
    ensures
        comma_joined(parts.push(last)) == comma_joined(parts) + ","@ + last,
    decreases parts.len(),
{
    let whole = parts.push(last);
    assert(whole[0] == parts[0]);
    if parts.len() == 1 {
        assert(whole.drop_first() =~= seq![last]);
        assert(comma_joined(whole.drop_first()) == last);
        assert(comma_joined(whole) =~= comma_joined(parts) + ","@ + last);
    } else {
        lemma_comma_joined_push(parts.drop_first(), last);
        assert(whole.drop_first() =~= parts.drop_first().push(last));
        assert(comma_joined(whole) =~= comma_joined(parts) + ","@ + last);
    }
}

/// The location body is a JSON array with one object per stored location, in
/// stored order: `[`, the objects with exactly one comma between each
/// consecutive pair, `]`.
pub proof fn lemma_locations_json_is_a_comma_separated_array(list: Seq<HikeLocation>)
    ensures
        locations_json(list) == "["@ + comma_joined(list.map_values(|l: HikeLocation| location_json(l))) + "]"@,
    decreases list.len(),
{
    lemma_entries_are_comma_joined(list);
}

proof fn lemma_entries_are_comma_joined(list: Seq<HikeLocation>)
    ensures
        location_entries_json(list) == comma_joined(list.map_values(|l: HikeLocation| location_json(l))),
    decreases list.len(),
{
    let f = |l: HikeLocation| location_json(l);
    if list.len() == 0 {
        assert(list.map_values(f) =~= Seq::<Seq<char>>::empty());
    } else if list.len() == 1 {
        assert(list.map_values(f) =~= seq![location_json(list[0])]);
    } else {
        lemma_entries_are_comma_joined(list.drop_last());
        assert(list.map_values(f) =~= list.drop_last().map_values(f).push(location_json(list.last())));
        lemma_comma_joined_push(list.drop_last().map_values(f), location_json(list.last()));
    }
}

} // verus!
