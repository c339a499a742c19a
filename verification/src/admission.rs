//! Admission of a request to a data endpoint, in its load-bearing order, and
//! the headers and error replies around a served response.
use vstd::prelude::*;
use crate::auth::is_authorized;
use crate::models::owned;
use crate::time::Instant;
use crate::version::{ApiVersion, gone_body, gone_text, parse_version, parsed_version, sunset, sunset_date, status_at};

verus! {

/// The OpenAPI document, as the `Link` header of a deprecated version names it.
pub const DEPRECATION_LINK: &'static str = "<https://hike-club-api.scondon87.workers.dev/openapi.yaml>; rel=\"deprecation\"";

/// A header value as text, if present.
pub open spec fn header_text(h: Option<&str>) -> Option<Seq<char>> {
    match h {
        Some(s) => Some(s@),
        None => None,
    }
}

/// Version negotiation: a missing or unknown version is 400; a version past its
/// sunset is 410 with the body naming it; otherwise the version is served.
pub open spec fn negotiated(header: Option<Seq<char>>, now: Instant) -> Result<ApiVersion, (u16, Seq<char>)> {
    match parsed_version(header) {
        Err(_) => Err((400, "unsupported api version"@)),
        Ok(v) => match gone_text(v, now) {
            Some(body) => Err((410, body)),
            None => Ok(v),
        },
    }
}

/// A rejection as status and body text.
pub open spec fn rejection_view(r: Result<ApiVersion, (u16, String)>) -> Result<ApiVersion, (u16, Seq<char>)> {
    match r {
        Ok(v) => Ok(v),
        Err((status, body)) => Err((status, body@)),
    }
}

/// Reads and validates the `x-api-version` header against the registry and
/// the supplied clock. The 410 carries no `Sunset` header: the sunset is the
/// whole message and it is spelled out in the body.
pub fn negotiate_version(header: Option<&str>, now: Instant) -> (r: Result<ApiVersion, (u16, String)>)
    ensures
        rejection_view(r) == negotiated(header_text(header), now),
{
    let version: ApiVersion = match parse_version(header) {
        Ok(v) => v,
        Err(()) => return Err((400, owned("unsupported api version"))),
    };
    match gone_body(version, now) {
        Some(body) => Err((410, body)),
        None => Ok(version),
    }
}

/// Admission, in order: the method (only `GET` is served), then the server's
/// own key (a worker with no key configured admits nothing), then the
/// client's key (missing and wrong are the same 401), then the version.
pub open spec fn admission(
    is_get: bool,
    api_key: Option<Seq<char>>,
    provided: Option<Seq<char>>,
    version_header: Option<Seq<char>>,
    now: Instant,
) -> Result<ApiVersion, (u16, Seq<char>)> {
    if !is_get {
        Err((405, "method not allowed"@))
    } else {
        match api_key {
            None => Err((500, "server misconfigured: API_KEY not set"@)),
            Some(key) => if !(provided matches Some(p) && p == key) {
                Err((401, "unauthorized"@))
            } else {
                negotiated(version_header, now)
            },
        }
    }
}

/// Admits a request to `GET /hike/{id}` or `GET /hike-locations`, or says
/// what to answer instead. `api_key` is the configured secret, when it could
/// be read.
pub fn admit_request(
    is_get: bool,
    api_key: Option<&str>,
    provided: Option<&str>,
    version_header: Option<&str>,
    now: Instant,
) -> (r: Result<ApiVersion, (u16, String)>)
    ensures
        rejection_view(r) == admission(is_get, header_text(api_key), header_text(provided), header_text(version_header), now),
{
    if !is_get {
        return Err((405, owned("method not allowed")));
    }
    let expected: &str = match api_key {
        None => return Err((500, owned("server misconfigured: API_KEY not set"))),
        Some(k) => k,
    };
    if !is_authorized(provided, expected) {
        return Err((401, owned("unauthorized")));
    }
    negotiate_version(version_header, now)
}

/// Routing comes before authentication: a request under another method is
/// answered 405 whatever key and version it carries.
pub proof fn lemma_method_decides_first(
    api_key: Option<Seq<char>>,
    provided: Option<Seq<char>>,
    version_header: Option<Seq<char>>,
    now: Instant,
)
    ensures
        admission(false, api_key, provided, version_header, now) == Err::<ApiVersion, (u16, Seq<char>)>((405, "method not allowed"@)),
{
}

/// Authorization comes before version negotiation: a request without the
/// configured key is answered 401 whatever version it names.
pub proof fn lemma_key_before_version(
    key: Seq<char>,
    provided: Option<Seq<char>>,
    version_header: Option<Seq<char>>,
    now: Instant,
)
    requires
        !(provided matches Some(p) && p == key),
    ensures
        admission(true, Some(key), provided, version_header, now) == Err::<ApiVersion, (u16, Seq<char>)>((401, "unauthorized"@)),
{
}

/// A version past its sunset is never admitted: it is answered 410.
pub proof fn lemma_sunset_version_is_gone(
    key: Seq<char>,
    version_header: Option<Seq<char>>,
    now: Instant,
    v: ApiVersion,
)
    requires
        parsed_version(version_header) == Ok::<ApiVersion, ()>(v),
        status_at(v, now) is Sunset,
    ensures
        admission(true, Some(key), Some(key), version_header, now) matches Err((status, _)) && status == 410,
{
}

/// The deprecation headers a served version carries: `Deprecation`, `Sunset`
/// with the registry's date and `Link` to the OpenAPI document when the
/// version has a sunset date; none for a current version.
pub open spec fn deprecation_headers_of(v: ApiVersion) -> Seq<(Seq<char>, Seq<char>)> {
    match sunset_date(v) {
        Some(date) => seq![("Deprecation"@, "true"@), ("Sunset"@, date@), ("Link"@, DEPRECATION_LINK@)],
        None => Seq::empty(),
    }
}

/// Header pairs as texts.
pub open spec fn headers_view(h: Seq<(String, String)>) -> Seq<(Seq<char>, Seq<char>)> {
    h.map_values(|p: (String, String)| (p.0@, p.1@))
}

/// The RFC 8594 headers to stamp on a successful response for `version`.
pub fn deprecation_headers(version: ApiVersion) -> (h: Vec<(String, String)>)
    ensures
        headers_view(h@) == deprecation_headers_of(version),
{
    let mut h: Vec<(String, String)> = Vec::new();
    if let Some(date) = sunset(version) {
        h.push((owned("Deprecation"), owned("true")));
        h.push((owned("Sunset"), owned(date)));
        h.push((owned("Link"), owned(DEPRECATION_LINK)));
    }
    assert(headers_view(h@) =~= deprecation_headers_of(version));
    h
}

/// What a failed assembly answers: 404 for no such hike, 502 with the detail
/// for anything else; `None` when there is a response to serve.
pub open spec fn hike_failure_of<T>(outcome: Result<Option<T>, Seq<char>>) -> Option<(u16, Seq<char>)> {
    match outcome {
        Ok(Some(_)) => None,
        Ok(None) => Some((404, "hike not found"@)),
        Err(e) => Some((502, "upstream error: "@ + e)),
    }
}

/// The error reply for an assembly outcome, or `None` when it is a response.
pub fn hike_failure<T>(outcome: &Result<Option<T>, String>) -> (r: Option<(u16, String)>)
    ensures
        match r {
            Some((status, body)) => hike_failure_of(
                match outcome {
                    Ok(x) => Ok(*x),
                    Err(e) => Err(e@),
                },
            ) == Some((status, body@)),
            None => outcome matches Ok(Some(_)),
        },
{
    match outcome {
        Ok(Some(_)) => None,
        Ok(None) => Some((404, owned("hike not found"))),
        Err(e) => {
            let mut body: String = owned("upstream error: ");
            body.push_str(e.as_str());
            Some((502, body))
        },
    }
}

/// The reply when configuration or a binding cannot be resolved.
pub fn misconfigured(detail: &str) -> (r: (u16, String))
    ensures
        r.0 == 500,
        r.1@ == "server misconfigured: "@ + detail@,
{
    let mut body: String = owned("server misconfigured: ");
    body.push_str(detail);
    (500, body)
}

} // verus!
