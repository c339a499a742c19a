//! API versioning through the `x-api-version` request header: the version
//! registry, parsing a header against it, and each version's status at a
//! supplied instant.
use vstd::prelude::*;
use crate::time::{Instant, before, parse_rfc2822, rfc2822_reading, is_before};

verus! {

/// Request header carrying the API version. Parallels `x-api-key`.
pub const API_VERSION_HEADER: &'static str = "x-api-version";

/// The sunset date of version 1, as an RFC 8594 `Sunset` header value.
pub const V1_SUNSET: &'static str = "Thu, 20 Aug 2026 00:00:00 GMT";

/// The API versions the system has response shapes for. Version 3's shape
/// (a query window, a nullable map, conditions at both ends) is built, but the
/// version is not in the registry yet, so a header naming it is still refused.
#[derive(Clone, Copy, Debug, PartialEq, Eq, Structural)]
pub enum ApiVersion {
    V1,
    V2,
    V3,
}

/// Where a version stands at a given instant.
#[derive(Clone, Copy, Debug, PartialEq, Eq)]
pub enum Status {
    Current,
    Deprecated { sunset: &'static str },
    Sunset { sunset: &'static str },
}

/// The version registry, in order: every version the system knows. A version
/// stays here after its response shape is removed, so a request naming it is
/// answered 410 rather than the 400 given to a version that never existed.
pub open spec fn registry() -> Seq<ApiVersion> {
    seq![ApiVersion::V1, ApiVersion::V2]
}

/// The header value that names a version.
pub open spec fn version_label(v: ApiVersion) -> &'static str {
    match v {
        ApiVersion::V1 => "1",
        ApiVersion::V2 => "2",
        ApiVersion::V3 => "3",
    }
}

/// A version's sunset date, or `None` while it is current.
pub open spec fn sunset_date(v: ApiVersion) -> Option<&'static str> {
    match v {
        ApiVersion::V1 => Some(V1_SUNSET),
        ApiVersion::V2 => None,
        ApiVersion::V3 => None,
    }
}

/// The registry, as a vector.
fn registry_versions() -> (r: Vec<ApiVersion>)
    ensures
        r@ == registry(),
{
    let mut r: Vec<ApiVersion> = Vec::new();
    r.push(ApiVersion::V1);
    r.push(ApiVersion::V2);
    assert(r@ =~= registry());
    r
}

/// The header value that names a version.
pub fn label(v: ApiVersion) -> (r: &'static str)
    ensures
        r == version_label(v),
{
    match v {
        ApiVersion::V1 => "1",
        ApiVersion::V2 => "2",
        ApiVersion::V3 => "3",
    }
}

/// The first version in `versions` whose label is `header`.
pub open spec fn find_label(versions: Seq<ApiVersion>, header: Seq<char>) -> Option<ApiVersion>
    decreases versions.len(),
{
    if versions.len() == 0 {
        None
    } else if version_label(versions[0])@ == header {
        Some(versions[0])
    } else {
        find_label(versions.drop_first(), header)
    }
}

/// The version a header names: the registry entry carrying that label. A
/// missing header and an unknown label both fail.
pub open spec fn parsed_version(header: Option<Seq<char>>) -> Result<ApiVersion, ()> {
    match header {
        None => Err(()),
        Some(h) => match find_label(registry(), h) {
            Some(v) => Ok(v),
            None => Err(()),
        },
    }
}

/// The registry entry whose label is `h`, searching in registry order.
fn find_version(h: &str) -> (r: Option<ApiVersion>)
    ensures
        r == find_label(registry(), h@),
{
    let versions: Vec<ApiVersion> = registry_versions();
    let mut i: usize = 0;
    assert(registry().subrange(0, 2) =~= registry());
    while i < versions.len()
        invariant
            versions@ == registry(),
            i <= versions@.len(),
            find_label(registry(), h@) == find_label(registry().subrange(i as int, 2), h@),
        decreases versions.len() - i,
    {
        let v: ApiVersion = versions[i];
        assert(registry().subrange(i as int, 2).drop_first() =~= registry().subrange(i + 1, 2));
        assert(registry().subrange(i as int, 2)[0] == v);
        let name: &'static str = label(v);
        if *name == *h {
            return Some(v);
        }
        i = i + 1;
    }
    None
}

/// Resolves the requested version from the raw header value. A missing header,
/// an unknown version and a non-integer are all `Err`, which callers map to 400.
pub fn parse_version(header: Option<&str>) -> (r: Result<ApiVersion, ()>)
    ensures
        r == parsed_version(
            match header {
                Some(h) => Some(h@),
                None => None,
            },
        ),
{
    match header {
        None => Err(()),
        Some(h) => match find_version(h) {
            Some(v) => Ok(v),
            None => Err(()),
        },
    }
}

/// The registry's sunset date for a version, or `None` if it has none.
pub fn sunset(version: ApiVersion) -> (r: Option<&'static str>)
    ensures
        r == sunset_date(version),
{
    match version {
        ApiVersion::V1 => Some(V1_SUNSET),
        ApiVersion::V2 => None,
        ApiVersion::V3 => None,
    }
}

/// A version's status at `now`: current without a date; sunset once its date
/// is at or before `now`; deprecated before that. A date that does not parse
/// counts as no date at all.
pub open spec fn status_at(v: ApiVersion, now: Instant) -> Status {
    match sunset_date(v) {
        None => Status::Current,
        Some(date) => match rfc2822_reading(date@) {
            Some((secs, nanos)) => if !before(now, Instant { secs, nanos }) {
                Status::Sunset { sunset: date }
            } else {
                Status::Deprecated { sunset: date }
            },
            None => Status::Current,
        },
    }
}

/// A version's status against a supplied `now`, so sunset enforcement runs
/// without the runtime clock.
pub fn status(version: ApiVersion, now: Instant) -> (r: Status)
    ensures
        r == status_at(version, now),
{
    match sunset(version) {
        None => Status::Current,
        Some(date) => match parse_rfc2822(date) {
            Some(d) => if !is_before(now, d) {
                Status::Sunset { sunset: date }
            } else {
                Status::Deprecated { sunset: date }
            },
            None => Status::Current,
        },
    }
}

/// The labels of the versions in `versions` that are not past their sunset
/// at `now`, in order.
pub open spec fn live_labels(versions: Seq<ApiVersion>, now: Instant) -> Seq<&'static str>
    decreases versions.len(),
{
    if versions.len() == 0 {
        Seq::empty()
    } else {
        let rest = live_labels(versions.drop_first(), now);
        if status_at(versions[0], now) is Sunset {
            rest
        } else {
            seq![version_label(versions[0])] + rest
        }
    }
}

/// The header values of every version not past its sunset, in registry order.
pub fn live_versions(now: Instant) -> (r: Vec<&'static str>)
    ensures
        r@ == live_labels(registry(), now),
{
    let versions: Vec<ApiVersion> = registry_versions();
    let mut r: Vec<&'static str> = Vec::new();
    let mut i: usize = 0;
    assert(registry().subrange(0, 2) =~= registry());
    assert(live_labels(registry(), now) =~= r@ + live_labels(registry().subrange(0, 2), now));
    while i < versions.len()
        invariant
            versions@ == registry(),
            i <= versions@.len(),
            live_labels(registry(), now) == r@ + live_labels(registry().subrange(i as int, 2), now),
        decreases versions.len() - i,
    {
        let v: ApiVersion = versions[i];
        assert(registry().subrange(i as int, 2).drop_first() =~= registry().subrange(i + 1, 2));
        assert(registry().subrange(i as int, 2)[0] == v);
        match status(v, now) {
            Status::Sunset { .. } => {},
            _ => {
                r.push(label(v));
            },
        }
        assert(live_labels(registry(), now) =~= r@ + live_labels(registry().subrange(i + 1, 2), now));
        i = i + 1;
    }
    assert(registry().subrange(2, 2) =~= Seq::<ApiVersion>::empty());
    assert(r@ =~= live_labels(registry(), now));
    r
}

/// Texts joined with a separator between consecutive ones.
pub open spec fn joined(parts: Seq<&'static str>, sep: Seq<char>) -> Seq<char>
    decreases parts.len(),
{
    if parts.len() == 0 {
        Seq::empty()
    } else if parts.len() == 1 {
        parts[0]@
    } else {
        joined(parts.drop_last(), sep) + sep + parts.last()@
    }
}

/// The 410 body for a version past its sunset at `now`: the version, its date,
/// and the versions still served.
pub open spec fn gone_text(v: ApiVersion, now: Instant) -> Option<Seq<char>> {
    match status_at(v, now) {
        Status::Sunset { sunset } => Some(
            "api version "@ + version_label(v)@ + " was sunset on "@ + sunset@
                + "; supported versions: "@ + joined(live_labels(registry(), now), ", "@),
        ),
        _ => None,
    }
}

/// Appends the labels joined by `, `.
fn push_joined(out: &mut String, parts: &Vec<&'static str>)
    ensures
        final(out)@ == old(out)@ + joined(parts@, ", "@),
{
    let mut i: usize = 0;
    while i < parts.len()
        invariant
            i <= parts@.len(),
            out@ == old(out)@ + joined(parts@.subrange(0, i as int), ", "@),
        decreases parts.len() - i,
    {
        let ghost prev = out@;
        if i > 0 {
            out.push_str(", ");
        }
        out.push_str(parts[i]);
        proof {
            let now_parts = parts@.subrange(0, i + 1);
            assert(now_parts.drop_last() =~= parts@.subrange(0, i as int));
            if i == 0 {
                assert(parts@.subrange(0, 0) =~= Seq::<&'static str>::empty());
                assert(out@ =~= old(out)@ + joined(now_parts, ", "@));
            } else {
                assert(out@ =~= old(out)@ + joined(now_parts, ", "@));
            }
        }
        i = i + 1;
    }
    assert(parts@.subrange(0, parts@.len() as int) =~= parts@);
}

/// The 410 body for a version past its sunset, or `None` while it is still
/// served. It names the version, its date, and what to ask for instead.
pub fn gone_body(version: ApiVersion, now: Instant) -> (r: Option<String>)
    ensures
        match (r, gone_text(version, now)) {
            (Some(body), Some(text)) => body@ == text,
            (None, None) => true,
            _ => false,
        },
{
    let date: &'static str = match status(version, now) {
        Status::Sunset { sunset } => sunset,
        _ => return None,
    };
    let mut body: String = String::new();
    body.push_str("api version ");
    body.push_str(label(version));
    body.push_str(" was sunset on ");
    body.push_str(date);
    body.push_str("; supported versions: ");
    let live: Vec<&'static str> = live_versions(now);
    push_joined(&mut body, &live);
    Some(body)
}

/// Every registered version is named by its own label: parsing a version's
/// label gives that version back, at any time, sunset or not.
pub proof fn lemma_label_parses_to_its_version(v: ApiVersion)
    requires
        registry().contains(v),
    ensures
        parsed_version(Some(version_label(v)@)) == Ok::<ApiVersion, ()>(v),
{
    reveal_strlit("1");
    reveal_strlit("2");
    assert(registry().drop_first() =~= seq![ApiVersion::V2]);
    assert(seq![ApiVersion::V2].drop_first() =~= Seq::<ApiVersion>::empty());
    assert("1"@ != "2"@) by {
        assert("1"@[0] != "2"@[0]);
    }
    let tail = registry().drop_first();
    assert(find_label(tail.drop_first(), "2"@) == None::<ApiVersion>);
    assert(find_label(tail, "2"@) == Some(ApiVersion::V2));
    assert(find_label(registry(), "2"@) == Some(ApiVersion::V2));
    assert(find_label(registry(), "1"@) == Some(ApiVersion::V1));
}

/// Sunset is final: a version that is sunset at some instant is sunset at
/// every later instant.
pub proof fn lemma_sunset_is_final(v: ApiVersion, earlier: Instant, later: Instant)
    requires
        status_at(v, earlier) is Sunset,
        !before(later, earlier),
    ensures
        status_at(v, later) is Sunset,
{
}

/// A version without a sunset date is current at every instant.
pub proof fn lemma_undated_is_current(v: ApiVersion, now: Instant)
    requires
        sunset_date(v) is None,
    ensures
        status_at(v, now) == Status::Current,
{
}

/// The labels live at `now` among `versions` are labels of those versions
/// that are not sunset.
proof fn lemma_live_labels_are_live(versions: Seq<ApiVersion>, now: Instant, i: int)
    requires
        0 <= i < live_labels(versions, now).len(),
    ensures
        exists|j: int|
            0 <= j < versions.len() && !(status_at(versions[j], now) is Sunset)
                && version_label(versions[j]) == live_labels(versions, now)[i],
    decreases versions.len(),
{
    let rest = live_labels(versions.drop_first(), now);
    if status_at(versions[0], now) is Sunset {
        lemma_live_labels_are_live(versions.drop_first(), now, i);
        let j = choose|j: int|
            0 <= j < versions.drop_first().len() && !(status_at(versions.drop_first()[j], now) is Sunset)
                && version_label(versions.drop_first()[j]) == rest[i];
        assert(versions[j + 1] == versions.drop_first()[j]);
    } else if i == 0 {
        assert(live_labels(versions, now)[0] == version_label(versions[0]));
    } else {
        assert(live_labels(versions, now)[i] == rest[i - 1]);
        lemma_live_labels_are_live(versions.drop_first(), now, i - 1);
        let j = choose|j: int|
            0 <= j < versions.drop_first().len() && !(status_at(versions.drop_first()[j], now) is Sunset)
                && version_label(versions.drop_first()[j]) == rest[i - 1];
        assert(versions[j + 1] == versions.drop_first()[j]);
    }
}

/// The 410 body never offers the version it turns away: a sunset version's
/// label is not among the supported versions it lists.
pub proof fn lemma_gone_version_is_not_offered(v: ApiVersion, now: Instant)
    requires
        status_at(v, now) is Sunset,
    ensures
        !live_labels(registry(), now).contains(version_label(v)),
{
    reveal_strlit("1");
    reveal_strlit("2");
    assert("1"@[0] != "2"@[0]);
    if live_labels(registry(), now).contains(version_label(v)) {
        let i = choose|i: int|
            0 <= i < live_labels(registry(), now).len() && live_labels(registry(), now)[i] == version_label(v);
        lemma_live_labels_are_live(registry(), now, i);
        let j = choose|j: int|
            0 <= j < registry().len() && !(status_at(registry()[j], now) is Sunset)
                && version_label(registry()[j]) == live_labels(registry(), now)[i];
        assert(version_label(registry()[j])@ == version_label(v)@);
        assert(registry()[j] == v);
    }
}

} // verus!
