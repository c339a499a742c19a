//! Weather-block assembly: narrowing the full hourly forecast to a hike's
//! window, the derived signals and alerts, and precipitation timing over the
//! hike's local calendar day.
use vstd::prelude::*;
use vstd::multiset::Multiset;
use crate::float::{BITS_3, BITS_32, BITS_50, BITS_80, BITS_85, FloatBits, float_is_nan, float_le, float_lt, is_nan, le, lt};
use crate::models::{Alert, Precipitation, PrecipitationV2, Weather, WeatherV2, WeatherV3, owned};
use crate::strings::{decimal, push_decimal};
use crate::time::{
    Instant, instant_checked, before, utc_formatting, utc_strftime, is_before, local_day, local_day_of, parse_rfc3339, rfc3339_reading, rfc3339_text,
    rfc3339_writing, valid_instant, valid_offset,
};
use crate::strings::unicode_white_space;

verus! {

/// One hourly NWS forecast period, parsed down to what the builders use.
pub struct RawPeriod {
    pub start: Instant,
    pub end: Instant,
    pub temp_f: FloatBits,
    pub humidity_pct: Option<FloatBits>,
    pub wind_mph: Option<FloatBits>,
    pub precip_prob_pct: u8,
    pub short_forecast: String,
}

/// An active NWS watch, warning or advisory with its validity window; a
/// missing bound is open-ended.
pub struct RawAlert {
    pub event: String,
    pub onset: Option<Instant>,
    pub ends: Option<Instant>,
}

/// The full hourly forecast for a point, unfiltered, and its active alerts.
pub struct RawForecast {
    pub periods: Vec<RawPeriod>,
    pub alerts: Vec<RawAlert>,
}

/// A derived reading (heat index or wind chill): its value and its text
/// rounded to a whole number, as alert messages print it.
pub struct Reading {
    pub value: FloatBits,
    pub whole: String,
}

/// The derived readings of one period, computed by the NWS formulas outside
/// the library: the heat index from the period's temperature and humidity,
/// the wind chill from its temperature and wind speed.
pub struct PeriodSignals {
    pub heat_index: Option<Reading>,
    pub wind_chill: Option<Reading>,
}

/// Every period's instants are representable.
pub open spec fn valid_periods(periods: Seq<RawPeriod>) -> bool {
    forall|i: int| 0 <= i < periods.len() ==> valid_instant(#[trigger] periods[i].start) && valid_instant(periods[i].end)
}

/// One signal record per period, each present exactly when its inputs are:
/// a heat index when there is a humidity reading, a wind chill when there is a
/// wind reading.
pub open spec fn signals_fit(periods: Seq<RawPeriod>, signals: Seq<PeriodSignals>) -> bool {
    &&& signals.len() == periods.len()
    &&& forall|i: int| 0 <= i < periods.len() ==> {
        &&& (#[trigger] signals[i].heat_index is Some <==> periods[i].humidity_pct is Some)
        &&& (signals[i].wind_chill is Some <==> periods[i].wind_mph is Some)
    }
}

// ---------------------------------------------------------------------------
// The hike window
// ---------------------------------------------------------------------------

/// A period lies within a hike window when it starts before the hike ends and
/// ends after the hike starts.
pub open spec fn in_window(p: RawPeriod, start: Instant, end: Instant) -> bool {
    before(p.start, end) && before(start, p.end)
}

/// The positions, in order, of the periods among the first `n` that lie within
/// the window.
pub open spec fn window_upto(periods: Seq<RawPeriod>, start: Instant, end: Instant, n: nat) -> Seq<usize>
    decreases n,
{
    if n == 0 {
        Seq::empty()
    } else {
        let w = window_upto(periods, start, end, (n - 1) as nat);
        if in_window(periods[n - 1], start, end) {
            w.push((n - 1) as usize)
        } else {
            w
        }
    }
}

/// The positions, in order, of the periods that lie within the window.
pub open spec fn window_indices(periods: Seq<RawPeriod>, start: Instant, end: Instant) -> Seq<usize> {
    window_upto(periods, start, end, periods.len())
}

/// Window positions are positions of periods, each within the window.
pub proof fn lemma_window_upto_bounds(periods: Seq<RawPeriod>, start: Instant, end: Instant, n: nat)
    requires
        n <= usize::MAX,
    ensures
        forall|k: int| 0 <= k < window_upto(periods, start, end, n).len() ==> {
            &&& #[trigger] window_upto(periods, start, end, n)[k] < n
            &&& in_window(periods[window_upto(periods, start, end, n)[k] as int], start, end)
        },
        window_upto(periods, start, end, n).len() <= n,
    decreases n,
{
    if n > 0 {
        lemma_window_upto_bounds(periods, start, end, (n - 1) as nat);
        let prev = window_upto(periods, start, end, (n - 1) as nat);
        let cur = window_upto(periods, start, end, n);
        assert forall|k: int| 0 <= k < cur.len() implies #[trigger] cur[k] < n && in_window(
            periods[cur[k] as int],
            start,
            end,
        ) by {
            if k < prev.len() {
                assert(cur[k] == prev[k]);
            } else {
                assert(cur[k] == (n - 1) as usize);
            }
        }
    }
}

/// Positions of the periods overlapping `[start, end]`, in forecast order.
fn periods_in_window(periods: &Vec<RawPeriod>, start: Instant, end: Instant) -> (w: Vec<usize>)
    ensures
        w@ == window_indices(periods@, start, end),
{
    let mut w: Vec<usize> = Vec::new();
    let mut i: usize = 0;
    while i < periods.len()
        invariant
            i <= periods@.len(),
            w@ == window_upto(periods@, start, end, i as nat),
        decreases periods.len() - i,
    {
        let p: &RawPeriod = &periods[i];
        if is_before(p.start, end) && is_before(start, p.end) {
            w.push(i);
        }
        i = i + 1;
    }
    w
}

// ---------------------------------------------------------------------------
// Derived signals over a set of periods
// ---------------------------------------------------------------------------

/// The highest precipitation probability among the given periods, 0 for none.
pub open spec fn max_precip(periods: Seq<RawPeriod>, w: Seq<usize>) -> u8
    decreases w.len(),
{
    if w.len() == 0 {
        0
    } else {
        let m = max_precip(periods, w.drop_last());
        let p = periods[w.last() as int].precip_prob_pct;
        if p > m {
            p
        } else {
            m
        }
    }
}

/// A period's heat index counts when it is at or above 80°F and carries a
/// humidity reading.
pub open spec fn heat_candidate(p: RawPeriod, s: PeriodSignals) -> Option<Reading> {
    if float_le(FloatBits(BITS_80), p.temp_f) && p.humidity_pct is Some {
        s.heat_index
    } else {
        None
    }
}

/// A period's wind chill counts when it is at or below 50°F with a wind above
/// 3 mph.
pub open spec fn chill_candidate(p: RawPeriod, s: PeriodSignals) -> Option<Reading> {
    if float_le(p.temp_f, FloatBits(BITS_50)) && (p.wind_mph matches Some(w) && float_lt(FloatBits(BITS_3), w)) {
        s.wind_chill
    } else {
        None
    }
}

/// The highest heat index among the given periods' candidates, as `f64::max`
/// folds them: the earlier one is kept on a tie, a NaN gives way to any later
/// candidate and never displaces a number. `None` when no period qualifies.
pub open spec fn max_heat(periods: Seq<RawPeriod>, signals: Seq<PeriodSignals>, w: Seq<usize>) -> Option<Reading>
    decreases w.len(),
{
    if w.len() == 0 {
        None
    } else {
        let acc = max_heat(periods, signals, w.drop_last());
        match heat_candidate(periods[w.last() as int], signals[w.last() as int]) {
            None => acc,
            Some(h) => match acc {
                None => Some(h),
                Some(a) => if float_is_nan(a.value) || float_lt(a.value, h.value) {
                    Some(h)
                } else {
                    Some(a)
                },
            },
        }
    }
}

/// The lowest wind chill among the given periods' candidates, as `f64::min`
/// folds them: the earlier one is kept on a tie, a NaN gives way to any later
/// candidate and never displaces a number. `None` when no period qualifies.
pub open spec fn min_chill(periods: Seq<RawPeriod>, signals: Seq<PeriodSignals>, w: Seq<usize>) -> Option<Reading>
    decreases w.len(),
{
    if w.len() == 0 {
        None
    } else {
        let acc = min_chill(periods, signals, w.drop_last());
        match chill_candidate(periods[w.last() as int], signals[w.last() as int]) {
            None => acc,
            Some(c) => match acc {
                None => Some(c),
                Some(a) => if float_is_nan(a.value) || float_lt(c.value, a.value) {
                    Some(c)
                } else {
                    Some(a)
                },
            },
        }
    }
}

fn copy_reading(r: &Reading) -> (c: Reading)
    ensures
        c == *r,
{
    Reading { value: r.value, whole: r.whole.clone() }
}

fn max_precip_prob(periods: &Vec<RawPeriod>, w: &Vec<usize>) -> (m: u8)
    requires
        forall|k: int| 0 <= k < w@.len() ==> #[trigger] w@[k] < periods@.len(),
    ensures
        m == max_precip(periods@, w@),
{
    let mut m: u8 = 0;
    let mut k: usize = 0;
    while k < w.len()
        invariant
            k <= w@.len(),
            forall|j: int| 0 <= j < w@.len() ==> #[trigger] w@[j] < periods@.len(),
            m == max_precip(periods@, w@.subrange(0, k as int)),
        decreases w.len() - k,
    {
        assert(w@.subrange(0, k + 1).drop_last() =~= w@.subrange(0, k as int));
        let p: u8 = periods[w[k]].precip_prob_pct;
        if p > m {
            m = p;
        }
        k = k + 1;
    }
    assert(w@.subrange(0, w@.len() as int) =~= w@);
    m
}

fn max_heat_index(periods: &Vec<RawPeriod>, signals: &Vec<PeriodSignals>, w: &Vec<usize>) -> (r: Option<Reading>)
    requires
        signals@.len() == periods@.len(),
        forall|k: int| 0 <= k < w@.len() ==> #[trigger] w@[k] < periods@.len(),
    ensures
        r == max_heat(periods@, signals@, w@),
{
    let mut acc: Option<Reading> = None;
    let mut k: usize = 0;
    while k < w.len()
        invariant
            k <= w@.len(),
            signals@.len() == periods@.len(),
            forall|j: int| 0 <= j < w@.len() ==> #[trigger] w@[j] < periods@.len(),
            acc == max_heat(periods@, signals@, w@.subrange(0, k as int)),
        decreases w.len() - k,
    {
        assert(w@.subrange(0, k + 1).drop_last() =~= w@.subrange(0, k as int));
        let i: usize = w[k];
        let p: &RawPeriod = &periods[i];
        if le(FloatBits(BITS_80), p.temp_f) && p.humidity_pct.is_some() {
            match &signals[i].heat_index {
                None => {},
                Some(h) => {
                    let replace: bool = match &acc {
                        None => true,
                        Some(a) => is_nan(a.value) || lt(a.value, h.value),
                    };
                    if replace {
                        acc = Some(copy_reading(h));
                    }
                },
            }
        }
        k = k + 1;
    }
    assert(w@.subrange(0, w@.len() as int) =~= w@);
    acc
}

fn min_wind_chill(periods: &Vec<RawPeriod>, signals: &Vec<PeriodSignals>, w: &Vec<usize>) -> (r: Option<Reading>)
    requires
        signals@.len() == periods@.len(),
        forall|k: int| 0 <= k < w@.len() ==> #[trigger] w@[k] < periods@.len(),
    ensures
        r == min_chill(periods@, signals@, w@),
{
    let mut acc: Option<Reading> = None;
    let mut k: usize = 0;
    while k < w.len()
        invariant
            k <= w@.len(),
            signals@.len() == periods@.len(),
            forall|j: int| 0 <= j < w@.len() ==> #[trigger] w@[j] < periods@.len(),
            acc == min_chill(periods@, signals@, w@.subrange(0, k as int)),
        decreases w.len() - k,
    {
        assert(w@.subrange(0, k + 1).drop_last() =~= w@.subrange(0, k as int));
        let i: usize = w[k];
        let p: &RawPeriod = &periods[i];
        let windy: bool = match p.wind_mph {
            Some(wind) => lt(FloatBits(BITS_3), wind),
            None => false,
        };
        if le(p.temp_f, FloatBits(BITS_50)) && windy {
            match &signals[i].wind_chill {
                None => {},
                Some(c) => {
                    let replace: bool = match &acc {
                        None => true,
                        Some(a) => is_nan(a.value) || lt(c.value, a.value),
                    };
                    if replace {
                        acc = Some(copy_reading(c));
                    }
                },
            }
        }
        k = k + 1;
    }
    assert(w@.subrange(0, w@.len() as int) =~= w@);
    acc
}

// ---------------------------------------------------------------------------
// Alerts
// ---------------------------------------------------------------------------

/// An alert as its kind and message texts.
pub open spec fn alert_view(a: Alert) -> (Seq<char>, Seq<char>) {
    (a.kind@, a.message@)
}

/// A list of alerts as their kind and message texts.
pub open spec fn alerts_view(alerts: Seq<Alert>) -> Seq<(Seq<char>, Seq<char>)> {
    alerts.map_values(|a: Alert| alert_view(a))
}

/// Precipitation at or above 1% anywhere in the window raises a `precip`
/// alert naming the probability.
pub open spec fn precip_alert_view(max_prob: u8) -> Seq<(Seq<char>, Seq<char>)> {
    if max_prob >= 1 {
        seq![(
            "precip"@,
            "Precipitation predicted during the hike window ("@ + decimal(max_prob as nat)
                + "% chance)"@,
        )]
    } else {
        Seq::empty()
    }
}

/// A reported heat index above 85°F raises a `heat_index` alert.
pub open spec fn heat_alert_view(heat_index: Option<Reading>) -> Seq<(Seq<char>, Seq<char>)> {
    match heat_index {
        Some(r) => if float_lt(FloatBits(BITS_85), r.value) {
            seq![("heat_index"@, "Heat index of "@ + r.whole@ + "\u{b0}F exceeds 85\u{b0}F"@)]
        } else {
            Seq::empty()
        },
        None => Seq::empty(),
    }
}

/// A reported wind chill below 32°F raises a `wind_chill` alert.
pub open spec fn chill_alert_view(wind_chill: Option<Reading>) -> Seq<(Seq<char>, Seq<char>)> {
    match wind_chill {
        Some(r) => if float_lt(r.value, FloatBits(BITS_32)) {
            seq![("wind_chill"@, "Wind chill of "@ + r.whole@ + "\u{b0}F is below 32\u{b0}F"@)]
        } else {
            Seq::empty()
        },
        None => Seq::empty(),
    }
}

/// An NWS alert as a `nws_alert` carrying the event name.
pub open spec fn nws_alert(a: RawAlert) -> (Seq<char>, Seq<char>) {
    ("nws_alert"@, a.event@)
}

/// An alert's validity overlaps the window; a missing bound is open-ended on
/// its side.
pub open spec fn overlaps(a: RawAlert, start: Instant, end: Instant) -> bool {
    &&& (a.onset matches Some(o) ==> before(o, end))
    &&& (a.ends matches Some(e) ==> before(start, e))
}

/// The NWS alerts among `alerts` that overlap the window, in order.
pub open spec fn overlapping_alerts(alerts: Seq<RawAlert>, start: Instant, end: Instant) -> Seq<(Seq<char>, Seq<char>)>
    decreases alerts.len(),
{
    if alerts.len() == 0 {
        Seq::empty()
    } else {
        let rest = overlapping_alerts(alerts.drop_last(), start, end);
        if overlaps(alerts.last(), start, end) {
            rest.push(nws_alert(alerts.last()))
        } else {
            rest
        }
    }
}

/// The value of a derived reading, if any.
pub open spec fn reading_value(r: Option<Reading>) -> Option<FloatBits> {
    match r {
        Some(x) => Some(x.value),
        None => None,
    }
}

fn make_alert(kind: &str, message: String) -> (a: Alert)
    ensures
        alert_view(a) == (kind@, message@),
{
    Alert { kind: owned(kind), message }
}

fn push_alert(alerts: &mut Vec<Alert>, a: Alert)
    ensures
        alerts_view(final(alerts)@) == alerts_view(old(alerts)@).push(alert_view(a)),
{
    alerts.push(a);
    assert(alerts_view(alerts@) =~= alerts_view(old(alerts)@).push(alert_view(a)));
}

/// An optional alert as at most one kind-and-message pair.
pub open spec fn opt_alert_view(a: Option<Alert>) -> Seq<(Seq<char>, Seq<char>)> {
    match a {
        Some(x) => seq![alert_view(x)],
        None => Seq::empty(),
    }
}

fn push_opt_alert(alerts: &mut Vec<Alert>, a: Option<Alert>)
    ensures
        alerts_view(final(alerts)@) == alerts_view(old(alerts)@) + opt_alert_view(a),
{
    match a {
        Some(x) => push_alert(alerts, x),
        None => {},
    }
    assert(alerts_view(alerts@) =~= alerts_view(old(alerts)@) + opt_alert_view(a));
}

/// The `precip` alert for the window's highest probability, raised at 1%.
fn precip_alert(max_prob: u8) -> (r: Option<Alert>)
    ensures
        opt_alert_view(r) == precip_alert_view(max_prob),
{
    if max_prob >= 1 {
        let mut message: String = owned("Precipitation predicted during the hike window (");
        push_decimal(&mut message, max_prob as u64);
        message.push_str("% chance)");
        let a: Alert = make_alert("precip", message);
        assert(opt_alert_view(Some(a)) =~= precip_alert_view(max_prob));
        Some(a)
    } else {
        None
    }
}

/// The `heat_index` alert for a reported heat index above 85°F.
fn heat_alert(heat_index: &Option<Reading>) -> (r: Option<Alert>)
    ensures
        opt_alert_view(r) == heat_alert_view(*heat_index),
{
    match heat_index {
        Some(h) => {
            if lt(FloatBits(BITS_85), h.value) {
                let mut message: String = owned("Heat index of ");
                message.push_str(h.whole.as_str());
                message.push_str("\u{b0}F exceeds 85\u{b0}F");
                let a: Alert = make_alert("heat_index", message);
                assert(opt_alert_view(Some(a)) =~= heat_alert_view(*heat_index));
                Some(a)
            } else {
                None
            }
        },
        None => None,
    }
}

/// The `wind_chill` alert for a reported wind chill below 32°F.
fn wind_chill_alert(wind_chill: &Option<Reading>) -> (r: Option<Alert>)
    ensures
        opt_alert_view(r) == chill_alert_view(*wind_chill),
{
    match wind_chill {
        Some(c) => {
            if lt(c.value, FloatBits(BITS_32)) {
                let mut message: String = owned("Wind chill of ");
                message.push_str(c.whole.as_str());
                message.push_str("\u{b0}F is below 32\u{b0}F");
                let a: Alert = make_alert("wind_chill", message);
                assert(opt_alert_view(Some(a)) =~= chill_alert_view(*wind_chill));
                Some(a)
            } else {
                None
            }
        },
        None => None,
    }
}

/// Appends every NWS alert, unfiltered, or only those overlapping the window.
fn push_nws_alerts(alerts: &mut Vec<Alert>, raw: &Vec<RawAlert>, filter: bool, start: Instant, end: Instant)
    ensures
        alerts_view(final(alerts)@) == alerts_view(old(alerts)@) + (if filter {
            overlapping_alerts(raw@, start, end)
        } else {
            raw@.map_values(|a: RawAlert| nws_alert(a))
        }),
{
    let mut i: usize = 0;
    while i < raw.len()
        invariant
            i <= raw@.len(),
            alerts_view(alerts@) == alerts_view(old(alerts)@) + (if filter {
                overlapping_alerts(raw@.subrange(0, i as int), start, end)
            } else {
                raw@.subrange(0, i as int).map_values(|a: RawAlert| nws_alert(a))
            }),
        decreases raw.len() - i,
    {
        let a: &RawAlert = &raw[i];
        let onset_ok: bool = match a.onset {
            Some(o) => is_before(o, end),
            None => true,
        };
        let ends_ok: bool = match a.ends {
            Some(e) => is_before(start, e),
            None => true,
        };
        let ghost prev = alerts_view(alerts@);
        if !filter || (onset_ok && ends_ok) {
            push_alert(alerts, make_alert("nws_alert", a.event.clone()));
        }
        proof {
            let next = raw@.subrange(0, i + 1);
            assert(next.drop_last() =~= raw@.subrange(0, i as int));
            assert(next.last() == raw@[i as int]);
            assert(next.map_values(|a: RawAlert| nws_alert(a)) =~= raw@.subrange(0, i as int).map_values(
                |a: RawAlert| nws_alert(a),
            ).push(nws_alert(raw@[i as int])));
            if filter {
                assert(alerts_view(alerts@) =~= alerts_view(old(alerts)@) + overlapping_alerts(next, start, end));
            } else {
                assert(alerts_view(alerts@) =~= alerts_view(old(alerts)@) + next.map_values(
                    |a: RawAlert| nws_alert(a),
                ));
            }
        }
        i = i + 1;
    }
    assert(raw@.subrange(0, raw@.len() as int) =~= raw@);
}

// ---------------------------------------------------------------------------
// The v1 block
// ---------------------------------------------------------------------------

/// The v1 alerts: precipitation, then every active NWS alert unfiltered, then
/// heat index, then wind chill.
pub open spec fn v1_alerts(raw: &RawForecast, signals: Seq<PeriodSignals>, w: Seq<usize>) -> Seq<(Seq<char>, Seq<char>)> {
    precip_alert_view(max_precip(raw.periods@, w)) + raw.alerts@.map_values(|a: RawAlert| nws_alert(a))
        + heat_alert_view(max_heat(raw.periods@, signals, w)) + chill_alert_view(min_chill(raw.periods@, signals, w))
}

/// Builds the **v1** `Weather` block for the hike window: the first in-window
/// period's temperature and conditions, the window's highest precipitation
/// probability with an amount of 0.0, the extreme heat index and wind chill,
/// and every active NWS alert regardless of time. `None` when no period lies
/// within the window.
pub fn build_weather(raw: &RawForecast, start: Instant, end: Instant, signals: &Vec<PeriodSignals>) -> (r: Option<Weather>)
    requires
        signals_fit(raw.periods@, signals@),
    ensures
        r is None <==> window_indices(raw.periods@, start, end).len() == 0,
        r matches Some(w) ==> {
            let win = window_indices(raw.periods@, start, end);
            let first = raw.periods@[win[0] as int];
            &&& w.temperature_f == first.temp_f
            &&& w.conditions@ == first.short_forecast@
            &&& w.precipitation.probability_pct == max_precip(raw.periods@, win)
            &&& w.precipitation.amount_in == FloatBits(0)
            &&& w.heat_index_f == reading_value(max_heat(raw.periods@, signals@, win))
            &&& w.wind_chill_f == reading_value(min_chill(raw.periods@, signals@, win))
            &&& alerts_view(w.alerts@) == v1_alerts(raw, signals@, win)
        },
{
    let window: Vec<usize> = periods_in_window(&raw.periods, start, end);
    let n_periods: usize = raw.periods.len();
    proof {
        lemma_window_upto_bounds(raw.periods@, start, end, n_periods as nat);
    }
    if window.len() == 0 {
        return None;
    }
    let representative: &RawPeriod = &raw.periods[window[0]];

    let max_prob: u8 = max_precip_prob(&raw.periods, &window);
    let heat_index: Option<Reading> = max_heat_index(&raw.periods, signals, &window);
    let wind_chill: Option<Reading> = min_wind_chill(&raw.periods, signals, &window);

    let mut alerts: Vec<Alert> = Vec::new();
    assert(alerts_view(alerts@) =~= Seq::<(Seq<char>, Seq<char>)>::empty());
    push_opt_alert(&mut alerts, precip_alert(max_prob));
    // v1 passes through every active NWS alert unchanged (no time filtering).
    push_nws_alerts(&mut alerts, &raw.alerts, false, start, end);
    push_opt_alert(&mut alerts, heat_alert(&heat_index));
    push_opt_alert(&mut alerts, wind_chill_alert(&wind_chill));
    assert(alerts_view(alerts@) =~= v1_alerts(raw, signals@, window@));

    let heat_index_f: Option<FloatBits> = match &heat_index {
        Some(h) => Some(h.value),
        None => None,
    };
    let wind_chill_f: Option<FloatBits> = match &wind_chill {
        Some(c) => Some(c.value),
        None => None,
    };
    Some(Weather {
        temperature_f: representative.temp_f,
        conditions: representative.short_forecast.clone(),
        precipitation: Precipitation { probability_pct: max_prob, amount_in: FloatBits(0) },
        heat_index_f,
        wind_chill_f,
        alerts,
    })
}

// ---------------------------------------------------------------------------
// Precipitation timing and the v2 block
// ---------------------------------------------------------------------------

/// A period is a likely-precipitation hour of the hike's day when its
/// probability is at least 50% and it starts on that local calendar day.
pub open spec fn likely_on_day(p: RawPeriod, day: int, offset: int) -> bool {
    p.precip_prob_pct >= 50 && local_day(p.start, offset) == day
}

/// Some period is a likely-precipitation hour of the day.
pub open spec fn likely_exists(periods: Seq<RawPeriod>, day: int, offset: int) -> bool {
    exists|i: int| 0 <= i < periods.len() && likely_on_day(#[trigger] periods[i], day, offset)
}

/// The earliest start among the likely hours of the day in the first `n`
/// periods (the first of equal ones), if any.
pub open spec fn earliest_likely(periods: Seq<RawPeriod>, day: int, offset: int, n: nat) -> Option<Instant>
    decreases n,
{
    if n == 0 {
        None
    } else {
        let acc = earliest_likely(periods, day, offset, (n - 1) as nat);
        let p = periods[n - 1];
        if likely_on_day(p, day, offset) {
            match acc {
                None => Some(p.start),
                Some(a) => if before(p.start, a) {
                    Some(p.start)
                } else {
                    Some(a)
                },
            }
        } else {
            acc
        }
    }
}

/// The latest end among the likely hours of the day in the first `n` periods,
/// if any.
pub open spec fn latest_likely(periods: Seq<RawPeriod>, day: int, offset: int, n: nat) -> Option<Instant>
    decreases n,
{
    if n == 0 {
        None
    } else {
        let acc = latest_likely(periods, day, offset, (n - 1) as nat);
        let p = periods[n - 1];
        if likely_on_day(p, day, offset) {
            match acc {
                None => Some(p.end),
                Some(a) => if before(p.end, a) {
                    Some(a)
                } else {
                    Some(p.end)
                },
            }
        } else {
            acc
        }
    }
}

/// An instant written as RFC 3339 in the hike's offset, if any.
pub open spec fn instant_text(t: Option<Instant>, offset: i32) -> Option<Seq<char>> {
    match t {
        Some(x) => Some(rfc3339_writing(x.secs, x.nanos, offset)),
        None => None,
    }
}

/// The texts of an optional string.
pub open spec fn opt_text(s: Option<String>) -> Option<Seq<char>> {
    match s {
        Some(x) => Some(x@),
        None => None,
    }
}

/// The v2 precipitation block of a hike starting at `start` in `offset`,
/// given its in-window maximum probability.
pub open spec fn timing_holds(
    r: PrecipitationV2,
    periods: Seq<RawPeriod>,
    start: Instant,
    offset: i32,
    window_max_prob: u8,
) -> bool {
    let day = local_day(start, offset as int);
    &&& r.probability_pct == window_max_prob
    &&& r.expected == likely_exists(periods, day, offset as int)
    &&& opt_text(r.starts_at) == instant_text(earliest_likely(periods, day, offset as int, periods.len()), offset)
    &&& opt_text(r.ends_at) == instant_text(latest_likely(periods, day, offset as int, periods.len()), offset)
}

/// Precipitation timing over the hike's local calendar day (the day of
/// `start` in its own offset): earliest start and latest end among hours at or
/// above 50%, written in the hike's offset. They may fall outside the window.
fn precip_timing(periods: &Vec<RawPeriod>, start: Instant, offset: i32, window_max_prob: u8) -> (r: PrecipitationV2)
    requires
        valid_periods(periods@),
        valid_instant(start),
        valid_offset(offset as int),
    ensures
        timing_holds(r, periods@, start, offset, window_max_prob),
{
    let day: i64 = local_day_of(start, offset);
    let ghost off: int = offset as int;
    let mut earliest: Option<Instant> = None;
    let mut latest: Option<Instant> = None;
    let mut i: usize = 0;
    while i < periods.len()
        invariant
            i <= periods@.len(),
            valid_periods(periods@),
            valid_offset(off),
            off == offset as int,
            day == local_day(start, off),
            earliest == earliest_likely(periods@, day as int, off, i as nat),
            latest == latest_likely(periods@, day as int, off, i as nat),
            (earliest is Some) == (exists|j: int| 0 <= j < i && likely_on_day(#[trigger] periods@[j], day as int, off)),
            earliest is Some ==> valid_instant(earliest->0),
            latest is Some ==> valid_instant(latest->0),
        decreases periods.len() - i,
    {
        let p: &RawPeriod = &periods[i];
        assert(valid_instant(periods@[i as int].start) && valid_instant(periods@[i as int].end));
        if p.precip_prob_pct >= 50 && local_day_of(p.start, offset) == day {
            earliest = match earliest {
                None => Some(p.start),
                Some(a) => if is_before(p.start, a) {
                    Some(p.start)
                } else {
                    Some(a)
                },
            };
            latest = match latest {
                None => Some(p.end),
                Some(a) => if is_before(p.end, a) {
                    Some(a)
                } else {
                    Some(p.end)
                },
            };
        }
        i = i + 1;
    }
    let starts_at: Option<String> = match earliest {
        Some(t) => Some(rfc3339_text(t, offset)),
        None => None,
    };
    let ends_at: Option<String> = match latest {
        Some(t) => Some(rfc3339_text(t, offset)),
        None => None,
    };
    PrecipitationV2 { probability_pct: window_max_prob, expected: earliest.is_some(), starts_at, ends_at }
}

/// The v2 alerts: precipitation, then the NWS alerts overlapping the window,
/// then heat index, then wind chill.
pub open spec fn v2_alerts(
    raw: &RawForecast,
    signals: Seq<PeriodSignals>,
    w: Seq<usize>,
    start: Instant,
    end: Instant,
) -> Seq<(Seq<char>, Seq<char>)> {
    precip_alert_view(max_precip(raw.periods@, w)) + overlapping_alerts(raw.alerts@, start, end)
        + heat_alert_view(max_heat(raw.periods@, signals, w)) + chill_alert_view(min_chill(raw.periods@, signals, w))
}

/// What the v2 block for a window holds.
pub open spec fn weather_v2_holds(
    w: WeatherV2,
    raw: &RawForecast,
    signals: Seq<PeriodSignals>,
    start: Instant,
    end: Instant,
    offset: i32,
) -> bool {
    let win = window_indices(raw.periods@, start, end);
    let first = raw.periods@[win[0] as int];
    let last = raw.periods@[win.last() as int];
    &&& w.start_temp_f == first.temp_f
    &&& w.end_temp_f == last.temp_f
    &&& w.conditions@ == first.short_forecast@
    &&& timing_holds(w.precipitation, raw.periods@, start, offset, max_precip(raw.periods@, win))
    &&& w.heat_index_f == reading_value(max_heat(raw.periods@, signals, win))
    &&& w.wind_chill_f == reading_value(min_chill(raw.periods@, signals, win))
    &&& alerts_view(w.alerts@) == v2_alerts(raw, signals, win, start, end)
}

/// Every period's instants, and the hike start and offset, are representable.
pub open spec fn valid_forecast_input(raw: &RawForecast, start: Instant, offset: i32) -> bool {
    &&& valid_periods(raw.periods@)
    &&& valid_instant(start)
    &&& valid_offset(offset as int)
}

/// Builds the **v2** `WeatherV2` block: the first and last in-window periods'
/// temperatures, the first one's conditions, precipitation timing across the
/// hike's local calendar day, the extreme heat index and wind chill, and the
/// NWS alerts that overlap the window. `None` when no period lies within the
/// window.
pub fn build_weather_v2(
    raw: &RawForecast,
    start: Instant,
    end: Instant,
    offset: i32,
    signals: &Vec<PeriodSignals>,
) -> (r: Option<WeatherV2>)
    requires
        signals_fit(raw.periods@, signals@),
        valid_forecast_input(raw, start, offset),
    ensures
        r is None <==> window_indices(raw.periods@, start, end).len() == 0,
        r matches Some(w) ==> weather_v2_holds(w, raw, signals@, start, end, offset),
{
    let window: Vec<usize> = periods_in_window(&raw.periods, start, end);
    let n_periods: usize = raw.periods.len();
    proof {
        lemma_window_upto_bounds(raw.periods@, start, end, n_periods as nat);
    }
    if window.len() == 0 {
        return None;
    }
    let first: &RawPeriod = &raw.periods[window[0]];
    let last: &RawPeriod = &raw.periods[window[window.len() - 1]];

    let max_prob: u8 = max_precip_prob(&raw.periods, &window);
    let heat_index: Option<Reading> = max_heat_index(&raw.periods, signals, &window);
    let wind_chill: Option<Reading> = min_wind_chill(&raw.periods, signals, &window);

    let mut alerts: Vec<Alert> = Vec::new();
    assert(alerts_view(alerts@) =~= Seq::<(Seq<char>, Seq<char>)>::empty());
    push_opt_alert(&mut alerts, precip_alert(max_prob));
    // v2 keeps only alerts whose validity overlaps the window.
    push_nws_alerts(&mut alerts, &raw.alerts, true, start, end);
    push_opt_alert(&mut alerts, heat_alert(&heat_index));
    push_opt_alert(&mut alerts, wind_chill_alert(&wind_chill));
    assert(alerts_view(alerts@) =~= v2_alerts(raw, signals@, window@, start, end));

    let heat_index_f: Option<FloatBits> = match &heat_index {
        Some(h) => Some(h.value),
        None => None,
    };
    let wind_chill_f: Option<FloatBits> = match &wind_chill {
        Some(c) => Some(c.value),
        None => None,
    };
    Some(WeatherV2 {
        start_temp_f: first.temp_f,
        end_temp_f: last.temp_f,
        conditions: first.short_forecast.clone(),
        precipitation: precip_timing(&raw.periods, start, offset, max_prob),
        heat_index_f,
        wind_chill_f,
        alerts,
    })
}

/// What the v3 block for a window holds: the v2 block's contents, with the
/// conditions of both the first and the last in-window period.
pub open spec fn weather_v3_holds(
    w: WeatherV3,
    raw: &RawForecast,
    signals: Seq<PeriodSignals>,
    start: Instant,
    end: Instant,
    offset: i32,
) -> bool {
    let win = window_indices(raw.periods@, start, end);
    let first = raw.periods@[win[0] as int];
    let last = raw.periods@[win.last() as int];
    &&& w.start_temp_f == first.temp_f
    &&& w.end_temp_f == last.temp_f
    &&& w.start_conditions@ == first.short_forecast@
    &&& w.end_conditions@ == last.short_forecast@
    &&& timing_holds(w.precipitation, raw.periods@, start, offset, max_precip(raw.periods@, win))
    &&& w.heat_index_f == reading_value(max_heat(raw.periods@, signals, win))
    &&& w.wind_chill_f == reading_value(min_chill(raw.periods@, signals, win))
    &&& alerts_view(w.alerts@) == v2_alerts(raw, signals, win, start, end)
}

/// Builds the **v3** `WeatherV3` block: the v2 block with `conditions`
/// replaced by the first in-window period's conditions (`start_conditions`)
/// and the last one's (`end_conditions`). `None` when no period lies within
/// the window.
pub fn build_weather_v3(
    raw: &RawForecast,
    start: Instant,
    end: Instant,
    offset: i32,
    signals: &Vec<PeriodSignals>,
) -> (r: Option<WeatherV3>)
    requires
        signals_fit(raw.periods@, signals@),
        valid_forecast_input(raw, start, offset),
    ensures
        r is None <==> window_indices(raw.periods@, start, end).len() == 0,
        r matches Some(w) ==> weather_v3_holds(w, raw, signals@, start, end, offset),
{
    let window: Vec<usize> = periods_in_window(&raw.periods, start, end);
    let n_periods: usize = raw.periods.len();
    proof {
        lemma_window_upto_bounds(raw.periods@, start, end, n_periods as nat);
    }
    match build_weather_v2(raw, start, end, offset, signals) {
        None => None,
        Some(v2) => {
            let last: &RawPeriod = &raw.periods[window[window.len() - 1]];
            let WeatherV2 { start_temp_f, end_temp_f, conditions, precipitation, heat_index_f, wind_chill_f, alerts } =
                v2;
            Some(WeatherV3 {
                start_temp_f,
                end_temp_f,
                start_conditions: conditions,
                end_conditions: last.short_forecast.clone(),
                precipitation,
                heat_index_f,
                wind_chill_f,
                alerts,
            })
        },
    }
}

// ---------------------------------------------------------------------------
// Reading NWS responses
// ---------------------------------------------------------------------------

/// The fields of one entry of an NWS hourly forecast's `periods`, as found in
/// the JSON (`None` where a field is absent or of another JSON type):
/// `startTime`, `endTime`, `temperature`, `relativeHumidity.value`, the wind
/// speed read from `windSpeed`, `probabilityOfPrecipitation.value` and
/// `shortForecast`.
pub struct PeriodFields {
    pub start_time: Option<String>,
    pub end_time: Option<String>,
    pub temperature: Option<FloatBits>,
    pub relative_humidity: Option<FloatBits>,
    pub wind_mph: Option<FloatBits>,
    pub precip_prob: Option<u64>,
    pub short_forecast: Option<String>,
}

/// The fields of one feature of an NWS `/alerts/active` response: the
/// properties `event`, `onset`, `effective`, `ends` and `expires`.
pub struct AlertFields {
    pub event: Option<String>,
    pub onset: Option<String>,
    pub effective: Option<String>,
    pub ends: Option<String>,
    pub expires: Option<String>,
}

/// The UTC instant an RFC 3339 text names, if it is one.
pub open spec fn rfc3339_instant(text: Option<String>) -> Option<Instant> {
    match text {
        Some(t) => match rfc3339_reading(t@) {
            Some((secs, nanos, _)) => Some(Instant { secs, nanos }),
            None => None,
        },
        None => None,
    }
}

/// A forecast entry is kept when its start, end and temperature all read.
pub open spec fn period_kept(f: PeriodFields) -> bool {
    &&& rfc3339_instant(f.start_time) is Some
    &&& rfc3339_instant(f.end_time) is Some
    &&& f.temperature is Some
}

/// A kept entry's period: its instants in UTC, its readings as found, a
/// missing probability as 0 (a larger one truncated to a byte, as `as u8`
/// does) and missing conditions as empty.
pub open spec fn period_read(f: PeriodFields, p: RawPeriod) -> bool {
    &&& Some(p.start) == rfc3339_instant(f.start_time)
    &&& Some(p.end) == rfc3339_instant(f.end_time)
    &&& Some(p.temp_f) == f.temperature
    &&& p.humidity_pct == f.relative_humidity
    &&& p.wind_mph == f.wind_mph
    &&& p.precip_prob_pct == (match f.precip_prob {
        Some(n) => n as u8,
        None => 0u8,
    })
    &&& p.short_forecast@ == (match f.short_forecast {
        Some(t) => t@,
        None => Seq::empty(),
    })
}

/// The positions of the kept entries among the first `n`, in order.
pub open spec fn kept_upto(entries: Seq<PeriodFields>, n: nat) -> Seq<int>
    decreases n,
{
    if n == 0 {
        Seq::empty()
    } else if period_kept(entries[n - 1]) {
        kept_upto(entries, (n - 1) as nat).push(n - 1)
    } else {
        kept_upto(entries, (n - 1) as nat)
    }
}

fn read_period(f: &PeriodFields) -> (r: Option<RawPeriod>)
    ensures
        r is Some <==> period_kept(*f),
        r matches Some(p) ==> period_read(*f, p) && valid_instant(p.start) && valid_instant(p.end),
{
    let start: Instant = match &f.start_time {
        Some(t) => match parse_rfc3339(t.as_str()) {
            Some((i, _)) => i,
            None => return None,
        },
        None => return None,
    };
    let end: Instant = match &f.end_time {
        Some(t) => match parse_rfc3339(t.as_str()) {
            Some((i, _)) => i,
            None => return None,
        },
        None => return None,
    };
    let temp_f: FloatBits = match f.temperature {
        Some(x) => x,
        None => return None,
    };
    let precip_prob_pct: u8 = match f.precip_prob {
        Some(n) => n as u8,
        None => 0,
    };
    let short_forecast: String = match &f.short_forecast {
        Some(t) => t.clone(),
        None => String::new(),
    };
    Some(RawPeriod {
        start,
        end,
        temp_f,
        humidity_pct: f.relative_humidity,
        wind_mph: f.wind_mph,
        precip_prob_pct,
        short_forecast,
    })
}

/// Reads the periods of an NWS hourly forecast. An entry lacking a parseable
/// start, end or temperature is dropped and the rest are kept, in order.
pub fn parse_periods(entries: &Vec<PeriodFields>) -> (r: Vec<RawPeriod>)
    ensures
        r@.len() == kept_upto(entries@, entries@.len()).len(),
        forall|k: int| 0 <= k < r@.len() ==> period_read(entries@[kept_upto(entries@, entries@.len())[k]], #[trigger] r@[k]),
        valid_periods(r@),
{
    let mut r: Vec<RawPeriod> = Vec::new();
    let mut i: usize = 0;
    while i < entries.len()
        invariant
            i <= entries@.len(),
            r@.len() == kept_upto(entries@, i as nat).len(),
            forall|k: int| 0 <= k < r@.len() ==> period_read(entries@[kept_upto(entries@, i as nat)[k]], #[trigger] r@[k]),
            valid_periods(r@),
        decreases entries.len() - i,
    {
        let ghost prev = kept_upto(entries@, i as nat);
        match read_period(&entries[i]) {
            Some(p) => {
                r.push(p);
                assert(kept_upto(entries@, (i + 1) as nat) == prev.push(i as int));
                assert forall|k: int| 0 <= k < r@.len() implies period_read(
                    entries@[kept_upto(entries@, (i + 1) as nat)[k]],
                    #[trigger] r@[k],
                ) by {
                    if k < prev.len() {
                        assert(kept_upto(entries@, (i + 1) as nat)[k] == prev[k]);
                    }
                }
            },
            None => {
                assert(kept_upto(entries@, (i + 1) as nat) == prev);
            },
        }
        i = i + 1;
    }
    r
}

/// An alert bound: the primary property when it is a string, else the
/// fallback; read as RFC 3339, `None` when absent or unparseable.
pub open spec fn alert_bound(primary: Option<String>, fallback: Option<String>) -> Option<Instant> {
    if primary is Some {
        rfc3339_instant(primary)
    } else {
        rfc3339_instant(fallback)
    }
}

fn parse_alert_time(primary: &Option<String>, fallback: &Option<String>) -> (r: Option<Instant>)
    ensures
        r == alert_bound(*primary, *fallback),
{
    let chosen: &Option<String> = if primary.is_some() {
        primary
    } else {
        fallback
    };
    match chosen {
        Some(t) => match parse_rfc3339(t.as_str()) {
            Some((i, _)) => Some(i),
            None => None,
        },
        None => None,
    }
}

/// The positions of the features among the first `n` that carry an event
/// name, in order.
pub open spec fn named_upto(features: Seq<AlertFields>, n: nat) -> Seq<int>
    decreases n,
{
    if n == 0 {
        Seq::empty()
    } else if features[n - 1].event is Some {
        named_upto(features, (n - 1) as nat).push(n - 1)
    } else {
        named_upto(features, (n - 1) as nat)
    }
}

/// A named feature's alert: its event, `onset` falling back to `effective`,
/// and `ends` falling back to `expires`.
pub open spec fn alert_read(f: AlertFields, a: RawAlert) -> bool {
    &&& f.event matches Some(e) && a.event@ == e@
    &&& a.onset == alert_bound(f.onset, f.effective)
    &&& a.ends == alert_bound(f.ends, f.expires)
}

/// Reads the active alerts of an NWS `/alerts/active` response. A feature
/// without an event name is dropped; a missing bound is left open.
pub fn parse_active_alerts(features: &Vec<AlertFields>) -> (r: Vec<RawAlert>)
    ensures
        r@.len() == named_upto(features@, features@.len()).len(),
        forall|k: int| 0 <= k < r@.len() ==> alert_read(features@[named_upto(features@, features@.len())[k]], #[trigger] r@[k]),
{
    let mut r: Vec<RawAlert> = Vec::new();
    let mut i: usize = 0;
    while i < features.len()
        invariant
            i <= features@.len(),
            r@.len() == named_upto(features@, i as nat).len(),
            forall|k: int| 0 <= k < r@.len() ==> alert_read(features@[named_upto(features@, i as nat)[k]], #[trigger] r@[k]),
        decreases features.len() - i,
    {
        let ghost prev = named_upto(features@, i as nat);
        let f: &AlertFields = &features[i];
        match &f.event {
            Some(event) => {
                let a: RawAlert = RawAlert {
                    event: event.clone(),
                    onset: parse_alert_time(&f.onset, &f.effective),
                    ends: parse_alert_time(&f.ends, &f.expires),
                };
                r.push(a);
                assert(named_upto(features@, (i + 1) as nat) == prev.push(i as int));
                assert forall|k: int| 0 <= k < r@.len() implies alert_read(
                    features@[named_upto(features@, (i + 1) as nat)[k]],
                    #[trigger] r@[k],
                ) by {
                    if k < prev.len() {
                        assert(named_upto(features@, (i + 1) as nat)[k] == prev[k]);
                    }
                }
            },
            None => {
                assert(named_upto(features@, (i + 1) as nat) == prev);
            },
        }
        i = i + 1;
    }
    r
}

/// A text without its leading whitespace.
pub open spec fn skip_white(text: Seq<char>) -> Seq<char>
    decreases text.len(),
{
    if text.len() > 0 && unicode_white_space(text[0]) {
        skip_white(text.drop_first())
    } else {
        text
    }
}

/// The leading run of non-whitespace characters of a text.
pub open spec fn leading_word(text: Seq<char>) -> Seq<char>
    decreases text.len(),
{
    if text.len() > 0 && !unicode_white_space(text[0]) {
        seq![text[0]] + leading_word(text.drop_first())
    } else {
        Seq::empty()
    }
}

/// The first whitespace-separated word of a text (what
/// `split_whitespace().next()` yields), if it has one.
pub open spec fn first_word(text: Seq<char>) -> Option<Seq<char>> {
    let rest = skip_white(text);
    if rest.len() == 0 {
        None
    } else {
        Some(leading_word(rest))
    }
}

/// The first whitespace-separated word of `text`. NWS writes wind speed as
/// `10 mph` or `10 to 20 mph`; its first word is the number, the low end of a
/// range.
pub fn first_word_of(text: &str) -> (r: Option<String>)
    ensures
        opt_text(r) == first_word(text@),
{
    let n: usize = text.unicode_len();
    let mut i: usize = 0;
    assert(text@.subrange(0, n as int) =~= text@);
    loop
        invariant
            n == text@.len(),
            i <= n,
            skip_white(text@) == skip_white(text@.subrange(i as int, n as int)),
        ensures
            i == n || !unicode_white_space(text@[i as int]),
            i <= n,
            skip_white(text@) == skip_white(text@.subrange(i as int, n as int)),
        decreases n - i,
    {
        if i == n {
            break;
        }
        let c: char = text.get_char(i);
        if !c.is_whitespace() {
            break;
        }
        assert(text@.subrange(i as int, n as int).drop_first() =~= text@.subrange(i + 1, n as int));
        i = i + 1;
    }
    if i == n {
        assert(text@.subrange(n as int, n as int) =~= Seq::<char>::empty());
        return None;
    }
    let start: usize = i;
    let mut word: String = String::new();
    let mut j: usize = i;
    assert(text@.subrange(start as int, n as int)[0] == text@[start as int]);
    assert(skip_white(text@) == text@.subrange(start as int, n as int));
    assert(word@ + leading_word(text@.subrange(j as int, n as int)) =~= leading_word(
        text@.subrange(start as int, n as int),
    ));
    loop
        invariant
            n == text@.len(),
            start <= j <= n,
            skip_white(text@) == text@.subrange(start as int, n as int),
            leading_word(text@.subrange(start as int, n as int)) == word@ + leading_word(
                text@.subrange(j as int, n as int),
            ),
        ensures
            j == n || unicode_white_space(text@[j as int]),
            start <= j <= n,
            leading_word(text@.subrange(start as int, n as int)) == word@ + leading_word(
                text@.subrange(j as int, n as int),
            ),
        decreases n - j,
    {
        if j == n {
            break;
        }
        let c: char = text.get_char(j);
        if c.is_whitespace() {
            break;
        }
        let ghost tail = text@.subrange(j as int, n as int);
        let ghost before_word = word@;
        assert(tail.drop_first() =~= text@.subrange(j + 1, n as int));
        assert(tail[0] == c);
        word.push(c);
        assert(leading_word(tail) == seq![c] + leading_word(tail.drop_first()));
        assert(before_word + leading_word(tail) =~= word@ + leading_word(text@.subrange(j + 1, n as int)));
        j = j + 1;
    }
    if j == n {
        assert(text@.subrange(n as int, n as int) =~= Seq::<char>::empty());
    } else {
        assert(text@.subrange(j as int, n as int)[0] == text@[j as int]);
    }
    assert(leading_word(text@.subrange(j as int, n as int)) =~= Seq::<char>::empty());
    assert(word@ =~= word@ + leading_word(text@.subrange(j as int, n as int)));
    Some(word)
}

/// Whether a forecast and its signals meet what the builders require: every
/// period's instants representable, and one fitting signal record per period.
#[verifier::spinoff_prover]
pub fn forecast_fits(raw: &RawForecast, signals: &Vec<PeriodSignals>) -> (ok: bool)
    ensures
        ok == (valid_periods(raw.periods@) && signals_fit(raw.periods@, signals@)),
{
    if signals.len() != raw.periods.len() {
        return false;
    }
    let mut i: usize = 0;
    while i < raw.periods.len()
        invariant
            i <= raw.periods@.len(),
            signals@.len() == raw.periods@.len(),
            forall|j: int| 0 <= j < i ==> valid_instant(#[trigger] raw.periods@[j].start) && valid_instant(raw.periods@[j].end),
            forall|j: int| 0 <= j < i ==> {
                &&& (#[trigger] signals@[j].heat_index is Some <==> raw.periods@[j].humidity_pct is Some)
                &&& (signals@[j].wind_chill is Some <==> raw.periods@[j].wind_mph is Some)
            },
        decreases raw.periods.len() - i,
    {
        let p: &RawPeriod = &raw.periods[i];
        let sig: &PeriodSignals = &signals[i];
        if instant_checked(p.start.secs, p.start.nanos).is_none() || instant_checked(p.end.secs, p.end.nanos).is_none() {
            return false;
        }
        if sig.heat_index.is_some() != p.humidity_pct.is_some() || sig.wind_chill.is_some() != p.wind_mph.is_some() {
            return false;
        }
        i = i + 1;
    }
    assert(i == raw.periods@.len());
    assert forall|j: int| 0 <= j < raw.periods@.len() implies valid_instant(#[trigger] raw.periods@[j].start)
        && valid_instant(raw.periods@[j].end) by {
        assert(0 <= j < i);
        assert(valid_instant(raw.periods@[j].start));
    }
    assert forall|j: int| 0 <= j < raw.periods@.len() implies (#[trigger] signals@[j].heat_index is Some
        <==> raw.periods@[j].humidity_pct is Some) && (signals@[j].wind_chill is Some
        <==> raw.periods@[j].wind_mph is Some) by {}
    true
}

// ---------------------------------------------------------------------------
// Fetching rules
// ---------------------------------------------------------------------------

/// Seconds a forecast stays cached.
pub const FORECAST_TTL_SECS: u32 = 600;

/// Whether a forecast is an answer worth keeping in the cache, and worth
/// serving from it: one with periods always is; an empty one only when the
/// caller marks empty results as settled. An empty forecast is otherwise an
/// upstream gap, and keeping it would suppress weather for the whole TTL.
pub fn is_settled(raw: &RawForecast, cache_empty: bool) -> (r: bool)
    ensures
        r == (raw.periods@.len() > 0 || cache_empty),
{
    raw.periods.len() > 0 || cache_empty
}

/// The failure a National Weather Service response stands for: a status of
/// 400 or above fails the request rather than being read as data.
pub fn http_failure(url: &str, status: u16) -> (r: Option<String>)
    ensures
        r is Some <==> status >= 400,
        r matches Some(m) ==> m@ == url@ + " returned HTTP "@ + crate::strings::decimal(status as nat),
{
    if status >= 400 {
        let mut m: String = owned(url);
        m.push_str(" returned HTTP ");
        push_decimal(&mut m, status as u64);
        Some(m)
    } else {
        None
    }
}

/// The hourly forecast URL an NWS `/points/{lat},{lon}` response names in
/// `properties.forecastHourly` (`found`, when it is a string), or the failure
/// of a response without one.
pub fn forecast_hourly_url(found: Option<&str>) -> (r: Result<String, String>)
    ensures
        match (found, r) {
            (Some(u), Ok(url)) => url@ == u@,
            (None, Err(m)) => m@ == "NWS points response missing forecastHourly"@,
            _ => false,
        },
{
    match found {
        Some(u) => Ok(owned(u)),
        None => Err(owned("NWS points response missing forecastHourly")),
    }
}

// ---------------------------------------------------------------------------
// Past hikes: station observations
// ---------------------------------------------------------------------------

/// Stations tried, at most, for a past hike's observations.
pub const MAX_STATIONS: usize = 3;

/// Seconds observations stay cached: past readings never change.
pub const OBSERVATION_TTL_SECS: u32 = 86_400;

/// The fields of one NWS station observation, as found in the JSON: the
/// `timestamp` text, the temperature and wind speed already converted to °F
/// and mph, the relative humidity, whether the last hour's measured
/// precipitation was above zero, and the `textDescription`.
pub struct ObservationFields {
    pub timestamp: Option<String>,
    pub temp_f: Option<FloatBits>,
    pub humidity_pct: Option<FloatBits>,
    pub wind_mph: Option<FloatBits>,
    pub rained: bool,
    pub description: Option<String>,
}

/// An observation's period: one hour from its timestamp, so readings that
/// bracket a hike window cover it; precipitation 100% when rain fell in the
/// last hour and 0% otherwise (whether rain fell, not how likely it was).
pub open spec fn observation_read(f: ObservationFields, p: RawPeriod) -> bool {
    &&& Some(p.start) == rfc3339_instant(f.timestamp)
    &&& p.end == (Instant { secs: (p.start.secs + 3600) as i64, nanos: p.start.nanos })
    &&& Some(p.temp_f) == f.temp_f
    &&& p.humidity_pct == f.humidity_pct
    &&& p.wind_mph == f.wind_mph
    &&& p.precip_prob_pct == (if f.rained { 100u8 } else { 0u8 })
    &&& p.short_forecast@ == (match f.description {
        Some(t) => t@,
        None => Seq::empty(),
    })
}

/// Reads one station observation as a period. An observation without a
/// parseable timestamp or a temperature is dropped, and so is one whose hour
/// would end past the last representable instant.
pub fn observation_period(f: &ObservationFields) -> (r: Option<RawPeriod>)
    ensures
        r matches Some(p) ==> observation_read(*f, p) && valid_instant(p.start) && valid_instant(p.end),
        r matches Some(p) ==> {
            &&& Some(p.temp_f) == f.temp_f
            &&& p.humidity_pct == f.humidity_pct
            &&& p.wind_mph == f.wind_mph
        },
        r is None <==> (rfc3339_instant(f.timestamp) is None || f.temp_f is None || (rfc3339_instant(
            f.timestamp,
        ) matches Some(s) && !valid_instant((Instant { secs: (s.secs + 3600) as i64, nanos: s.nanos })))),
{
    let start: Instant = match &f.timestamp {
        Some(t) => match parse_rfc3339(t.as_str()) {
            Some((i, _)) => i,
            None => return None,
        },
        None => return None,
    };
    let temp_f: FloatBits = match f.temp_f {
        Some(x) => x,
        None => return None,
    };
    if start.secs > crate::time::MAX_SECS - 3600 {
        return None;
    }
    let end: Instant = match instant_checked(start.secs + 3600, start.nanos) {
        Some(e) => e,
        None => return None,
    };
    let short_forecast: String = match &f.description {
        Some(t) => t.clone(),
        None => String::new(),
    };
    Some(RawPeriod {
        start,
        end,
        temp_f,
        humidity_pct: f.humidity_pct,
        wind_mph: f.wind_mph,
        precip_prob_pct: if f.rained { 100 } else { 0 },
        short_forecast,
    })
}

/// A hike whose end has passed has no forecast coverage (the NWS hourly
/// forecast looks only forward), so its weather comes from station
/// observations; any other hike's comes from the hourly forecast.
pub fn observations_due(end: Instant, now: Instant) -> (r: bool)
    ensures
        r == before(end, now),
{
    is_before(end, now)
}

/// An observation is kept when it reads as a period.
pub open spec fn observation_kept(f: ObservationFields) -> bool {
    &&& rfc3339_instant(f.timestamp) matches Some(s)
    &&& f.temp_f is Some
    &&& valid_instant((Instant { secs: (s.secs + 3600) as i64, nanos: s.nanos }))
}

/// The positions of the kept observations among the first `n`, in order.
pub open spec fn observations_kept_upto(entries: Seq<ObservationFields>, n: nat) -> Seq<int>
    decreases n,
{
    if n == 0 {
        Seq::empty()
    } else if observation_kept(entries[n - 1]) {
        observations_kept_upto(entries, (n - 1) as nat).push(n - 1)
    } else {
        observations_kept_upto(entries, (n - 1) as nat)
    }
}

/// Reads a station's observations as periods, in the order listed; an
/// observation that does not read is dropped and the rest are kept.
pub fn read_observations(entries: &Vec<ObservationFields>) -> (r: Vec<RawPeriod>)
    ensures
        r@.len() == observations_kept_upto(entries@, entries@.len()).len(),
        forall|k: int| 0 <= k < r@.len() ==> observation_read(
            entries@[observations_kept_upto(entries@, entries@.len())[k]],
            #[trigger] r@[k],
        ),
        forall|k: int| 0 <= k < r@.len() ==> {
            let f = entries@[observations_kept_upto(entries@, entries@.len())[k]];
            &&& Some((#[trigger] r@[k]).temp_f) == f.temp_f
            &&& r@[k].humidity_pct == f.humidity_pct
            &&& r@[k].wind_mph == f.wind_mph
        },
        valid_periods(r@),
{
    let r = read_observations_in_order(entries);
    assert forall|k: int| 0 <= k < r@.len() implies {
        let f = entries@[observations_kept_upto(entries@, entries@.len())[k]];
        &&& Some((#[trigger] r@[k]).temp_f) == f.temp_f
        &&& r@[k].humidity_pct == f.humidity_pct
        &&& r@[k].wind_mph == f.wind_mph
    } by {
        lemma_observation_keeps_its_readings(entries@[observations_kept_upto(entries@, entries@.len())[k]], r@[k]);
    }
    r
}

fn read_observations_in_order(entries: &Vec<ObservationFields>) -> (r: Vec<RawPeriod>)
    ensures
        r@.len() == observations_kept_upto(entries@, entries@.len()).len(),
        forall|k: int| 0 <= k < r@.len() ==> observation_read(
            entries@[observations_kept_upto(entries@, entries@.len())[k]],
            #[trigger] r@[k],
        ),
        valid_periods(r@),
{
    let mut r: Vec<RawPeriod> = Vec::new();
    let mut i: usize = 0;
    while i < entries.len()
        invariant
            i <= entries@.len(),
            r@.len() == observations_kept_upto(entries@, i as nat).len(),
            forall|k: int| 0 <= k < r@.len() ==> observation_read(
                entries@[observations_kept_upto(entries@, i as nat)[k]],
                #[trigger] r@[k],
            ),
            valid_periods(r@),
        decreases entries.len() - i,
    {
        let ghost prev = observations_kept_upto(entries@, i as nat);
        match observation_period(&entries[i]) {
            Some(p) => {
                r.push(p);
                assert(observations_kept_upto(entries@, (i + 1) as nat) == prev.push(i as int));
                assert forall|k: int| 0 <= k < r@.len() implies observation_read(
                    entries@[observations_kept_upto(entries@, (i + 1) as nat)[k]],
                    #[trigger] r@[k],
                ) by {
                    if k < prev.len() {
                        assert(observations_kept_upto(entries@, (i + 1) as nat)[k] == prev[k]);
                    }
                }
            },
            None => {
                assert(observations_kept_upto(entries@, (i + 1) as nat) == prev);
            },
        }
        i = i + 1;
    }
    r
}

/// Periods in ascending order of start.
pub open spec fn starts_ascending(s: Seq<RawPeriod>) -> bool {
    forall|i: int, j: int| 0 <= i < j < s.len() ==> !before(#[trigger] s[j].start, #[trigger] s[i].start)
}

/// Puts observation periods into ascending time order before any builder
/// reads them, keeping every period.
#[verifier::spinoff_prover]
pub fn order_by_start(periods: Vec<RawPeriod>) -> (r: Vec<RawPeriod>)
    ensures
        starts_ascending(r@),
        r@.to_multiset() == periods@.to_multiset(),
{
    broadcast use vstd::multiset::group_multiset_axioms, vstd::multiset::lemma_multiset_empty_len,
        vstd::seq_lib::group_to_multiset_ensures;
    let mut rest: Vec<RawPeriod> = periods;
    let mut r: Vec<RawPeriod> = Vec::new();
    assert(r@.to_multiset() =~= Multiset::<RawPeriod>::empty());
    while rest.len() > 0
        invariant
            starts_ascending(r@),
            r@.to_multiset().add(rest@.to_multiset()) == periods@.to_multiset(),
        decreases rest.len(),
    {
        let ghost old_rest = rest@;
        let ghost old_r = r@;
        let p: RawPeriod = rest.pop().unwrap();
        proof {
            assert(old_rest =~= rest@.push(p));
            vstd::seq_lib::to_multiset_build(rest@, p);
        }
        let mut k: usize = 0;
        loop
            invariant
                k <= r@.len(),
                r@ == old_r,
                forall|j: int| 0 <= j < k ==> before(#[trigger] r@[j].start, p.start),
            ensures
                k <= r@.len(),
                r@ == old_r,
                forall|j: int| 0 <= j < k ==> before(#[trigger] r@[j].start, p.start),
                k == r@.len() || !before(r@[k as int].start, p.start),
            decreases r@.len() - k,
        {
            if k == r.len() {
                break;
            }
            if !is_before(r[k].start, p.start) {
                break;
            }
            k = k + 1;
        }
        let ghost pk = p;
        r.insert(k, p);
        proof {
            vstd::seq_lib::to_multiset_insert(old_r, k as int, pk);
            assert(r@ == old_r.insert(k as int, pk));
            assert forall|j: int| k <= j < old_r.len() implies !before(#[trigger] old_r[j].start, pk.start) by {
                assert(!before(old_r[j].start, old_r[k as int].start) || j == k);
            }
            assert forall|i: int, j: int| 0 <= i < j < r@.len() implies !before(
                #[trigger] r@[j].start,
                #[trigger] r@[i].start,
            ) by {
                if j < k {
                    assert(r@[i] == old_r[i] && r@[j] == old_r[j]);
                } else if j == k {
                    assert(r@[i] == old_r[i]);
                } else if i < k {
                    assert(r@[i] == old_r[i] && r@[j] == old_r[j - 1]);
                } else if i == k {
                    assert(r@[j] == old_r[j - 1]);
                } else {
                    assert(r@[i] == old_r[i - 1] && r@[j] == old_r[j - 1]);
                }
            }
            assert(r@.to_multiset().add(rest@.to_multiset()) =~= periods@.to_multiset());
        }
    }
    proof {
        assert(rest@.to_multiset().len() == 0);
        assert(r@.to_multiset().add(Multiset::<RawPeriod>::empty()) =~= r@.to_multiset());
    }
    r
}

/// An observation query timestamp: the instant in UTC with a trailing `Z`
/// rather than a numeric offset.
pub fn nws_query_time(t: Instant) -> (s: String)
    requires
        valid_instant(t),
    ensures
        s@ == utc_formatting(t.secs, t.nanos, "%Y-%m-%dT%H:%M:%SZ"@),
{
    utc_strftime(t, "%Y-%m-%dT%H:%M:%SZ")
}

/// The next step of walking a point's observation stations.
pub enum StationStep {
    /// Read the observations of the station at this position of the list.
    Fetch(usize),
    /// The answer: readings and no alerts (active alerts are a present-time
    /// notion), or nothing when no permitted station had readings.
    Done(RawForecast),
}

/// Decides the walk after `tried` stations of the `stations` the NWS listed
/// (nearest first), `readings` being what the last one tried yielded (empty
/// before the first). The first station with readings answers; one without
/// any passes to the next in proximity order; after at most
/// `MAX_STATIONS` stations, or the end of the list, the answer is empty.
pub fn on_station_readings(tried: usize, stations: usize, readings: Vec<RawPeriod>) -> (s: StationStep)
    ensures
        readings@.len() > 0 ==> (s matches StationStep::Done(f) && f.periods@ == readings@ && f.alerts@.len() == 0),
        readings@.len() == 0 && tried < stations && tried < MAX_STATIONS ==> (s matches StationStep::Fetch(i)
            && i == tried),
        readings@.len() == 0 && !(tried < stations && tried < MAX_STATIONS) ==> (s matches StationStep::Done(f)
            && f.periods@.len() == 0 && f.alerts@.len() == 0),
        s matches StationStep::Fetch(i) ==> i < MAX_STATIONS && i < stations,
{
    if readings.len() > 0 {
        StationStep::Done(RawForecast { periods: readings, alerts: Vec::new() })
    } else if tried < stations && tried < MAX_STATIONS {
        StationStep::Fetch(tried)
    } else {
        StationStep::Done(RawForecast { periods: Vec::new(), alerts: Vec::new() })
    }
}

// ---------------------------------------------------------------------------
// Laws
// ---------------------------------------------------------------------------

/// The window holds exactly the periods that overlap it: a period's position
/// is listed if and only if the period starts before the hike ends and ends
/// after it starts.
pub proof fn lemma_window_is_exact(periods: Seq<RawPeriod>, start: Instant, end: Instant, i: int)
    requires
        0 <= i < periods.len(),
        periods.len() <= usize::MAX,
    ensures
        window_indices(periods, start, end).contains(i as usize) <==> in_window(periods[i], start, end),
{
    lemma_window_upto_exact(periods, start, end, periods.len(), i);
}

proof fn lemma_window_upto_exact(periods: Seq<RawPeriod>, start: Instant, end: Instant, n: nat, i: int)
    requires
        0 <= i < n,
        n <= usize::MAX,
    ensures
        window_upto(periods, start, end, n).contains(i as usize) <==> in_window(periods[i], start, end),
    decreases n,
{
    let prev = window_upto(periods, start, end, (n - 1) as nat);
    let cur = window_upto(periods, start, end, n);
    lemma_window_upto_bounds(periods, start, end, (n - 1) as nat);
    if i < n - 1 {
        lemma_window_upto_exact(periods, start, end, (n - 1) as nat, i);
        if cur.contains(i as usize) {
            let k = choose|k: int| 0 <= k < cur.len() && cur[k] == i as usize;
            if k < prev.len() {
                assert(prev[k] == i as usize);
            } else {
                assert(cur[k] == (n - 1) as usize);
            }
        }
        if prev.contains(i as usize) {
            let k = choose|k: int| 0 <= k < prev.len() && prev[k] == i as usize;
            assert(cur[k] == prev[k]);
        }
    } else {
        if cur.contains(i as usize) {
            let k = choose|k: int| 0 <= k < cur.len() && cur[k] == i as usize;
            if k < prev.len() {
                assert(prev[k] < n - 1);
            }
        }
        if in_window(periods[i], start, end) {
            assert(cur[prev.len() as int] == i as usize);
        }
    }
}

/// The reported precipitation probability is the window's highest: no listed
/// period exceeds it, and unless the list is empty some listed period has it.
pub proof fn lemma_max_precip_is_max(periods: Seq<RawPeriod>, w: Seq<usize>)
    ensures
        forall|k: int| 0 <= k < w.len() ==> periods[#[trigger] w[k] as int].precip_prob_pct <= max_precip(periods, w),
        w.len() > 0 ==> exists|k: int| 0 <= k < w.len() && periods[#[trigger] w[k] as int].precip_prob_pct == max_precip(periods, w),
        w.len() == 0 ==> max_precip(periods, w) == 0,
    decreases w.len(),
{
    if w.len() > 0 {
        let front = w.drop_last();
        lemma_max_precip_is_max(periods, front);
        assert forall|k: int| 0 <= k < w.len() implies periods[#[trigger] w[k] as int].precip_prob_pct <= max_precip(periods, w) by {
            if k < front.len() {
                assert(w[k] == front[k]);
            }
        }
        if periods[w.last() as int].precip_prob_pct > max_precip(periods, front) || front.len() == 0 {
            assert(w[w.len() - 1] == w.last());
        } else {
            let k = choose|k: int| 0 <= k < front.len() && periods[#[trigger] front[k] as int].precip_prob_pct == max_precip(periods, front);
            assert(w[k] == front[k]);
        }
    }
}

/// The reported heat index is the highest qualifying one: it is absent exactly
/// when no listed period qualifies, no qualifying period's heat index that is
/// a number exceeds it, and it is a NaN only when every candidate is.
pub proof fn lemma_max_heat_is_max(periods: Seq<RawPeriod>, signals: Seq<PeriodSignals>, w: Seq<usize>)
    ensures
        max_heat(periods, signals, w) is None <==> forall|k: int|
            0 <= k < w.len() ==> heat_candidate(periods[#[trigger] w[k] as int], signals[w[k] as int]) is None,
        max_heat(periods, signals, w) matches Some(m) ==> forall|k: int|
            0 <= k < w.len() ==> (heat_candidate(periods[#[trigger] w[k] as int], signals[w[k] as int]) matches Some(h)
                ==> float_is_nan(h.value) || float_le(h.value, m.value)),
        max_heat(periods, signals, w) matches Some(m) && float_is_nan(m.value) ==> forall|k: int|
            0 <= k < w.len() ==> (heat_candidate(periods[#[trigger] w[k] as int], signals[w[k] as int]) matches Some(h)
                ==> float_is_nan(h.value)),
    decreases w.len(),
{
    if w.len() > 0 {
        let front = w.drop_last();
        lemma_max_heat_is_max(periods, signals, front);
        assert forall|k: int| 0 <= k < front.len() implies #[trigger] w[k] == front[k] by {}
        assert(w[w.len() - 1] == w.last());
    }
}

/// The reported wind chill is the lowest qualifying one: it is absent exactly
/// when no listed period qualifies, no qualifying period's wind chill that is
/// a number is below it, and it is a NaN only when every candidate is.
pub proof fn lemma_min_chill_is_min(periods: Seq<RawPeriod>, signals: Seq<PeriodSignals>, w: Seq<usize>)
    ensures
        min_chill(periods, signals, w) is None <==> forall|k: int|
            0 <= k < w.len() ==> chill_candidate(periods[#[trigger] w[k] as int], signals[w[k] as int]) is None,
        min_chill(periods, signals, w) matches Some(m) ==> forall|k: int|
            0 <= k < w.len() ==> (chill_candidate(periods[#[trigger] w[k] as int], signals[w[k] as int]) matches Some(c)
                ==> float_is_nan(c.value) || float_le(m.value, c.value)),
        min_chill(periods, signals, w) matches Some(m) && float_is_nan(m.value) ==> forall|k: int|
            0 <= k < w.len() ==> (chill_candidate(periods[#[trigger] w[k] as int], signals[w[k] as int]) matches Some(c)
                ==> float_is_nan(c.value)),
    decreases w.len(),
{
    if w.len() > 0 {
        let front = w.drop_last();
        lemma_min_chill_is_min(periods, signals, front);
        assert forall|k: int| 0 <= k < front.len() implies #[trigger] w[k] == front[k] by {}
        assert(w[w.len() - 1] == w.last());
    }
}

/// Precipitation timing is given exactly when precipitation is expected: the
/// earliest and latest likely instants exist if and only if some hour of the
/// hike's day is at or above 50%.
pub proof fn lemma_timing_iff_expected(periods: Seq<RawPeriod>, day: int, offset: int, n: nat)
    requires
        n <= periods.len(),
    ensures
        earliest_likely(periods, day, offset, n) is Some <==> exists|i: int|
            0 <= i < n && likely_on_day(#[trigger] periods[i], day, offset),
        latest_likely(periods, day, offset, n) is Some <==> earliest_likely(periods, day, offset, n) is Some,
    decreases n,
{
    if n > 0 {
        lemma_timing_iff_expected(periods, day, offset, (n - 1) as nat);
    }
}

/// In a v2 block, `startsAt` and `endsAt` are present exactly when
/// precipitation is `expected`.
pub proof fn lemma_v2_timing_present_iff_expected(
    r: PrecipitationV2,
    periods: Seq<RawPeriod>,
    start: Instant,
    offset: i32,
    window_max_prob: u8,
)
    requires
        timing_holds(r, periods, start, offset, window_max_prob),
    ensures
        r.starts_at is Some <==> r.expected,
        r.ends_at is Some <==> r.expected,
{
    lemma_timing_iff_expected(periods, local_day(start, offset as int), offset as int, periods.len());
}

/// The NWS alerts a v2 or v3 block lists are exactly the active alerts whose
/// validity overlaps the hike window, in order: an alert is kept if and only
/// if its onset, when it has one, is strictly before the hike's end and its
/// end, when it has one, is strictly after the hike's start. An alert that
/// begins only after the hike is over is never listed.
pub proof fn lemma_listed_alerts_overlap_the_window(alerts: Seq<RawAlert>, start: Instant, end: Instant)
    ensures
        overlapping_alerts(alerts, start, end) == alerts.filter(
            |a: RawAlert|
                (a.onset is None || before(a.onset->0, end)) && (a.ends is None || before(start, a.ends->0)),
        ).map_values(|a: RawAlert| ("nws_alert"@, a.event@)),
    decreases alerts.len(),
{
    let pred = |a: RawAlert|
        (a.onset is None || before(a.onset->0, end)) && (a.ends is None || before(start, a.ends->0));
    let f = |a: RawAlert| ("nws_alert"@, a.event@);
    reveal(Seq::filter);
    if alerts.len() > 0 {
        lemma_listed_alerts_overlap_the_window(alerts.drop_last(), start, end);
        let rest = alerts.drop_last().filter(pred);
        if pred(alerts.last()) {
            assert(alerts.filter(pred) == rest.push(alerts.last()));
            assert(rest.push(alerts.last()).map_values(f) =~= rest.map_values(f).push(f(alerts.last())));
        } else {
            assert(alerts.filter(pred) == rest);
        }
    } else {
        assert(alerts.filter(pred) =~= Seq::<RawAlert>::empty());
        assert(alerts.filter(pred).map_values(f) =~= Seq::<(Seq<char>, Seq<char>)>::empty());
    }
}

/// A v2 block's alerts: the precipitation alert, then every active NWS alert
/// whose onset (if any) is before the hike's end and whose end (if any) is
/// after its start, then the heat index and wind chill alerts.
pub proof fn lemma_v2_block_lists_only_overlapping_alerts(
    w: WeatherV2,
    raw: &RawForecast,
    signals: Seq<PeriodSignals>,
    start: Instant,
    end: Instant,
    offset: i32,
)
    requires
        weather_v2_holds(w, raw, signals, start, end, offset),
    ensures
        ({
            let win = window_indices(raw.periods@, start, end);
            alerts_view(w.alerts@) == precip_alert_view(max_precip(raw.periods@, win)) + raw.alerts@.filter(
                |a: RawAlert|
                    (a.onset is None || before(a.onset->0, end)) && (a.ends is None || before(start, a.ends->0)),
            ).map_values(|a: RawAlert| ("nws_alert"@, a.event@)) + heat_alert_view(max_heat(raw.periods@, signals, win))
                + chill_alert_view(min_chill(raw.periods@, signals, win))
        }),
{
    lemma_listed_alerts_overlap_the_window(raw.alerts@, start, end);
}

/// A v3 block lists the same alerts as a v2 block: only NWS alerts that
/// overlap the hike window.
pub proof fn lemma_v3_block_lists_only_overlapping_alerts(
    w: WeatherV3,
    raw: &RawForecast,
    signals: Seq<PeriodSignals>,
    start: Instant,
    end: Instant,
    offset: i32,
)
    requires
        weather_v3_holds(w, raw, signals, start, end, offset),
    ensures
        ({
            let win = window_indices(raw.periods@, start, end);
            alerts_view(w.alerts@) == precip_alert_view(max_precip(raw.periods@, win)) + raw.alerts@.filter(
                |a: RawAlert|
                    (a.onset is None || before(a.onset->0, end)) && (a.ends is None || before(start, a.ends->0)),
            ).map_values(|a: RawAlert| ("nws_alert"@, a.event@)) + heat_alert_view(max_heat(raw.periods@, signals, win))
                + chill_alert_view(min_chill(raw.periods@, signals, win))
        }),
{
    lemma_listed_alerts_overlap_the_window(raw.alerts@, start, end);
}

/// The UTC instant an RFC 3339 text reads as, if it reads.
pub open spec fn text_instant(t: Seq<char>) -> Option<Instant> {
    match rfc3339_reading(t) {
        Some((secs, nanos, _)) => Some(Instant { secs, nanos }),
        None => None,
    }
}

/// An alert's bounds come from `onset` and `ends` when those are present, and
/// from `effective` and `expires` only when they are absent; a present but
/// unreadable bound is open rather than replaced by the fallback.
pub proof fn lemma_alert_bounds_prefer_onset_and_ends(f: AlertFields, a: RawAlert)
    requires
        alert_read(f, a),
    ensures
        f.onset matches Some(t) ==> a.onset == text_instant(t@),
        f.onset is None ==> a.onset == (match f.effective {
            Some(t) => text_instant(t@),
            None => None,
        }),
        f.ends matches Some(t) ==> a.ends == text_instant(t@),
        f.ends is None ==> a.ends == (match f.expires {
            Some(t) => text_instant(t@),
            None => None,
        }),
        f.event matches Some(e) && a.event@ == e@,
{
}

/// An observation's period carries the observation's readings unchanged, so
/// the builders treat it as they treat a forecast period: its temperature,
/// humidity and wind speed are the observed ones, and it starts at the
/// observation's timestamp.
pub proof fn lemma_observation_keeps_its_readings(f: ObservationFields, p: RawPeriod)
    requires
        observation_read(f, p),
    ensures
        Some(p.temp_f) == f.temp_f,
        p.humidity_pct == f.humidity_pct,
        p.wind_mph == f.wind_mph,
        f.timestamp matches Some(t) && text_instant(t@) == Some(p.start),
{
}

} // verus!
