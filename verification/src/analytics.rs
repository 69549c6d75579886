//! Analytics pages and exports: the date filters, who may see which
//! figures, the visitor log, the chart window, and the CSV and JSON exports.

use vstd::prelude::*;
use vstd::string::*;
use chrono::Datelike;
use crate::models::{Reply, opt_string, opt_text};
use crate::redirect::{bare_reply, reply, reply_is};
use crate::text::{join_text, nat_decimal, str_eq, u64_decimal};

verus! {

/// Query of the analytics pages and exports.
pub struct AnalyticsQuery {
    pub analytics_page: Option<usize>,
    pub date_from: Option<String>,
    pub date_to: Option<String>,
}

/// A calendar date.
#[derive(PartialEq, Eq, Structural, Clone, Copy)]
pub struct CivilDate {
    pub year: i32,
    pub month: u32,
    pub day: u32,
}

// ---------------------------------------------------------------------------
// Dates
// ---------------------------------------------------------------------------

/// What chrono `NaiveDate::parse_from_str(s, "%Y-%m-%d")` reads from `s`.
pub uninterp spec fn ymd_parse(s: Seq<char>) -> Option<CivilDate>;

/// The first and last years chrono's `NaiveDate` represents.
pub open spec fn chrono_min_year() -> int {
    -262143
}

pub open spec fn chrono_max_year() -> int {
    262142
}

/// A leap year of the proleptic Gregorian calendar.
pub open spec fn leap_year(y: int) -> bool {
    (y % 4 == 0 && y % 100 != 0) || y % 400 == 0
}

pub open spec fn days_in_month(y: int, m: int) -> int {
    if m == 2 {
        if leap_year(y) { 29 } else { 28 }
    } else if m == 4 || m == 6 || m == 9 || m == 11 {
        30
    } else {
        31
    }
}

/// A date chrono can represent.
pub open spec fn valid_date(d: CivilDate) -> bool {
    chrono_min_year() <= d.year <= chrono_max_year() && 1 <= d.month <= 12 && 1 <= d.day <= days_in_month(
        d.year as int,
        d.month as int,
    )
}

/// The next calendar day (what chrono `NaiveDate::from_ymd_opt` then
/// `succ_opt` give): none for a date chrono does not represent, and none
/// after the last representable date.
pub open spec fn ymd_next(d: CivilDate) -> Option<CivilDate> {
    if !valid_date(d) {
        None
    } else if d.day < days_in_month(d.year as int, d.month as int) {
        Some(CivilDate { year: d.year, month: d.month, day: (d.day + 1) as u32 })
    } else if d.month < 12 {
        Some(CivilDate { year: d.year, month: (d.month + 1) as u32, day: 1 })
    } else if d.year < chrono_max_year() {
        Some(CivilDate { year: (d.year + 1) as i32, month: 1, day: 1 })
    } else {
        None
    }
}

/// chrono `NaiveDate::parse_from_str` with the `%Y-%m-%d` format; a parsed
/// date is a real calendar date (month 1 to 12, day 1 to 31).
#[verifier::external_body]
fn parse_ymd(s: &str) -> (r: Option<CivilDate>)
    ensures
        r == ymd_parse(s@),
        r matches Some(d) ==> 1 <= d.month <= 12 && 1 <= d.day <= 31,
{
    match chrono::NaiveDate::parse_from_str(s, "%Y-%m-%d") {
        Ok(d) => Some(CivilDate { year: d.year(), month: d.month(), day: d.day() }),
        Err(_) => None,
    }
}

/// chrono `NaiveDate::from_ymd_opt` then `succ_opt`: the next calendar day,
/// none for a date chrono does not represent (documented: an invalid month
/// or day, or a year out of range) and none after the last representable
/// date (documented for `succ_opt`).
#[verifier::external_body]
fn next_day(d: CivilDate) -> (r: Option<CivilDate>)
    ensures
        r == ymd_next(d),
        r matches Some(n) ==> 1 <= n.month <= 12 && 1 <= n.day <= 31,
{
    match chrono::NaiveDate::from_ymd_opt(d.year, d.month, d.day) {
        Some(x) => match x.succ_opt() {
            Some(n) => Some(CivilDate { year: n.year(), month: n.month(), day: n.day() }),
            None => None,
        },
        None => None,
    }
}

/// chrono `Utc::now()` less `n` days, as a calendar date: depends on the
/// clock, so nothing is stated of it but that it is a calendar date.
#[verifier::external_body]
fn utc_date_days_ago(n: i64) -> (r: CivilDate)
    requires
        0 <= n <= 365,
    ensures
        1 <= r.month <= 12 && 1 <= r.day <= 31,
{
    let d = (chrono::Utc::now() - chrono::Duration::days(n)).date_naive();
    CivilDate { year: d.year(), month: d.month(), day: d.day() }
}

/// `n` in decimal, zero-padded to at least `width` digits.
pub open spec fn pad_digits(n: nat, width: nat) -> Seq<char> {
    let s = nat_decimal(n);
    if s.len() >= width {
        s
    } else {
        Seq::new((width - s.len()) as nat, |i: int| '0') + s
    }
}

/// chrono's `%Y`: four zero-padded digits for years 0 to 9999, otherwise a
/// sign and at least four digits.
pub open spec fn year_text(y: int) -> Seq<char> {
    if 0 <= y <= 9999 {
        pad_digits(y as nat, 4)
    } else if y < 0 {
        seq!['-'] + pad_digits((-y) as nat, 4)
    } else {
        seq!['+'] + pad_digits(y as nat, 4)
    }
}

/// A date as `%Y-%m-%d`.
pub open spec fn ymd_text_of(d: CivilDate) -> Seq<char> {
    year_text(d.year as int) + seq!['-'] + pad_digits(d.month as nat, 2) + seq!['-'] + pad_digits(d.day as nat, 2)
}

fn pad_decimal(n: u64, width: usize) -> (r: String)
    ensures
        r@ == pad_digits(n as nat, width as nat),
{
    let digits = u64_decimal(n);
    let len = digits.as_str().unicode_len();
    let mut out = String::new();
    if len < width {
        let mut i: usize = 0;
        while i < width - len
            invariant
                i <= width - len,
                out@ == Seq::new(i as nat, |j: int| '0'),
            decreases width - len - i,
        {
            out.append("0");
            proof {
                reveal_strlit("0");
            }
            assert(out@ =~= Seq::new((i + 1) as nat, |j: int| '0'));
            i = i + 1;
        }
    }
    out.append(digits.as_str());
    proof {
        if len >= width {
            assert(out@ =~= digits@);
        }
    }
    out
}

/// Renders a date as `%Y-%m-%d`, as chrono does.
pub fn ymd_text(d: CivilDate) -> (r: String)
    ensures
        r@ == ymd_text_of(d),
{
    let mut out = if 0 <= d.year && d.year <= 9999 {
        pad_decimal(d.year as u64, 4)
    } else if d.year < 0 {
        let y: u64 = if d.year == i32::MIN {
            2147483648u64
        } else {
            (-d.year) as u64
        };
        let mut s = String::from_str("-");
        let p = pad_decimal(y, 4);
        s.append(p.as_str());
        proof {
            reveal_strlit("-");
        }
        s
    } else {
        let mut s = String::from_str("+");
        let p = pad_decimal(d.year as u64, 4);
        s.append(p.as_str());
        proof {
            reveal_strlit("+");
        }
        s
    };
    out.append("-");
    let m = pad_decimal(d.month as u64, 2);
    out.append(m.as_str());
    out.append("-");
    let dd = pad_decimal(d.day as u64, 2);
    out.append(dd.as_str());
    proof {
        reveal_strlit("-");
    }
    out
}

/// The later of two dates, in calendar order.
pub open spec fn date_later(a: CivilDate, b: CivilDate) -> bool {
    a.year > b.year || (a.year == b.year && (a.month > b.month || (a.month == b.month && a.day > b.day)))
}

/// A date filter field: blank or absent means no filter; otherwise it must
/// read as a `%Y-%m-%d` date.
pub open spec fn date_field(o: Option<Seq<char>>) -> Result<Option<CivilDate>, ()> {
    match o {
        Some(s) => if s.len() == 0 {
            Ok(None)
        } else {
            match ymd_parse(s) {
                Some(d) => Ok(Some(d)),
                None => Err(()),
            }
        },
        None => Ok(None),
    }
}

pub open spec fn opt_date_text(d: Option<CivilDate>) -> Option<Seq<char>> {
    match d {
        Some(d) => Some(ymd_text_of(d)),
        None => None,
    }
}

pub open spec fn opt_string_is(r: Option<String>, t: Option<Seq<char>>) -> bool {
    match t {
        Some(x) => r is Some && r->0@ == x,
        None => r is None,
    }
}

/// The date filters of an analytics request: `400` when either does not
/// read as a date or the range runs backwards; otherwise both, rewritten in
/// canonical `%Y-%m-%d` form.
pub open spec fn date_filters_spec(
    from: Option<Seq<char>>,
    to: Option<Seq<char>>,
    r: Result<(Option<String>, Option<String>), u16>,
) -> bool {
    match date_field(from) {
        Err(()) => r == Err::<(Option<String>, Option<String>), u16>(400),
        Ok(f) => match date_field(to) {
            Err(()) => r == Err::<(Option<String>, Option<String>), u16>(400),
            Ok(t) => if f is Some && t is Some && date_later(f->0, t->0) {
                r == Err::<(Option<String>, Option<String>), u16>(400)
            } else {
                r is Ok && opt_string_is(r->Ok_0.0, opt_date_text(f)) && opt_string_is(r->Ok_0.1, opt_date_text(t))
            },
        },
    }
}

/// The date filters follow the calendar, year first: with both dates given
/// and read, a range whose first day is in an earlier year is accepted, one
/// in a later year refused; within a year an earlier month is accepted and a
/// later one refused; within a month the range is refused exactly when the
/// first day comes after the last. An accepted range hands back both dates
/// in `%Y-%m-%d` form.
pub proof fn law_date_filters_calendar_order(
    from: Seq<char>,
    to: Seq<char>,
    a: CivilDate,
    b: CivilDate,
    r: Result<(Option<String>, Option<String>), u16>,
)
    requires
        from.len() > 0,
        to.len() > 0,
        ymd_parse(from) == Some(a),
        ymd_parse(to) == Some(b),
        date_filters_spec(Some(from), Some(to), r),
    ensures
        a.year < b.year ==> r is Ok,
        a.year > b.year ==> r == Err::<(Option<String>, Option<String>), u16>(400),
        a.year == b.year && a.month < b.month ==> r is Ok,
        a.year == b.year && a.month > b.month ==> r == Err::<(Option<String>, Option<String>), u16>(400),
        a.year == b.year && a.month == b.month ==> (r is Err <==> a.day > b.day),
        a == b ==> r is Ok,
        r is Ok ==> (r->Ok_0.0 matches Some(f) && f@ == ymd_text_of(a)) && (r->Ok_0.1 matches Some(t) && t@
            == ymd_text_of(b)),
        r is Err ==> r == Err::<(Option<String>, Option<String>), u16>(400),
{
}

/// Of two different dates, exactly one order is a valid range: swapping the
/// filters of a refused range gives an accepted one, and the other way
/// round.
pub proof fn law_date_filters_one_order(
    first: Seq<char>,
    second: Seq<char>,
    a: CivilDate,
    b: CivilDate,
    forward: Result<(Option<String>, Option<String>), u16>,
    backward: Result<(Option<String>, Option<String>), u16>,
)
    requires
        first.len() > 0,
        second.len() > 0,
        ymd_parse(first) == Some(a),
        ymd_parse(second) == Some(b),
        a != b,
        date_filters_spec(Some(first), Some(second), forward),
        date_filters_spec(Some(second), Some(first), backward),
    ensures
        forward is Ok <==> backward is Err,
{
    law_date_filters_calendar_order(first, second, a, b, forward);
    law_date_filters_calendar_order(second, first, b, a, backward);
}

fn read_date_field(o: Option<&str>) -> (r: Result<Option<CivilDate>, ()>)
    ensures
        r == date_field(opt_text(o)),
{
    match o {
        Some(s) => if s.is_empty() {
            Ok(None)
        } else {
            match parse_ymd(s) {
                Some(d) => Ok(Some(d)),
                None => Err(()),
            }
        },
        None => Ok(None),
    }
}

pub fn validate_date_filters(date_from: Option<&str>, date_to: Option<&str>) -> (r: Result<
    (Option<String>, Option<String>),
    u16,
>)
    ensures
        date_filters_spec(opt_text(date_from), opt_text(date_to), r),
{
    let f = match read_date_field(date_from) {
        Ok(f) => f,
        Err(()) => return Err(400),
    };
    let t = match read_date_field(date_to) {
        Ok(t) => t,
        Err(()) => return Err(400),
    };
    if let (Some(a), Some(b)) = (f, t) {
        if a.year > b.year || (a.year == b.year && (a.month > b.month || (a.month == b.month && a.day > b.day))) {
            return Err(400);
        }
    }
    let fs = match f {
        Some(d) => Some(ymd_text(d)),
        None => None,
    };
    let ts = match t {
        Some(d) => Some(ymd_text(d)),
        None => None,
    };
    Ok((fs, ts))
}

/// `n` consecutive calendar days starting at `start`, each the day after the
/// one before it; `None` when the run passes chrono's last date.
pub open spec fn days_from(start: CivilDate, n: nat) -> Option<Seq<CivilDate>>
    decreases n,
{
    if n == 0 {
        Some(Seq::empty())
    } else if n == 1 {
        Some(seq![start])
    } else {
        match days_from(start, (n - 1) as nat) {
            Some(ds) => match ymd_next(ds.last()) {
                Some(d) => Some(ds.push(d)),
                None => None,
            },
            None => None,
        }
    }
}

proof fn lemma_days_from_shape(start: CivilDate, n: nat)
    requires
        days_from(start, n) is Some,
    ensures
        days_from(start, n)->0.len() == n,
        n > 0 ==> days_from(start, n)->0[0] == start,
        forall|k: int| 0 <= k < n - 1 ==> ymd_next(#[trigger] days_from(start, n)->0[k]) == Some(days_from(start, n)->0[k + 1]),
    decreases n,
{
    if n > 1 {
        lemma_days_from_shape(start, (n - 1) as nat);
        let ds = days_from(start, (n - 1) as nat)->0;
        let full = days_from(start, n)->0;
        assert forall|k: int| 0 <= k < n - 1 implies ymd_next(#[trigger] full[k]) == Some(full[k + 1]) by {
            if k < n - 2 {
                assert(full[k] == ds[k]);
                assert(full[k + 1] == ds[k + 1]);
            } else {
                assert(full[k] == ds.last());
            }
        }
    }
}

proof fn lemma_days_from_stays_none(start: CivilDate, m: nat, k: nat)
    requires
        days_from(start, m) is None,
        m <= k,
    ensures
        days_from(start, k) is None,
    decreases k - m,
{
    if m < k {
        lemma_days_from_stays_none(start, m, (k - 1) as nat);
    }
}

/// The `%Y-%m-%d` texts of a run of days.
pub open spec fn day_texts(ds: Seq<CivilDate>) -> Seq<Seq<char>> {
    ds.map_values(|d: CivilDate| ymd_text_of(d))
}

/// The thirty-day chart window that starts at `start`: thirty consecutive
/// days, oldest first, as `%Y-%m-%d`; `None` when the window would pass
/// chrono's last date.
pub fn trend_window_from(start: CivilDate) -> (r: Option<Vec<String>>)
    ensures
        match days_from(start, 30) {
            Some(ds) => r matches Some(v) && v@.map_values(|t: String| t@) == day_texts(ds),
            None => r is None,
        },
        r matches Some(v) ==> v@.len() == 30 && exists|ds: Seq<CivilDate>|
            ds.len() == 30 && ds[0] == start
            && (forall|k: int| 0 <= k < 29 ==> ymd_next(#[trigger] ds[k]) == Some(ds[k + 1]))
            && (forall|k: int| 0 <= k < 30 ==> v@[k]@ == ymd_text_of(#[trigger] ds[k])),
{
    let mut out: Vec<String> = Vec::new();
    let mut day = start;
    let mut n: usize = 1;
    out.push(ymd_text(day));
    assert(days_from(start, 1) == Some(seq![start]));
    assert(out@.map_values(|t: String| t@) =~= day_texts(seq![start]));
    while n < 30
        invariant
            1 <= n <= 30,
            days_from(start, n as nat) is Some,
            days_from(start, n as nat)->0.last() == day,
            days_from(start, n as nat)->0.len() == n,
            out@.map_values(|t: String| t@) == day_texts(days_from(start, n as nat)->0),
        decreases 30 - n,
    {
        proof {
            lemma_days_from_shape(start, n as nat);
        }
        match next_day(day) {
            Some(d) => {
                let ghost ds = days_from(start, n as nat)->0;
                let t = ymd_text(d);
                let ghost old_out = out@;
                out.push(t);
                day = d;
                n = n + 1;
                assert(days_from(start, n as nat) == Some(ds.push(d)));
                proof {
                    assert(out@ == old_out.push(t));
                    assert(day_texts(ds.push(d)) =~= day_texts(ds).push(ymd_text_of(d)));
                    assert(old_out.push(t).map_values(|x: String| x@) =~= old_out.map_values(|x: String| x@).push(t@));
                    assert(out@.map_values(|t: String| t@) =~= day_texts(ds.push(d)));
                }
            },
            None => {
                proof {
                    lemma_days_from_stays_none(start, (n + 1) as nat, 30);
                }
                return None;
            },
        }
    }
    proof {
        lemma_days_from_shape(start, 30);
        let ds = days_from(start, 30)->0;
        assert(out@.map_values(|t: String| t@).len() == 30);
        assert forall|k: int| 0 <= k < 30 implies out@[k]@ == ymd_text_of(#[trigger] ds[k]) by {
            assert(out@.map_values(|t: String| t@)[k] == day_texts(ds)[k]);
        }
    }
    Some(out)
}

/// The thirty days of a trend chart, oldest first, ending today (UTC): the
/// clock is read once, for the day twenty-nine days back, and the window is
/// built from it. `None` only when that window would pass chrono's last
/// date.
pub fn trend_window_days() -> (r: Option<Vec<String>>)
    ensures
        exists|start: CivilDate| 1 <= start.month <= 12 && 1 <= start.day <= 31 && match #[trigger] days_from(start, 30) {
            Some(ds) => r matches Some(v) && v@.map_values(|t: String| t@) == day_texts(ds),
            None => r is None,
        },
        r matches Some(v) ==> v@.len() == 30 && exists|ds: Seq<CivilDate>|
            ds.len() == 30
            && (forall|k: int| 0 <= k < 29 ==> ymd_next(#[trigger] ds[k]) == Some(ds[k + 1]))
            && (forall|k: int| 0 <= k < 30 ==> v@[k]@ == ymd_text_of(#[trigger] ds[k])),
{
    let start = utc_date_days_ago(29);
    let r = trend_window_from(start);
    assert(1 <= start.month <= 12 && 1 <= start.day <= 31);
    r
}

// ---------------------------------------------------------------------------
// Access and figures
// ---------------------------------------------------------------------------

/// A tenant sees the figures of a registry target only when it owns it and
/// the target is of the page's kind; otherwise `403`.
pub fn analytics_access(owner_user_id: i64, user_id: i64, target_type: &str, expected: &str) -> (r: Option<Reply>)
    ensures
        (owner_user_id == user_id && target_type@ == expected@) ==> r is None,
        !(owner_user_id == user_id && target_type@ == expected@) ==> r is Some && reply_is(r->0, 403, None, Seq::empty()),
{
    if owner_user_id != user_id || !str_eq(target_type, expected) {
        Some(bare_reply(403, None))
    } else {
        None
    }
}

/// What the ownership lookup of an analytics page leads to.
pub enum OwnershipStep {
    /// Answer at once; none of the target's content or figures is read.
    Reply(Reply),
    /// The account owns the target: read its record and figures.
    ReadFigures,
}

/// A tenant's analytics page for a link (`url`, back to `/user/urls`) or a
/// landing page (`page`, back to `/user/pages`). `lookup` is the registry
/// row under the target id: `Err` when the read failed, `Ok(None)` when
/// there is none, else its owner and kind. No row redirects back with the
/// not-found message, a failed read with `Database error`, a target of
/// another account or of the other kind is `403`; only an owned target of
/// the page's kind is read further.
pub fn analytics_ownership_step(
    lookup: Result<Option<(i64, String)>, ()>,
    user_id: i64,
    is_page: bool,
) -> (r: OwnershipStep)
    ensures
        ({
            let back: Seq<char> = if is_page { "/user/pages?error="@ } else { "/user/urls?error="@ };
            let missing: Seq<char> = if is_page { "Landing page not found"@ } else { "Link not found"@ };
            let kind: Seq<char> = if is_page { "page"@ } else { "url"@ };
            match lookup {
                Err(()) => r matches OwnershipStep::Reply(rep) && reply_is(rep, 303, Some(back + "Database error"@), Seq::empty()),
                Ok(None) => r matches OwnershipStep::Reply(rep) && reply_is(rep, 303, Some(back + missing), Seq::empty()),
                Ok(Some((owner, t))) => if owner == user_id && t@ == kind {
                    r is ReadFigures
                } else {
                    r matches OwnershipStep::Reply(rep) && reply_is(rep, 403, None, Seq::empty())
                },
            }
        }),
{
    let back = if is_page { "/user/pages?error=" } else { "/user/urls?error=" };
    let missing = if is_page { "Landing page not found" } else { "Link not found" };
    let kind = if is_page { "page" } else { "url" };
    proof {
        reveal_strlit("/user/pages?error=");
        reveal_strlit("/user/urls?error=");
        reveal_strlit("Landing page not found");
        reveal_strlit("Link not found");
        reveal_strlit("page");
        reveal_strlit("url");
        reveal_strlit("Database error");
    }
    match lookup {
        Err(()) => OwnershipStep::Reply(bare_reply(303, Some(join_text(back, "Database error")))),
        Ok(None) => OwnershipStep::Reply(bare_reply(303, Some(join_text(back, missing)))),
        Ok(Some((owner, t))) => match analytics_access(owner, user_id, t.as_str(), kind) {
            Some(rep) => OwnershipStep::Reply(rep),
            None => OwnershipStep::ReadFigures,
        },
    }
}

/// The pages refuse a visits table with UTM columns, whose mapping they do
/// not know.
pub fn utm_schema_check(has_utm_source: bool, has_utm_campaign: bool) -> (r: Option<Reply>)
    ensures
        (has_utm_source || has_utm_campaign) ==> r is Some && reply_is(r->0, 500, None, "UTM mapping verification failed"@),
        !(has_utm_source || has_utm_campaign) ==> r is None,
{
    if has_utm_source || has_utm_campaign {
        Some(reply(500, None, "UTM mapping verification failed"))
    } else {
        None
    }
}

/// Clicks that did not come from a QR scan, never below zero.
pub fn direct_clicks(total_clicks: i64, qr_scans: i64) -> (r: i64)
    requires
        i64::MIN <= total_clicks - qr_scans <= i64::MAX,
    ensures
        r == if total_clicks - qr_scans > 0 {
            total_clicks - qr_scans
        } else {
            0
        },
{
    let d = total_clicks - qr_scans;
    if d > 0 {
        d
    } else {
        0
    }
}

/// A visit's country as shown: `Unknown` when none was recorded.
pub fn country_display(country: String) -> (r: String)
    ensures
        country@.len() == 0 ==> r@ == "Unknown"@,
        country@.len() != 0 ==> r == country,
{
    if country.as_str().is_empty() {
        String::from_str("Unknown")
    } else {
        country
    }
}

/// One line of the visitor log.
pub struct VisitorLogEntry {
    /// Position in the whole filtered log, from 1.
    pub sr: usize,
    pub timestamp: String,
    pub ip_address: String,
    pub country: String,
    pub referrer: String,
    pub browser: String,
    pub user_agent: String,
    pub utm_source: String,
    pub utm_campaign: String,
}

/// A raw visit as read for the log or an export, with the browser and the
/// referrer already derived from it.
pub struct VisitRow {
    pub timestamp: String,
    pub ip_address: String,
    pub country: String,
    pub referrer: String,
    pub browser: String,
    pub user_agent: String,
}

/// The log line of the visit at `index` of the page that starts at `offset`.
pub fn visitor_log_entry(offset: usize, index: usize, v: VisitRow) -> (r: VisitorLogEntry)
    requires
        offset + index + 1 <= usize::MAX,
    ensures
        r.sr == offset + index + 1,
        r.timestamp == v.timestamp,
        r.ip_address == v.ip_address,
        v.country@.len() == 0 ==> r.country@ == "Unknown"@,
        v.country@.len() != 0 ==> r.country == v.country,
        r.referrer == v.referrer,
        r.browser == v.browser,
        r.user_agent == v.user_agent,
        r.utm_source@ == "-"@,
        r.utm_campaign@ == "-"@,
{
    VisitorLogEntry {
        sr: offset + index + 1,
        timestamp: v.timestamp,
        ip_address: v.ip_address,
        country: country_display(v.country),
        referrer: v.referrer,
        browser: v.browser,
        user_agent: v.user_agent,
        utm_source: String::from_str("-"),
        utm_campaign: String::from_str("-"),
    }
}

/// Clicks of a tenant that came through a referrer.
pub fn referred_clicks(total_clicks: i64, direct: i64) -> (r: i64)
    requires
        i64::MIN <= total_clicks - direct <= i64::MAX,
    ensures
        r == total_clicks - direct,
{
    total_clicks - direct
}

// ---------------------------------------------------------------------------
// Exports
// ---------------------------------------------------------------------------

/// The most visits a JSON export holds; larger exports are refused with `413`.
pub const MAX_JSON_EXPORT_ROWS: i64 = 50000;

pub fn json_export_refusal(count: i64) -> (r: Option<Reply>)
    ensures
        count > 50000 ==> r is Some && reply_is(r->0, 413, None, Seq::empty()),
        count <= 50000 ==> r is None,
{
    if count > MAX_JSON_EXPORT_ROWS {
        Some(bare_reply(413, None))
    } else {
        None
    }
}

/// The reply when the exported link or page does not exist.
pub fn export_target_missing() -> (r: Reply)
    ensures
        reply_is(r, 404, None, "Target not found"@),
{
    reply(404, None, "Target not found")
}

/// The file name of an export: `url_<id>_analytics.csv` for a link,
/// `page_<id>_analytics.csv` otherwise (`.json` for JSON).
pub fn export_filename(target_type: &str, id: &str, json: bool) -> (r: String)
    ensures
        r@ == (if target_type@ == "url"@ {
            "url_"@
        } else {
            "page_"@
        }) + id@ + (if json {
            "_analytics.json"@
        } else {
            "_analytics.csv"@
        }),
{
    let mut out = if str_eq(target_type, "url") {
        join_text("url_", id)
    } else {
        join_text("page_", id)
    };
    if json {
        out.append("_analytics.json");
    } else {
        out.append("_analytics.csv");
    }
    out
}

/// The columns a CSV export reads: the fixed five, then whichever UTM
/// columns the visits table has.
pub open spec fn export_fields(has_utm_source: bool, has_utm_campaign: bool) -> Seq<char> {
    if has_utm_source && has_utm_campaign {
        "timestamp, ip_address, country, referer, user_agent, utm_source, utm_campaign"@
    } else if has_utm_source {
        "timestamp, ip_address, country, referer, user_agent, utm_source"@
    } else if has_utm_campaign {
        "timestamp, ip_address, country, referer, user_agent, utm_campaign"@
    } else {
        "timestamp, ip_address, country, referer, user_agent"@
    }
}

fn export_fields_text(has_utm_source: bool, has_utm_campaign: bool) -> (r: &'static str)
    ensures
        r@ == export_fields(has_utm_source, has_utm_campaign),
{
    if has_utm_source && has_utm_campaign {
        "timestamp, ip_address, country, referer, user_agent, utm_source, utm_campaign"
    } else if has_utm_source {
        "timestamp, ip_address, country, referer, user_agent, utm_source"
    } else if has_utm_campaign {
        "timestamp, ip_address, country, referer, user_agent, utm_campaign"
    } else {
        "timestamp, ip_address, country, referer, user_agent"
    }
}

/// The query of a CSV export and its parameters, in order.
pub struct ExportQuery {
    pub sql: String,
    pub params: Vec<String>,
}

/// The bounds of an export's period: from the first day's midnight, up to
/// (not including) midnight after the last day.
pub open spec fn export_query_spec(
    has_utm_source: bool,
    has_utm_campaign: bool,
    target_type: Seq<char>,
    target_id: Seq<char>,
    from: Option<Seq<char>>,
    to_next: Option<Seq<char>>,
    q: ExportQuery,
) -> bool {
    let base = "SELECT "@ + export_fields(has_utm_source, has_utm_campaign)
        + " FROM visits WHERE target_type = ?1 AND target_id = ?2"@;
    let from_clause = if from is Some {
        " AND timestamp >= ?3"@
    } else {
        Seq::<char>::empty()
    };
    let to_clause = match to_next {
        Some(_) => if from is Some {
            " AND timestamp < ?4"@
        } else {
            " AND timestamp < ?3"@
        },
        None => Seq::<char>::empty(),
    };
    let from_params = match from {
        Some(f) => seq![f + "T00:00:00Z"@],
        None => Seq::<Seq<char>>::empty(),
    };
    let to_params = match to_next {
        Some(t) => seq![t + "T00:00:00Z"@],
        None => Seq::<Seq<char>>::empty(),
    };
    &&& q.sql@ == base + from_clause + to_clause + " ORDER BY timestamp DESC, id DESC"@
    &&& q.params@.map_values(|p: String| p@) == seq![target_type, target_id] + from_params + to_params
}

fn midnight_of(day: &str) -> (r: String)
    ensures
        r@ == day@ + "T00:00:00Z"@,
{
    join_text(day, "T00:00:00Z")
}

/// Builds the export query from the canonical filter dates; the upper bound
/// is the day after the last day, which the caller computes.
pub fn export_query(
    has_utm_source: bool,
    has_utm_campaign: bool,
    target_type: &str,
    target_id: &str,
    from: Option<&str>,
    to_next: Option<&str>,
) -> (r: ExportQuery)
    ensures
        export_query_spec(has_utm_source, has_utm_campaign, target_type@, target_id@, opt_text(from), opt_text(to_next), r),
{
    let mut sql = String::from_str("SELECT ");
    sql.append(export_fields_text(has_utm_source, has_utm_campaign));
    sql.append(" FROM visits WHERE target_type = ?1 AND target_id = ?2");
    let mut params: Vec<String> = Vec::new();
    params.push(String::from_str(target_type));
    params.push(String::from_str(target_id));
    let ghost mut expected: Seq<Seq<char>> = seq![target_type@, target_id@];
    assert(params@.map_values(|p: String| p@) =~= expected);
    if let Some(f) = from {
        sql.append(" AND timestamp >= ?3");
        params.push(midnight_of(f));
        proof {
            expected = expected.push(f@ + "T00:00:00Z"@);
        }
        assert(params@.map_values(|p: String| p@) =~= expected);
    }
    if let Some(t) = to_next {
        if from.is_some() {
            sql.append(" AND timestamp < ?4");
        } else {
            sql.append(" AND timestamp < ?3");
        }
        params.push(midnight_of(t));
        proof {
            expected = expected.push(t@ + "T00:00:00Z"@);
        }
        assert(params@.map_values(|p: String| p@) =~= expected);
    }
    sql.append(" ORDER BY timestamp DESC, id DESC");
    let q = ExportQuery { sql, params };
    proof {
        let from_params = match opt_text(from) {
            Some(f) => seq![f + "T00:00:00Z"@],
            None => Seq::<Seq<char>>::empty(),
        };
        let to_params = match opt_text(to_next) {
            Some(t) => seq![t + "T00:00:00Z"@],
            None => Seq::<Seq<char>>::empty(),
        };
        assert(expected =~= seq![target_type@, target_id@] + from_params + to_params);
    }
    q
}

/// The day after the last day of an export's period, in canonical form:
/// the last day is read back as a date and the next one taken. `None` when
/// there is no last day, when it does not read back, or when it is the last
/// representable date.
pub fn export_upper_day(to: Option<&str>) -> (r: Option<String>)
    ensures
        match opt_text(to) {
            Some(t) => match ymd_parse(t) {
                Some(d) => match ymd_next(d) {
                    Some(n) => r is Some && r->0@ == ymd_text_of(n),
                    None => r is None,
                },
                None => r is None,
            },
            None => r is None,
        },
{
    match to {
        Some(t) => match parse_ymd(t) {
            Some(d) => match next_day(d) {
                Some(n) => Some(ymd_text(n)),
                None => None,
            },
            None => None,
        },
        None => None,
    }
}

/// The headers of an export response: its type, the attachment name and
/// the number of records it holds.
pub struct ExportHeaders {
    pub content_type: String,
    pub content_disposition: String,
    pub record_count: String,
}

/// The headers of a CSV (`text/csv`) or JSON (`application/json`) export of
/// a link's or page's visits: an attachment under the export's file name,
/// and `X-BZOD-Export-Records` with the filtered visit count.
pub fn export_headers(target_type: &str, id: &str, json: bool, count: i64) -> (r: ExportHeaders)
    ensures
        r.content_type@ == (if json { "application/json"@ } else { "text/csv"@ }),
        r.content_disposition@ == "attachment; filename=\""@ + (if target_type@ == "url"@ {
            "url_"@
        } else {
            "page_"@
        }) + id@ + (if json {
            "_analytics.json"@
        } else {
            "_analytics.csv"@
        }) + "\""@,
        r.record_count@ == crate::text::int_decimal(count as int),
{
    let name = export_filename(target_type, id, json);
    let content_type = if json { String::from_str("application/json") } else { String::from_str("text/csv") };
    proof {
        reveal_strlit("application/json");
        reveal_strlit("text/csv");
    }
    ExportHeaders {
        content_type,
        content_disposition: crate::backups::attachment_disposition(name.as_str()),
        record_count: export_count_header(count),
    }
}

/// The values of a visit's CSV row, in column order: time, address,
/// country (`Unknown` when empty), referrer, browser, user agent, then the
/// UTM source and campaign where the table has those columns.
pub open spec fn csv_visit_values(
    timestamp: Seq<char>,
    ip: Seq<char>,
    country: Seq<char>,
    referrer: Seq<char>,
    browser: Seq<char>,
    user_agent: Seq<char>,
    utm_source: Option<Seq<char>>,
    utm_campaign: Option<Seq<char>>,
) -> Seq<Seq<char>> {
    seq![timestamp, ip, if country.len() == 0 { "Unknown"@ } else { country }, referrer, browser, user_agent]
        + (match utm_source { Some(u) => seq![u], None => Seq::empty() })
        + (match utm_campaign { Some(u) => seq![u], None => Seq::empty() })
}

/// The CSV line of one visit. `referrer` is the cleaned referrer and
/// `browser` the browser read from the user agent.
pub fn csv_visit_line(
    timestamp: String,
    ip: String,
    country: String,
    referrer: String,
    browser: String,
    user_agent: String,
    utm_source: Option<String>,
    utm_campaign: Option<String>,
) -> (r: String)
    ensures
        r@ == crate::csv::csv_line_text(csv_visit_values(timestamp@, ip@, country@, referrer@, browser@, user_agent@,
            opt_string(utm_source), opt_string(utm_campaign))),
{
    let ghost want = csv_visit_values(timestamp@, ip@, country@, referrer@, browser@, user_agent@,
        opt_string(utm_source), opt_string(utm_campaign));
    let mut values: Vec<String> = Vec::new();
    values.push(timestamp);
    values.push(ip);
    values.push(country_display(country));
    values.push(referrer);
    values.push(browser);
    values.push(user_agent);
    proof {
        reveal_strlit("Unknown");
    }
    match utm_source {
        Some(u) => values.push(u),
        None => {},
    }
    match utm_campaign {
        Some(u) => values.push(u),
        None => {},
    }
    assert(values@.map_values(|v: String| v@) =~= want);
    crate::csv::csv_export_line(&values)
}

/// The record-count header of an export.
pub fn export_count_header(count: i64) -> (r: String)
    ensures
        r@ == crate::text::int_decimal(count as int),
{
    crate::text::i64_decimal(count)
}

} // verus!
