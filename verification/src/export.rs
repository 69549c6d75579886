//! Exporting the visits of a link or landing page as CSV or JSON: the date
//! filters and the existence of the target are settled before any figure is
//! read. Each step takes the state and what the last outside operation
//! answered, and says what to do next.

use vstd::prelude::*;
use vstd::string::*;
use crate::analytics::{
    date_filters_spec, export_headers, export_query, export_query_spec, export_upper_day, json_export_refusal,
    validate_date_filters, ymd_next, ymd_parse, ymd_text_of, ExportHeaders, ExportQuery,
};
use crate::csv::{csv_export_header, csv_export_header_text};
use crate::models::{opt_string, opt_text, Reply};
use crate::redirect::{bare_reply, reply, reply_is};

verus! {

/// The export asked for; the same at every step.
pub struct ExportCtx {
    /// `url` or `page`.
    pub target_type: String,
    pub id: String,
    pub date_from: Option<String>,
    pub date_to: Option<String>,
    /// JSON rather than CSV.
    pub json: bool,
}

pub enum ExportState {
    Begin,
    AwaitTarget { from: Option<String>, to: Option<String> },
    AwaitCount { from: Option<String>, to: Option<String> },
    AwaitSchema { from: Option<String>, to: Option<String>, count: i64 },
    AwaitRows { count: i64 },
    Done,
}

pub enum ExportEvent {
    Start,
    /// Whether the link or page exists in the content database.
    TargetChecked(bool),
    /// The number of visits in the period.
    Counted(i64),
    /// Whether the visits table has UTM source and campaign columns.
    SchemaRead { has_utm_source: bool, has_utm_campaign: bool },
    /// Whether reading the visits for the JSON export worked.
    RowsRead(bool),
}

pub enum ExportAction {
    /// Look the target up in the content database (no analytics read).
    CheckTarget,
    /// Count the period's visits.
    CountVisits { from: Option<String>, to: Option<String> },
    ReadSchema,
    /// Read the period's visits for the JSON export.
    ReadRows { from: Option<String>, to: Option<String> },
    Reply(Reply),
    /// Answer `200` with these headers and stream the CSV: this header line,
    /// then one line per row of this query.
    StreamCsv { header_line: String, query: ExportQuery, headers: ExportHeaders },
    /// Answer `200` with these headers and the visits as a JSON array.
    SendJson { headers: ExportHeaders },
    Ignore,
}

/// The day after the last day of the period, as `export_upper_day` gives it.
pub open spec fn upper_day_text(to: Option<Seq<char>>) -> Option<Seq<char>> {
    match to {
        Some(t) => match ymd_parse(t) {
            Some(d) => match ymd_next(d) {
                Some(n) => Some(ymd_text_of(n)),
                None => None,
            },
            None => None,
        },
        None => None,
    }
}

fn as_text(o: &Option<String>) -> (r: Option<&str>)
    ensures
        opt_text(r) == opt_string(*o),
{
    match o {
        Some(s) => Some(s.as_str()),
        None => None,
    }
}

/// One step of an export.
///
/// Dates that do not read, or a period that runs backwards, are `400`; a
/// target that does not exist is `404 Target not found`; in both cases no
/// visit is counted or read and nothing is streamed. A JSON export of more
/// than 50000 visits is `413`.
pub fn export_step(state: ExportState, event: ExportEvent, ctx: &ExportCtx) -> (r: (ExportState, ExportAction))
    ensures
        r.1 is Ignore ==> r.0 == state,
        // nothing of the figures is read before the dates and the target passed
        r.1 is CountVisits ==> state is AwaitTarget && event == ExportEvent::TargetChecked(true),
        r.1 !is Ignore && r.0 is AwaitCount ==> state is AwaitTarget,
        r.1 !is Ignore && r.0 is AwaitTarget ==> state is Begin,
        r.1 is StreamCsv ==> state is AwaitSchema,
        r.1 is SendJson ==> state is AwaitRows,
        state is Begin && event is Start ==> ({
            let f = opt_string(ctx.date_from);
            let t = opt_string(ctx.date_to);
            &&& date_filters_spec(f, t, Err::<(Option<String>, Option<String>), u16>(400)) ==> (r.0 is Done && (r.1 matches ExportAction::Reply(rep)
                && reply_is(rep, 400, None, Seq::empty())))
            &&& (r.0 matches ExportState::AwaitTarget { from, to } ==> date_filters_spec(f, t,
                Ok::<(Option<String>, Option<String>), u16>((from, to))) && r.1 is CheckTarget)
            &&& (!date_filters_spec(f, t, Err::<(Option<String>, Option<String>), u16>(400)) ==> r.0 is AwaitTarget)
        }),
        state matches ExportState::AwaitTarget { from, to } ==> match event {
            ExportEvent::TargetChecked(false) => r.0 is Done && (r.1 matches ExportAction::Reply(rep)
                && reply_is(rep, 404, None, "Target not found"@)),
            ExportEvent::TargetChecked(true) => r.0 == ExportState::AwaitCount { from, to }
                && r.1 == ExportAction::CountVisits { from, to },
            _ => r.1 is Ignore,
        },
        state matches ExportState::AwaitCount { from, to } ==> match event {
            ExportEvent::Counted(n) => if ctx.json {
                if n > 50000 {
                    r.0 is Done && (r.1 matches ExportAction::Reply(rep) && reply_is(rep, 413, None, Seq::empty()))
                } else {
                    r.0 == ExportState::AwaitRows { count: n } && r.1 == ExportAction::ReadRows { from, to }
                }
            } else {
                r.0 == ExportState::AwaitSchema { from, to, count: n } && r.1 is ReadSchema
            },
            _ => r.1 is Ignore,
        },
        state matches ExportState::AwaitSchema { from, to, count } ==> match event {
            ExportEvent::SchemaRead { has_utm_source, has_utm_campaign } => r.0 is Done && (r.1 matches ExportAction::StreamCsv {
                header_line,
                query,
                headers,
            } && header_line@ == csv_export_header_text(has_utm_source, has_utm_campaign) && export_query_spec(
                has_utm_source,
                has_utm_campaign,
                ctx.target_type@,
                ctx.id@,
                opt_string(from),
                upper_day_text(opt_string(to)),
                query,
            ) && headers.content_type@ == "text/csv"@ && headers.record_count@ == crate::text::int_decimal(count as int)),
            _ => r.1 is Ignore,
        },
        state matches ExportState::AwaitRows { count } ==> match event {
            ExportEvent::RowsRead(false) => r.0 is Done && (r.1 matches ExportAction::Reply(rep)
                && reply_is(rep, 500, None, "Database error"@)),
            ExportEvent::RowsRead(true) => r.0 is Done && (r.1 matches ExportAction::SendJson { headers }
                && headers.content_type@ == "application/json"@ && headers.record_count@ == crate::text::int_decimal(
                count as int,
            )),
            _ => r.1 is Ignore,
        },
        state is Done ==> r.1 is Ignore,
{
    match state {
        ExportState::Begin => match event {
            ExportEvent::Start => match validate_date_filters(as_text(&ctx.date_from), as_text(&ctx.date_to)) {
                Err(_) => (ExportState::Done, ExportAction::Reply(bare_reply(400, None))),
                Ok((from, to)) => (ExportState::AwaitTarget { from, to }, ExportAction::CheckTarget),
            },
            _ => (ExportState::Begin, ExportAction::Ignore),
        },
        ExportState::AwaitTarget { from, to } => match event {
            ExportEvent::TargetChecked(false) => (ExportState::Done, ExportAction::Reply(reply(404, None, "Target not found"))),
            ExportEvent::TargetChecked(true) => {
                let f = from.clone();
                let t = to.clone();
                (ExportState::AwaitCount { from, to }, ExportAction::CountVisits { from: f, to: t })
            },
            _ => (ExportState::AwaitTarget { from, to }, ExportAction::Ignore),
        },
        ExportState::AwaitCount { from, to } => match event {
            ExportEvent::Counted(n) => if ctx.json {
                match json_export_refusal(n) {
                    Some(rep) => (ExportState::Done, ExportAction::Reply(rep)),
                    None => (ExportState::AwaitRows { count: n }, ExportAction::ReadRows { from, to }),
                }
            } else {
                (ExportState::AwaitSchema { from, to, count: n }, ExportAction::ReadSchema)
            },
            _ => (ExportState::AwaitCount { from, to }, ExportAction::Ignore),
        },
        ExportState::AwaitSchema { from, to, count } => match event {
            ExportEvent::SchemaRead { has_utm_source, has_utm_campaign } => {
                let next = export_upper_day(as_text(&to));
                let query = export_query(
                    has_utm_source,
                    has_utm_campaign,
                    ctx.target_type.as_str(),
                    ctx.id.as_str(),
                    as_text(&from),
                    as_text(&next),
                );
                let headers = export_headers(ctx.target_type.as_str(), ctx.id.as_str(), false, count);
                proof {
                    reveal_strlit("text/csv");
                }
                (
                    ExportState::Done,
                    ExportAction::StreamCsv {
                        header_line: csv_export_header(has_utm_source, has_utm_campaign),
                        query,
                        headers,
                    },
                )
            },
            _ => (ExportState::AwaitSchema { from, to, count }, ExportAction::Ignore),
        },
        ExportState::AwaitRows { count } => match event {
            ExportEvent::RowsRead(false) => (ExportState::Done, ExportAction::Reply(reply(500, None, "Database error"))),
            ExportEvent::RowsRead(true) => {
                let headers = export_headers(ctx.target_type.as_str(), ctx.id.as_str(), true, count);
                (ExportState::Done, ExportAction::SendJson { headers })
            },
            _ => (ExportState::AwaitRows { count }, ExportAction::Ignore),
        },
        ExportState::Done => (ExportState::Done, ExportAction::Ignore),
    }
}

} // verus!
