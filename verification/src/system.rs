//! Operational endpoints: the status report, the Prometheus metrics text,
//! the process memory figure, and the health page's registry findings.

use vstd::prelude::*;
use vstd::string::*;
use crate::text::{chars_of, digits_value, all_digits, int_decimal, i64_decimal, join_text, nat_decimal, u64_decimal};
use crate::models::Reply;
use crate::redirect::{reply, reply_is};

verus! {

/// The authenticated status report.
pub struct StatusResponse {
    pub application: &'static str,
    pub database: String,
    pub queue_size: usize,
    pub memory_usage: String,
    pub uptime_seconds: u64,
    pub version: &'static str,
    pub git_commit: &'static str,
}

/// A recorded background job run.
pub struct JobHistoryRow {
    pub id: String,
    pub job_name: String,
    pub status: String,
    pub started_at: String,
    pub finished_at: Option<String>,
    pub error_message: Option<String>,
}

/// A recorded destination health check.
pub struct HealthCheckRow {
    pub id: String,
    pub object_type: String,
    pub object_id: String,
    pub checked_at: String,
    pub status_code: Option<i64>,
    pub error_message: Option<String>,
    pub is_healthy: i64,
}

/// The database line of the status report.
pub fn status_database_text(connected: bool, files_info: &str) -> (r: String)
    ensures
        connected ==> r@ == "Connected (WAL Mode enabled). Files Info:\n"@ + files_info@,
        !connected ==> r@ == "Disconnected"@,
{
    if connected {
        join_text("Connected (WAL Mode enabled). Files Info:\n", files_info)
    } else {
        String::from_str("Disconnected")
    }
}

/// What `/status` answers.
pub enum StatusStep {
    /// For a caller without an API key or admin session: `200` with this
    /// JSON body (for container and load-balancer health checks); nothing
    /// else is read.
    Public(Reply),
    /// For an authenticated caller: read the database, memory and uptime and
    /// send the full report.
    Full,
}

/// `/status` tells an unauthenticated caller only that the application is
/// healthy: the JSON object `{"application":"Healthy"}`.
pub fn status_step(authenticated: bool) -> (r: StatusStep)
    ensures
        authenticated ==> r is Full,
        !authenticated ==> (r matches StatusStep::Public(rep) && reply_is(rep, 200, None,
            "{\"application\":\"Healthy\"}"@)),
{
    if authenticated {
        StatusStep::Full
    } else {
        StatusStep::Public(reply(200, None, "{\"application\":\"Healthy\"}"))
    }
}

/// The status report: always healthy, with an empty queue, version `0.1.0`.
pub fn status_response(database: String, memory_usage: String, uptime_seconds: u64) -> (r: StatusResponse)
    ensures
        r.application@ == "Healthy"@,
        r.database == database,
        r.queue_size == 0,
        r.memory_usage == memory_usage,
        r.uptime_seconds == uptime_seconds,
        r.version@ == "0.1.0"@,
        r.git_commit@ == "unknown"@,
{
    StatusResponse {
        application: "Healthy",
        database,
        queue_size: 0,
        memory_usage,
        uptime_seconds,
        version: "0.1.0",
        git_commit: "unknown",
    }
}

/// The database line of the admin status page.
pub fn admin_status_database_text(connected: bool, files_info: &str) -> (r: String)
    ensures
        connected ==> r@ == "Operational\n\nDatabase Files:\n"@ + files_info@,
        !connected ==> r@ == "Degraded (Database connections failed)"@,
{
    if connected {
        join_text("Operational\n\nDatabase Files:\n", files_info)
    } else {
        String::from_str("Degraded (Database connections failed)")
    }
}

/// The database line of a tenant's status page.
pub fn user_status_database_text(connected: bool) -> (r: &'static str)
    ensures
        connected ==> r@ == "Operational"@,
        !connected ==> r@ == "Degraded (Database connection failed)"@,
{
    if connected {
        "Operational"
    } else {
        "Degraded (Database connection failed)"
    }
}

/// The figures the metrics endpoint reports.
pub struct MetricsSnapshot {
    pub total_urls: i64,
    pub active_links: i64,
    pub dead_links: i64,
    pub total_pages: i64,
    pub total_clicks: i64,
    pub total_page_views: i64,
    pub mem_bytes: u64,
    pub uptime: u64,
}

/// One gauge or counter of the metrics text: help line, type line, value line.
pub open spec fn metric_block(name: Seq<char>, help: Seq<char>, kind: Seq<char>, value: Seq<char>) -> Seq<char> {
    "# HELP "@ + name + " "@ + help + "\n# TYPE "@ + name + " "@ + kind + "\n"@ + name + " "@ + value + "\n"@
}

/// The metrics text in the Prometheus exposition format, blocks separated
/// by blank lines.
pub open spec fn metrics_text_of(m: MetricsSnapshot) -> Seq<char> {
    metric_block("bzod_urls_total"@, "Total number of registered short URLs"@, "gauge"@, int_decimal(m.total_urls as int))
        + "\n"@ + metric_block(
        "bzod_active_urls"@,
        "Total number of active/healthy short URLs"@,
        "gauge"@,
        int_decimal(m.active_links as int),
    ) + "\n"@ + metric_block(
        "bzod_dead_urls"@,
        "Total number of dead short URLs"@,
        "gauge"@,
        int_decimal(m.dead_links as int),
    ) + "\n"@ + metric_block(
        "bzod_pages_total"@,
        "Total number of registered landing pages"@,
        "gauge"@,
        int_decimal(m.total_pages as int),
    ) + "\n"@ + metric_block(
        "bzod_clicks_total"@,
        "Total number of URL clicks recorded"@,
        "counter"@,
        int_decimal(m.total_clicks as int),
    ) + "\n"@ + metric_block(
        "bzod_page_views_total"@,
        "Total number of page views recorded"@,
        "counter"@,
        int_decimal(m.total_page_views as int),
    ) + "\n"@ + metric_block(
        "bzod_memory_bytes"@,
        "Memory usage of the bzod process in bytes"@,
        "gauge"@,
        nat_decimal(m.mem_bytes as nat),
    ) + "\n"@ + metric_block(
        "bzod_uptime_seconds"@,
        "Uptime of the bzod process in seconds"@,
        "counter"@,
        nat_decimal(m.uptime as nat),
    )
}

fn push_block(out: &mut String, name: &str, help: &str, kind: &str, value: &str)
    ensures
        final(out)@ == old(out)@ + metric_block(name@, help@, kind@, value@),
{
    out.append("# HELP ");
    out.append(name);
    out.append(" ");
    out.append(help);
    out.append("\n# TYPE ");
    out.append(name);
    out.append(" ");
    out.append(kind);
    out.append("\n");
    out.append(name);
    out.append(" ");
    out.append(value);
    out.append("\n");
    assert(final(out)@ =~= old(out)@ + metric_block(name@, help@, kind@, value@));
}

/// Renders the metrics text.
pub fn metrics_text(m: &MetricsSnapshot) -> (r: String)
    ensures
        r@ == metrics_text_of(*m),
{
    let mut out = String::new();
    let v = i64_decimal(m.total_urls);
    push_block(&mut out, "bzod_urls_total", "Total number of registered short URLs", "gauge", v.as_str());
    out.append("\n");
    let v = i64_decimal(m.active_links);
    push_block(&mut out, "bzod_active_urls", "Total number of active/healthy short URLs", "gauge", v.as_str());
    out.append("\n");
    let v = i64_decimal(m.dead_links);
    push_block(&mut out, "bzod_dead_urls", "Total number of dead short URLs", "gauge", v.as_str());
    out.append("\n");
    let v = i64_decimal(m.total_pages);
    push_block(&mut out, "bzod_pages_total", "Total number of registered landing pages", "gauge", v.as_str());
    out.append("\n");
    let v = i64_decimal(m.total_clicks);
    push_block(&mut out, "bzod_clicks_total", "Total number of URL clicks recorded", "counter", v.as_str());
    out.append("\n");
    let v = i64_decimal(m.total_page_views);
    push_block(&mut out, "bzod_page_views_total", "Total number of page views recorded", "counter", v.as_str());
    out.append("\n");
    let v = u64_decimal(m.mem_bytes);
    push_block(&mut out, "bzod_memory_bytes", "Memory usage of the bzod process in bytes", "gauge", v.as_str());
    out.append("\n");
    let v = u64_decimal(m.uptime);
    push_block(&mut out, "bzod_uptime_seconds", "Uptime of the bzod process in seconds", "counter", v.as_str());
    assert(out@ =~= metrics_text_of(*m));
    out
}

// ---------------------------------------------------------------------------
// Memory
// ---------------------------------------------------------------------------

/// The Unicode `White_Space` characters, which std `char::is_whitespace`
/// tests for: tab to carriage return, space, next line, no-break space,
/// ogham space mark, en quad to hair space, line and paragraph separators,
/// narrow no-break space, medium mathematical space, ideographic space.
pub open spec fn white_space(c: char) -> bool {
    let n = c as u32;
    (0x09 <= n && n <= 0x0D) || n == 0x20 || n == 0x85 || n == 0xA0 || n == 0x1680 || (0x2000 <= n && n <= 0x200A)
        || n == 0x2028 || n == 0x2029 || n == 0x202F || n == 0x205F || n == 0x3000
}

/// Whether a character is whitespace, as std `char::is_whitespace` answers.
fn char_is_whitespace(c: char) -> (r: bool)
    ensures
        r == white_space(c),
{
    let n = c as u32;
    (0x09 <= n && n <= 0x0D) || n == 0x20 || n == 0x85 || n == 0xA0 || n == 0x1680 || (0x2000 <= n && n <= 0x200A)
        || n == 0x2028 || n == 0x2029 || n == 0x202F || n == 0x205F || n == 0x3000
}

/// The text after its leading whitespace.
pub open spec fn skip_space(s: Seq<char>) -> Seq<char>
    decreases s.len(),
{
    if s.len() > 0 && white_space(s[0]) {
        skip_space(s.drop_first())
    } else {
        s
    }
}

/// The leading run of non-whitespace characters.
pub open spec fn word_prefix(s: Seq<char>) -> Seq<char>
    decreases s.len(),
{
    if s.len() == 0 || white_space(s[0]) {
        Seq::empty()
    } else {
        seq![s[0]] + word_prefix(s.drop_first())
    }
}

/// The first whitespace-separated word of a text (std `split_whitespace`).
pub open spec fn first_word(s: Seq<char>) -> Option<Seq<char>> {
    let t = skip_space(s);
    if t.len() == 0 {
        None
    } else {
        Some(word_prefix(t))
    }
}

fn first_word_of(s: &str) -> (r: Option<Vec<char>>)
    ensures
        match first_word(s@) {
            Some(w) => r is Some && r->0@ == w,
            None => r is None,
        },
{
    let cs = chars_of(s);
    let mut i: usize = 0;
    assert(s@.skip(0) =~= s@);
    while i < cs.len() && char_is_whitespace(cs[i])
        invariant
            cs@ == s@,
            i <= cs.len(),
            skip_space(s@) == skip_space(s@.skip(i as int)),
        decreases cs.len() - i,
    {
        assert(s@.skip(i as int).drop_first() =~= s@.skip(i + 1));
        i = i + 1;
    }
    let ghost t = s@.skip(i as int);
    assert(skip_space(t) == t);
    if i == cs.len() {
        return None;
    }
    let mut w: Vec<char> = Vec::new();
    let mut j: usize = i;
    assert(t.subrange(0, 0) =~= Seq::<char>::empty());
    while j < cs.len() && !char_is_whitespace(cs[j])
        invariant
            cs@ == s@,
            i <= j <= cs.len(),
            t == s@.skip(i as int),
            w@ == t.subrange(0, j - i),
            word_prefix(t) == w@ + word_prefix(s@.skip(j as int)),
            forall|k: int| i <= k < j ==> !white_space(#[trigger] s@[k]),
        decreases cs.len() - j,
    {
        assert(s@.skip(j as int).drop_first() =~= s@.skip(j + 1));
        assert(s@.skip(j as int)[0] == cs@[j as int]);
        w.push(cs[j]);
        j = j + 1;
        assert(w@ =~= t.subrange(0, j - i));
        assert(w@ + word_prefix(s@.skip(j as int)) =~= w@.drop_last() + (seq![cs@[j - 1]] + word_prefix(s@.skip(j as int))));
    }
    assert(word_prefix(s@.skip(j as int)) =~= Seq::<char>::empty()) by {
        if j < cs.len() {
            assert(s@.skip(j as int)[0] == cs@[j as int]);
        }
    }
    assert(w@ =~= word_prefix(t));
    Some(w)
}

/// What std `str::parse::<u64>` reads: an optional `+` and one or more
/// digits, within range.
pub open spec fn parse_u64_text(s: Seq<char>) -> Option<u64> {
    let body = if s.len() > 0 && s[0] == '+' {
        s.drop_first()
    } else {
        s
    };
    if body.len() == 0 || !all_digits(body) || digits_value(body) > u64::MAX {
        None
    } else {
        Some(digits_value(body) as u64)
    }
}

/// The memory reported from `/proc/self/statm`: its first field (the total
/// program size, in pages) times 4096 bytes; 0 when it does not read as a
/// number.
pub open spec fn statm_bytes(statm: Seq<char>) -> int {
    match first_word(statm) {
        Some(w) => match parse_u64_text(w) {
            Some(p) => p * 4096,
            None => 0,
        },
        None => 0,
    }
}

proof fn lemma_digits_step(s: Seq<char>, i: int)
    requires
        0 <= i < s.len(),
    ensures
        digits_value(s.take(i + 1)) == digits_value(s.take(i)) * 10 + ((s[i] as nat) - 48) as nat,
{
    assert(s.take(i + 1).drop_last() =~= s.take(i));
}

fn parse_u64(s: &Vec<char>) -> (r: Option<u64>)
    ensures
        r == parse_u64_text(s@),
{
    let start: usize = if s.len() > 0 && s[0] == '+' {
        1
    } else {
        0
    };
    let ghost body = if s@.len() > 0 && s@[0] == '+' {
        s@.drop_first()
    } else {
        s@
    };
    assert(body =~= s@.subrange(start as int, s@.len() as int));
    if start == s.len() {
        return None;
    }
    let mut v: u64 = 0;
    let mut i: usize = start;
    assert(body.take(0) =~= Seq::<char>::empty());
    while i < s.len()
        invariant
            start <= i <= s.len(),
            body == s@.subrange(start as int, s@.len() as int),
            body == (if s@.len() > 0 && s@[0] == '+' {
                s@.drop_first()
            } else {
                s@
            }),
            all_digits(body.take(i - start)),
            v as nat == digits_value(body.take(i - start)),
        decreases s.len() - i,
    {
        let c = s[i];
        assert(body[i - start] == s@[i as int]);
        if !('0' <= c && c <= '9') {
            assert(!crate::text::is_digit(body[i - start]));
            assert(!all_digits(body));
            return None;
        }
        proof {
            lemma_digits_step(body, i - start);
            assert(body.take(i - start + 1) =~= body.take(i - start).push(c));
        }
        let d = (c as u64) - 48;
        if v > 1844674407370955161u64 || (v == 1844674407370955161u64 && d > 5) {
            proof {
                assert(v as int * 10 + d as int > u64::MAX) by (nonlinear_arith)
                    requires
                        v > 1844674407370955161u64 || (v == 1844674407370955161u64 && d > 5),
                ;
                if all_digits(body) {
                    lemma_digits_prefix_grows(body, i - start + 1);
                }
            }
            return None;
        }
        v = v * 10 + d;
        i = i + 1;
    }
    assert(body.take(s.len() - start) =~= body);
    Some(v)
}

/// Reading more digits never lowers the value read so far.
proof fn lemma_digits_prefix_grows(s: Seq<char>, k: int)
    requires
        0 <= k <= s.len(),
        all_digits(s),
    ensures
        digits_value(s.take(k)) <= digits_value(s),
    decreases s.len() - k,
{
    if k < s.len() {
        lemma_digits_prefix_grows(s, k + 1);
        lemma_digits_step(s, k);
    } else {
        assert(s.take(k) =~= s);
    }
}

/// The memory of the process from the text of `/proc/self/statm`: the
/// first field (total program size, in pages) times 4096 bytes, 0 when it does not read
/// as a number.
pub fn statm_memory_bytes(statm: &str) -> (r: u64)
    requires
        statm_bytes(statm@) <= u64::MAX,
    ensures
        r == statm_bytes(statm@),
{
    match first_word_of(statm) {
        Some(w) => match parse_u64(&w) {
            Some(p) => p * 4096,
            None => 0,
        },
        None => 0,
    }
}

// ---------------------------------------------------------------------------
// Registry findings
// ---------------------------------------------------------------------------

/// The kinds of registry finding the health page tells apart.
pub enum RegistryIssueKind {
    StaleReservation,
    TenantAdminHasIsolatedContent,
    /// Any other kind of finding.
    Other,
}

/// A finding of the registry scan.
pub struct RegistryIssue {
    pub kind: RegistryIssueKind,
    pub slug: String,
    pub description: String,
}

/// Stale reservations and isolated admin content are warnings; everything
/// else is an error.
pub open spec fn is_warning() -> spec_fn(RegistryIssue) -> bool {
    |i: RegistryIssue| i.kind is StaleReservation || i.kind is TenantAdminHasIsolatedContent
}

pub open spec fn is_error() -> spec_fn(RegistryIssue) -> bool {
    |i: RegistryIssue| !(i.kind is StaleReservation || i.kind is TenantAdminHasIsolatedContent)
}

pub open spec fn warning_line() -> spec_fn(RegistryIssue) -> Seq<char> {
    |i: RegistryIssue| "Warning for slug "@ + i.slug@ + ": "@ + i.description@
}

pub open spec fn error_line() -> spec_fn(RegistryIssue) -> Seq<char> {
    |i: RegistryIssue| "Error for slug "@ + i.slug@ + ": "@ + i.description@
}

fn issue_line(prefix: &str, i: &RegistryIssue) -> (r: String)
    ensures
        r@ == prefix@ + i.slug@ + ": "@ + i.description@,
{
    let mut out = join_text(prefix, i.slug.as_str());
    out.append(": ");
    out.append(i.description.as_str());
    out
}

/// Splits the findings into error lines and warning lines, each in the
/// order found.
pub fn classify_registry_issues(issues: Vec<RegistryIssue>) -> (r: (Vec<String>, Vec<String>))
    ensures
        crate::text::texts(r.0@) == issues@.filter(is_error()).map_values(error_line()),
        crate::text::texts(r.1@) == issues@.filter(is_warning()).map_values(warning_line()),
{
    let ghost orig = issues@;
    let mut issues = issues;
    let mut errors: Vec<String> = Vec::new();
    let mut warnings: Vec<String> = Vec::new();
    let mut k: usize = 0;
    assert(orig.len() == issues.len());
    while issues.len() > 0
        invariant
            k + issues.len() == orig.len(),
            orig.len() <= usize::MAX,
            issues@ == orig.subrange(k as int, orig.len() as int),
            crate::text::texts(errors@) == orig.take(k as int).filter(is_error()).map_values(error_line()),
            crate::text::texts(warnings@) == orig.take(k as int).filter(is_warning()).map_values(warning_line()),
        decreases issues.len(),
    {
        let it = issues.remove(0);
        assert(it == orig[k as int]);
        proof {
            reveal(Seq::filter);
            assert(orig.take(k + 1).drop_last() =~= orig.take(k as int));
        }
        let warn = match it.kind {
            RegistryIssueKind::StaleReservation => true,
            RegistryIssueKind::TenantAdminHasIsolatedContent => true,
            RegistryIssueKind::Other => false,
        };
        if warn {
            let ghost before = crate::text::texts(warnings@);
            let line = issue_line("Warning for slug ", &it);
            warnings.push(line);
            assert(crate::text::texts(warnings@) =~= before.push(warning_line()(it)));
            assert(orig.take(k as int).filter(is_warning()).push(it).map_values(warning_line())
                =~= orig.take(k as int).filter(is_warning()).map_values(warning_line()).push(warning_line()(it)));
        } else {
            let ghost before = crate::text::texts(errors@);
            let line = issue_line("Error for slug ", &it);
            errors.push(line);
            assert(crate::text::texts(errors@) =~= before.push(error_line()(it)));
            assert(orig.take(k as int).filter(is_error()).push(it).map_values(error_line())
                =~= orig.take(k as int).filter(is_error()).map_values(error_line()).push(error_line()(it)));
        }
        k = k + 1;
        assert(issues@ =~= orig.subrange(k as int, orig.len() as int));
    }
    assert(orig.take(k as int) =~= orig);
    (errors, warnings)
}

/// When the scan itself fails, its error is the one error line.
pub fn registry_scan_failure(reason: &str) -> (r: (Vec<String>, Vec<String>))
    ensures
        r.0@.len() == 1,
        r.0@[0]@ == "Failed to run registry scan: "@ + reason@,
        r.1@.len() == 0,
{
    let mut errors: Vec<String> = Vec::new();
    errors.push(join_text("Failed to run registry scan: ", reason));
    (errors, Vec::new())
}

} // verus!
