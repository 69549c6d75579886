use bzod::models::{Reply, SlugInfo, SlugTargetType, Url};
use bzod::redirect::{
    database_error_reply, next_access_count, redirect_owner_id, short_code_missing, gate_cookie_name, gate_lookup, gate_outcome, gate_path, header_or, page_code_accepted, page_slug_step,
    page_state_reply, page_visit_owner, permanent_redirect_to, redirect_code_accepted, redirect_slug_step,
    url_access_decision, url_access_now, url_access_step, visit_status_code, AccessStep, GateLookup, GateOutcome, Instant, PageStep,
    RedirectStep,
};

fn link(code: &str) -> Url {
    Url {
        id: "u-1".to_string(),
        code: code.to_string(),
        destination: "https://example.com/".to_string(),
        title: None,
        description: None,
        created_at: "2024-01-01T00:00:00Z".to_string(),
        updated_at: "2024-01-01T00:00:00Z".to_string(),
        status: "active".to_string(),
        tags: vec![],
        expires_at: None,
        password_hash: None,
        max_access_count: None,
        access_count: 0,
        expired: false,
        last_latency_ms: None,
        last_status: None,
    }
}

fn slug(status: &str, target: SlugTargetType) -> SlugInfo {
    SlugInfo { owner_tenant_id: "42".to_string(), status: status.to_string(), target_type: target }
}

fn reply_parts(r: &Reply) -> (u16, Option<&str>, &str) {
    (r.status, r.location.as_deref(), r.body.as_str())
}

#[test]
fn permanent_redirect_rejects_crlf() {
    let resp = permanent_redirect_to("https://evil.example/\r\nX-Injected: yes", "abc123");
    assert_eq!(resp.status, 500);
    assert!(resp.location.is_none());
}

#[test]
fn permanent_redirect_rejects_control_chars() {
    let resp = permanent_redirect_to("https://evil.example/\x00payload", "abc123");
    assert_eq!(resp.status, 500);
}

#[test]
fn permanent_redirect_accepts_valid_url() {
    let resp = permanent_redirect_to("https://example.com/path?q=1", "abc123");
    assert_eq!(resp.status, 301);
    let loc = resp.location.clone().unwrap();
    assert_eq!(loc, "https://example.com/path?q=1");
}

#[test]
fn permanent_redirect_refuses_non_http_and_bad_bytes() {
    let r = permanent_redirect_to("ftp://example.com/", "abc123");
    assert_eq!(reply_parts(&r), (500, None, "Invalid redirect destination"));
    let r = permanent_redirect_to("https://", "abc123");
    assert_eq!(r.status, 500);
    let r = permanent_redirect_to("https://example.com/\u{7f}", "abc123");
    assert_eq!(r.status, 500);
    let r = permanent_redirect_to("http://example.com/ü", "abc123");
    assert_eq!(r.status, 301);
}

#[test]
fn gate_paths_and_cookie() {
    assert_eq!(gate_path("abc123"), "/gate/abc123");
    assert_eq!(gate_cookie_name("!promo"), "bzod_gate_!promo");
}

#[test]
fn codes_accepted_for_lookup() {
    assert!(redirect_code_accepted("abc123"));
    assert!(redirect_code_accepted("ab12"));
    assert!(redirect_code_accepted("!my-slug_1"));
    assert!(!redirect_code_accepted("abcde"));
    assert!(!redirect_code_accepted("ABC12G"));
    assert!(page_code_accepted("beef"));
    assert!(!page_code_accepted("abc123"));
}

#[test]
fn registry_step_for_links() {
    match redirect_slug_step("abc123", None) {
        RedirectStep::Reply(r) => assert_eq!(reply_parts(&r), (404, None, "Not Found")),
        RedirectStep::LoadUrl => panic!("expected a reply"),
    }
    match redirect_slug_step("abc123", Some(&slug("flagged", SlugTargetType::Url))) {
        RedirectStep::Reply(r) => assert_eq!(reply_parts(&r), (410, None, "This content has been disabled or moderated")),
        RedirectStep::LoadUrl => panic!("expected a reply"),
    }
    match redirect_slug_step("beef", Some(&slug("active", SlugTargetType::LandingPage))) {
        RedirectStep::Reply(r) => assert_eq!(reply_parts(&r), (308, Some("/p/beef"), "")),
        RedirectStep::LoadUrl => panic!("expected a reply"),
    }
    assert!(matches!(redirect_slug_step("abc123", Some(&slug("active", SlugTargetType::Url))), RedirectStep::LoadUrl));
}

#[test]
fn access_checks_in_order() {
    let now = Instant { secs: 1_700_000_000, nanos: 0 };
    let mut u = link("abc123");
    assert!(matches!(url_access_decision("abc123", &u, None, now, None), AccessStep::Serve));

    u.expired = true;
    match url_access_decision("abc123", &u, None, now, None) {
        AccessStep::Reply(r) => assert_eq!(reply_parts(&r), (410, None, "This link has expired")),
        AccessStep::Serve => panic!("expired link served"),
    }
    u.expired = false;

    u.expires_at = Some("2023-01-01T00:00:00Z".to_string());
    let past = Instant { secs: 1_672_531_200, nanos: 0 };
    match url_access_decision("abc123", &u, Some(past), now, None) {
        AccessStep::Reply(r) => assert_eq!(r.status, 410),
        AccessStep::Serve => panic!("expired link served"),
    }
    let future = Instant { secs: 1_800_000_000, nanos: 0 };
    assert!(matches!(url_access_decision("abc123", &u, Some(future), now, None), AccessStep::Serve));
    u.expires_at = None;

    u.max_access_count = Some(3);
    u.access_count = 3;
    match url_access_decision("abc123", &u, None, now, None) {
        AccessStep::Reply(r) => assert_eq!(reply_parts(&r), (410, None, "This link has reached its maximum access limit")),
        AccessStep::Serve => panic!("exhausted link served"),
    }
    u.access_count = 2;
    assert!(matches!(url_access_decision("abc123", &u, None, now, None), AccessStep::Serve));

    u.password_hash = Some("h".to_string());
    match url_access_decision("abc123", &u, None, now, None) {
        AccessStep::Reply(r) => assert_eq!(reply_parts(&r), (307, Some("/gate/abc123"), "")),
        AccessStep::Serve => panic!("protected link served"),
    }
    match url_access_decision("abc123", &u, None, now, Some("yes")) {
        AccessStep::Reply(r) => assert_eq!(r.status, 307),
        AccessStep::Serve => panic!("protected link served"),
    }
    assert!(matches!(url_access_decision("abc123", &u, None, now, Some("authorized")), AccessStep::Serve));
}

#[test]
fn access_step_reads_rfc3339_expiry() {
    let now = Instant { secs: 1_700_000_000, nanos: 0 };
    let mut u = link("abc123");
    u.expires_at = Some("2023-11-14T22:13:19Z".to_string());
    match url_access_step("abc123", &u, now, None) {
        AccessStep::Reply(r) => assert_eq!(r.status, 410),
        AccessStep::Serve => panic!("expired link served"),
    }
    u.expires_at = Some("2023-11-15T00:13:21+02:00".to_string());
    assert!(matches!(url_access_step("abc123", &u, now, None), AccessStep::Serve));
    u.expires_at = Some("not a date".to_string());
    assert!(matches!(url_access_step("abc123", &u, now, None), AccessStep::Serve));
}

#[test]
fn visit_status_codes() {
    assert_eq!(visit_status_code(true), 200);
    assert_eq!(visit_status_code(false), 302);
}

#[test]
fn gate_unlocks_protected_link() {
    let mut u = link("abc123");
    u.password_hash = Some("secret-hash".to_string());
    let info = slug("active", SlugTargetType::Url);
    let lookup = gate_lookup(Some(&info), Some(&u));
    assert!(matches!(&lookup, GateLookup::Protected(h) if h == "secret-hash"));
    let (cookie_name, location) = match gate_outcome("abc123", lookup, true) {
        GateOutcome::Grant { cookie_name, location } => (cookie_name, location),
        _ => panic!("expected grant"),
    };
    assert_eq!(cookie_name, "bzod_gate_abc123");
    assert_eq!(location, "/abc123");
    let now = Instant { secs: 1, nanos: 0 };
    assert!(matches!(url_access_decision("abc123", &u, None, now, Some("authorized")), AccessStep::Serve));
}

#[test]
fn gate_other_outcomes() {
    assert!(matches!(gate_lookup(None, None), GateLookup::Missing));
    let gone = slug("disabled", SlugTargetType::Url);
    assert!(matches!(gate_lookup(Some(&gone), None), GateLookup::Gone));
    let active = slug("active", SlugTargetType::Url);
    assert!(matches!(gate_lookup(Some(&active), None), GateLookup::Missing));
    let u = link("abc123");
    assert!(matches!(gate_lookup(Some(&active), Some(&u)), GateLookup::Unprotected));

    match gate_outcome("abc123", GateLookup::Missing, false) {
        GateOutcome::Reply(r) => assert_eq!(reply_parts(&r), (404, None, "Url not found")),
        _ => panic!(),
    }
    match gate_outcome("abc123", GateLookup::Gone, false) {
        GateOutcome::Reply(r) => assert_eq!(reply_parts(&r), (410, None, "This content has been disabled or moderated")),
        _ => panic!(),
    }
    match gate_outcome("abc123", GateLookup::Unprotected, false) {
        GateOutcome::Reply(r) => assert_eq!(reply_parts(&r), (307, Some("/abc123"), "")),
        _ => panic!(),
    }
    match gate_outcome("abc123", GateLookup::Protected("h".to_string()), false) {
        GateOutcome::Retry { error } => assert_eq!(error, "Invalid password"),
        _ => panic!(),
    }
}

#[test]
fn landing_page_steps() {
    match page_slug_step(None) {
        PageStep::Reply(r) => assert_eq!(reply_parts(&r), (404, None, "Not Found")),
        PageStep::LoadPage => panic!(),
    }
    match page_slug_step(Some(&slug("disabled", SlugTargetType::LandingPage))) {
        PageStep::Reply(r) => assert_eq!(r.status, 410),
        PageStep::LoadPage => panic!(),
    }
    assert!(matches!(page_slug_step(Some(&slug("active", SlugTargetType::LandingPage))), PageStep::LoadPage));
    let r = page_state_reply(None).unwrap();
    assert_eq!(reply_parts(&r), (404, None, "Landing page not found"));
    let r = page_state_reply(Some("archived")).unwrap();
    assert_eq!(reply_parts(&r), (410, None, "This landing page has been archived"));
    assert!(page_state_reply(Some("published")).is_none());
}

#[test]
fn visit_header_defaults() {
    assert_eq!(header_or(Some("Mozilla"), "Unknown"), "Mozilla");
    assert_eq!(header_or(None, "Direct"), "Direct");
    assert_eq!(page_visit_owner("17"), Some(17));
    assert_eq!(page_visit_owner("01HXYZ"), None);
}

#[test]
fn redirect_path_details() {
    assert_eq!(redirect_owner_id("12"), 12);
    assert_eq!(redirect_owner_id("tenant-x"), 0);
    assert_eq!(reply_parts(&short_code_missing()), (404, None, "Short code not found"));
    assert_eq!(reply_parts(&database_error_reply()), (500, None, "Database error"));
    assert_eq!(next_access_count(Some(9), 3), 9);
    assert_eq!(next_access_count(None, 3), 4);
}

#[test]
fn access_now_uses_clock() {
    let mut u = link("abc123");
    u.expires_at = Some("2001-01-01T00:00:00Z".to_string());
    match url_access_now("abc123", &u, None) {
        AccessStep::Reply(r) => assert_eq!(reply_parts(&r), (410, None, "This link has expired")),
        AccessStep::Serve => panic!("expired link served"),
    }
    u.expires_at = Some("2999-01-01T00:00:00Z".to_string());
    assert!(matches!(url_access_now("abc123", &u, None), AccessStep::Serve));
}
