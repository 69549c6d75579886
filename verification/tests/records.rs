use bzod::models::SlugTargetType;
use bzod::moderation::moderation_event;
use bzod::records::{page_visit_record, url_visit_record, VisitHeaders};

fn is_uuid_v4(s: &str) -> bool {
    let b: Vec<char> = s.chars().collect();
    if b.len() != 36 {
        return false;
    }
    for (i, c) in b.iter().enumerate() {
        let ok = if i == 8 || i == 13 || i == 18 || i == 23 {
            *c == '-'
        } else {
            c.is_ascii_digit() || ('a'..='f').contains(c)
        };
        if !ok {
            return false;
        }
    }
    b[14] == '4' && matches!(b[19], '8' | '9' | 'a' | 'b')
}

fn headers(ua: Option<&str>, referer: Option<&str>, lang: Option<&str>) -> VisitHeaders {
    VisitHeaders {
        user_agent: ua.map(|s| s.to_string()),
        referer: referer.map(|s| s.to_string()),
        accept_language: lang.map(|s| s.to_string()),
    }
}

#[test]
fn url_visit_keeps_request_and_owner() {
    let r = url_visit_record(
        "url-7",
        "203.0.113.9",
        "DE",
        headers(Some("curl/8"), Some("https://ref.example/"), Some("de-DE")),
        false,
        Some("42".to_string()),
        42,
    );
    assert!(is_uuid_v4(&r.id));
    assert!(r.timestamp.ends_with("+00:00"));
    assert!(r.timestamp.len() >= 25);
    assert_eq!(r.target_type, "url");
    assert_eq!(r.target_id, "url-7");
    assert_eq!(r.ip_address, "203.0.113.9");
    assert_eq!(r.country, "DE");
    assert_eq!(r.user_agent, "curl/8");
    assert_eq!(r.referer, "https://ref.example/");
    assert_eq!(r.accept_language, "de-DE");
    assert_eq!(r.status_code, 302);
    assert_eq!(r.owner_tenant_id, Some("42".to_string()));
    assert_eq!(r.owner_user_id, Some(42));
}

#[test]
fn url_visit_with_preview_is_200_and_defaults_headers() {
    let r = url_visit_record("u", "ip", "XX", headers(None, None, None), true, None, 3);
    assert_eq!(r.status_code, 200);
    assert_eq!(r.user_agent, "Unknown");
    assert_eq!(r.referer, "Direct");
    assert_eq!(r.accept_language, "Unknown");
}

#[test]
fn page_visit_owner_from_tenant_text() {
    let r = page_visit_record("page-1", "ip", "FR", headers(None, Some("x"), None), "17", None);
    assert!(is_uuid_v4(&r.id));
    assert_eq!(r.target_type, "page");
    assert_eq!(r.target_id, "page-1");
    assert_eq!(r.status_code, 200);
    assert_eq!(r.owner_user_id, Some(17));
    assert_eq!(r.referer, "x");
    let r2 = page_visit_record("page-1", "ip", "FR", headers(None, None, None), "tenant-x", None);
    assert_eq!(r2.owner_user_id, None);
}

#[test]
fn visits_get_distinct_ids() {
    let a = url_visit_record("u", "ip", "XX", headers(None, None, None), false, None, 1);
    let b = url_visit_record("u", "ip", "XX", headers(None, None, None), false, None, 1);
    assert_ne!(a.id, b.id);
}

#[test]
fn moderation_event_fields() {
    let e = moderation_event(
        "2024-05-01T10:00:00+00:00",
        "admin",
        9,
        Some("alice".to_string()),
        SlugTargetType::LandingPage,
        "promo",
        "disabled",
        "high",
        "spam",
    );
    assert!(is_uuid_v4(&e.id));
    assert_eq!(e.timestamp, "2024-05-01T10:00:00+00:00");
    assert_eq!(e.admin_username, "admin");
    assert_eq!(e.target_user_id, 9);
    assert_eq!(e.target_username, Some("alice".to_string()));
    assert_eq!(e.resource_type, "page");
    assert_eq!(e.resource_identifier, "promo");
    assert_eq!(e.action, "disabled");
    assert_eq!(e.severity, "high");
    assert_eq!(e.reason, "spam");
    let u = moderation_event("t", "a", 0, None, SlugTargetType::Url, "s", "flagged", "low", "r");
    assert_eq!(u.resource_type, "url");
}
