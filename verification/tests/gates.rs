use bzod::analytics::{analytics_ownership_step, csv_visit_line, export_headers, trend_window_from, CivilDate, OwnershipStep};
use bzod::backups::{
    backup_download_end, backup_download_step, restore_gate, restore_temp_name, DownloadEnd, DownloadStep, RestorePage,
};
use bzod::deletion::user_deletion_plan;
use bzod::models::TenantUser;
use bzod::moderation::{slug_history_query, slug_query};
use bzod::qr::{qr_image_outcome, qr_lookup_reply, qr_stats_gate, QrFormat, QrImageOutcome};
use bzod::redirect::{redirect_entry, EntryStep};

#[test]
fn restore_checks_csrf_first() {
    assert_eq!(
        restore_gate(RestorePage::UserSettings, false, "nope", 0),
        Some("/user/settings?error=Invalid CSRF token".to_string())
    );
    assert_eq!(
        restore_gate(RestorePage::AdminSettings, true, "restore", 10),
        Some("/admin/settings?error=Confirmation text must be exactly 'RESTORE'".to_string())
    );
    assert_eq!(
        restore_gate(RestorePage::AdminSettings, true, "RESTORE", 0),
        Some("/admin/settings?error=No backup file uploaded".to_string())
    );
    assert_eq!(
        restore_gate(RestorePage::AdminBackups, true, "x", 3),
        Some("/admin/backups?error=Confirmation text mismatch. Please type RESTORE.".to_string())
    );
    assert_eq!(restore_gate(RestorePage::AdminBackups, true, "RESTORE", 3), None);
}

#[test]
fn restore_temp_names() {
    let a = restore_temp_name(RestorePage::UserSettings);
    assert!(a.starts_with("bzod_user_restore_") && a.ends_with(".tar.gz"));
    assert_eq!(a.len(), "bzod_user_restore_".len() + 36 + ".tar.gz".len());
    let b = restore_temp_name(RestorePage::AdminSettings);
    assert!(b.starts_with("bzod_restore_") && b.ends_with(".tar.gz"));
    assert_ne!(a["bzod_user_restore_".len()..], b["bzod_restore_".len()..]);
    assert_eq!(restore_temp_name(RestorePage::AdminBackups), "temp-restore-upload.tar.gz");
}

#[test]
fn redirect_entry_refuses_malformed_codes() {
    match redirect_entry("not a code!") {
        EntryStep::Reply(r) => assert_eq!((r.status, r.body.as_str(), r.location), (404, "Not Found", None)),
        EntryStep::LookupSlug => panic!("no lookup expected"),
    }
    assert!(matches!(redirect_entry("abc123"), EntryStep::LookupSlug));
    assert!(matches!(redirect_entry("ab12"), EntryStep::LookupSlug));
}

#[test]
fn analytics_ownership() {
    match analytics_ownership_step(Ok(None), 3, false) {
        OwnershipStep::Reply(r) => {
            assert_eq!(r.status, 303);
            assert_eq!(r.location, Some("/user/urls?error=Link not found".to_string()));
        }
        _ => panic!(),
    }
    match analytics_ownership_step(Ok(None), 3, true) {
        OwnershipStep::Reply(r) => assert_eq!(r.location, Some("/user/pages?error=Landing page not found".to_string())),
        _ => panic!(),
    }
    match analytics_ownership_step(Err(()), 3, true) {
        OwnershipStep::Reply(r) => assert_eq!(r.location, Some("/user/pages?error=Database error".to_string())),
        _ => panic!(),
    }
    match analytics_ownership_step(Ok(Some((4, "url".to_string()))), 3, false) {
        OwnershipStep::Reply(r) => assert_eq!(r.status, 403),
        _ => panic!(),
    }
    match analytics_ownership_step(Ok(Some((3, "page".to_string()))), 3, false) {
        OwnershipStep::Reply(r) => assert_eq!(r.status, 403),
        _ => panic!(),
    }
    assert!(matches!(analytics_ownership_step(Ok(Some((3, "url".to_string()))), 3, false), OwnershipStep::ReadFigures));
}

#[test]
fn csv_export_rows_and_headers() {
    let line = csv_visit_line(
        "2024-01-01T00:00:00Z".to_string(),
        "1.1.1.1".to_string(),
        "".to_string(),
        "Direct".to_string(),
        "Firefox".to_string(),
        "Mozilla/5.0, X".to_string(),
        Some("news".to_string()),
        None,
    );
    assert_eq!(line, "2024-01-01T00:00:00Z,1.1.1.1,Unknown,Direct,Firefox,\"Mozilla/5.0, X\",news\n");
    let h = export_headers("url", "u1", false, 42);
    assert_eq!(h.content_type, "text/csv");
    assert_eq!(h.content_disposition, "attachment; filename=\"url_u1_analytics.csv\"");
    assert_eq!(h.record_count, "42");
    let j = export_headers("page", "p", true, 0);
    assert_eq!(j.content_type, "application/json");
    assert_eq!(j.content_disposition, "attachment; filename=\"page_p_analytics.json\"");
}

#[test]
fn slug_listing_queries() {
    let q = slug_query(false, Some(" pro "), Some(" "));
    assert_eq!(
        q.sql,
        "SELECT slug, owner_tenant_id, target_id, created_at, updated_at, status, retired_at FROM global_urls WHERE 1=1 AND slug LIKE ? ORDER BY created_at DESC LIMIT 100;"
    );
    assert_eq!(q.params, vec!["%pro%".to_string()]);
    let p = slug_query(true, None, Some("flagged"));
    assert_eq!(
        p.sql,
        "SELECT slug, owner_tenant_id, target_id, created_at, updated_at, status, retired_at FROM global_landing_pages WHERE 1=1 AND status = ? ORDER BY created_at DESC LIMIT 100;"
    );
    assert_eq!(p.params, vec!["flagged".to_string()]);
    assert!(slug_history_query().ends_with("ORDER BY timestamp DESC LIMIT 50;"));
}

#[test]
fn qr_gates() {
    let r = qr_stats_gate(false).unwrap();
    assert_eq!((r.status, r.body.as_str()), (401, "Unauthorized"));
    assert!(qr_stats_gate(true).is_none());
    assert_eq!(qr_lookup_reply(Ok(false), true).unwrap().body, "URL not found");
    assert_eq!(qr_lookup_reply(Ok(false), false).unwrap().body, "Url not found");
    assert_eq!(qr_lookup_reply(Err(()), false).unwrap().status, 500);
    assert!(qr_lookup_reply(Ok(true), false).is_none());
    match qr_image_outcome(QrFormat::Png, Ok(())) {
        QrImageOutcome::Serve { content_type, cache_control, log_access } => {
            assert_eq!(content_type, "image/png");
            assert_eq!(cache_control, "public, max-age=86400");
            assert!(log_access);
        }
        _ => panic!(),
    }
    match qr_image_outcome(QrFormat::Svg, Err("too long".to_string())) {
        QrImageOutcome::Fail(r) => assert_eq!((r.status, r.body.as_str()), (500, "QR generation error: too long")),
        _ => panic!(),
    }
}

fn member(tenant: Option<&str>) -> TenantUser {
    TenantUser {
        id: 9,
        username: "carol".to_string(),
        password_hash: "h".to_string(),
        status: "active".to_string(),
        account_type: "standard".to_string(),
        created_at: "2024".to_string(),
        metadata: None,
        tenant_id: tenant.map(|t| t.to_string()),
    }
}

#[test]
fn user_deletion_plans() {
    assert_eq!(
        user_deletion_plan(1, false, Ok(Some(member(None))), vec![], vec![], "admin", "now").err(),
        Some("Deleting legacy_admin system account requires force flag".to_string())
    );
    assert_eq!(user_deletion_plan(9, false, Ok(None), vec![], vec![], "admin", "now").err(), Some("User not found".to_string()));
    assert_eq!(
        user_deletion_plan(9, false, Err("locked".to_string()), vec![], vec![], "admin", "now").err(),
        Some("locked".to_string())
    );
    let p = user_deletion_plan(9, false, Ok(Some(member(Some("t9")))), vec!["a".to_string()], vec!["b".to_string()], "admin", "now")
        .ok()
        .unwrap();
    let got: Vec<(String, bool)> = p.removals.iter().map(|r| (r.slug.clone(), r.is_page)).collect();
    assert_eq!(got, vec![("a".to_string(), false), ("b".to_string(), true)]);
    assert_eq!(p.history_action, "deleted");
    assert_eq!(p.history_old_owner, 9);
    assert_eq!(p.user_id, 9);
    assert_eq!(p.audit.action, "USER_DELETION");
    assert_eq!(p.audit.object_id, "9");
    assert_eq!(p.audit.metadata, Some("Username: carol".to_string()));
    let none = user_deletion_plan(9, false, Ok(Some(member(None))), vec!["a".to_string()], vec![], "admin", "now").ok().unwrap();
    assert!(none.removals.is_empty());
}

#[test]
fn backup_download_gates() {
    match backup_download_step(false, "a.tar.gz") {
        DownloadStep::Reply(r) => assert_eq!(r.status, 401),
        _ => panic!(),
    }
    match backup_download_step(true, "../a.tar.gz") {
        DownloadStep::Reply(r) => assert_eq!(r.status, 400),
        _ => panic!(),
    }
    assert!(matches!(backup_download_step(true, "a.tar.gz"), DownloadStep::Locate));
    match backup_download_end(false, false, "a.tar.gz") {
        DownloadEnd::Reply(r) => assert_eq!(r.status, 404),
        _ => panic!(),
    }
    match backup_download_end(true, false, "a.tar.gz") {
        DownloadEnd::Reply(r) => assert_eq!(r.status, 500),
        _ => panic!(),
    }
    match backup_download_end(true, true, "a.tar.gz") {
        DownloadEnd::Send { content_type, content_disposition } => {
            assert_eq!(content_type, "application/octet-stream");
            assert_eq!(content_disposition, "attachment; filename=\"a.tar.gz\"");
        }
        _ => panic!(),
    }
}

#[test]
fn trend_window_is_thirty_consecutive_days() {
    let w = trend_window_from(CivilDate { year: 2024, month: 2, day: 15 }).unwrap();
    assert_eq!(w.len(), 30);
    assert_eq!(w[0], "2024-02-15");
    assert_eq!(w[14], "2024-02-29");
    assert_eq!(w[15], "2024-03-01");
    assert_eq!(w[29], "2024-03-15");
    let y = trend_window_from(CivilDate { year: 2023, month: 12, day: 20 }).unwrap();
    assert_eq!(y[11], "2023-12-31");
    assert_eq!(y[12], "2024-01-01");
}

#[test]
fn statm_skips_exactly_std_whitespace() {
    for code in 0u32..=0x3100 {
        if let Some(c) = char::from_u32(code) {
            if c.is_ascii_digit() {
                continue;
            }
            let text = format!("7{c}1");
            let expect = if c.is_whitespace() { 7 * 4096 } else { 0 };
            assert_eq!(bzod::system::statm_memory_bytes(&text), expect, "char {code:#x}");
        }
    }
}
