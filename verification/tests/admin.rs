use bzod::analytics::{
    analytics_access, country_display, direct_clicks, export_count_header, export_filename, export_query,
    export_target_missing, export_upper_day, json_export_refusal, referred_clicks, trend_window_days,
    utm_schema_check, validate_date_filters, visitor_log_entry, ymd_text, CivilDate, VisitRow,
};
use bzod::audit::{audit_log_of, audit_metadata_fields, AuditEvent};
use bzod::backups::{
    attachment_disposition, backups_page_restore_precheck, is_backup_archive, is_safe_archive_name,
    plan_registry_restore, platform_backup_filename, platform_backup_files, restore_precheck, sort_backup_files,
    user_backup_filename, user_backup_files, BackupFileRow, RestoredItem,
};
use bzod::listing::text_less;
use bzod::models::{SlugTargetType, UserQuotas};
use bzod::moderation::{
    content_state_for, keep_owner, moderation_detail, moderation_queue, moderation_success_location,
    normalize_moderation_action, normalize_slug_status, owner_user_id, registry_change, slug_listing,
    slug_released_location, slug_status_detail, slug_status_success_location, slug_transferred_location,
    slugs_error_location, target_type_name, transfer_precheck, transfer_quota_check, GlobalSlugRow, RegistryChange,
    SlugOwnership,
};
use bzod::settings::{export_link, quota_action, reconciled_location, retention_display, user_password_change_precheck, QuotaAction};
use bzod::system::{
    admin_status_database_text, classify_registry_issues, metrics_text, registry_scan_failure, statm_memory_bytes,
    status_database_text, status_response, user_status_database_text, MetricsSnapshot, RegistryIssue,
    RegistryIssueKind,
};
use bzod::trend::merge_trend;

fn row(slug: &str, owner: i64, created: &str, updated: &str) -> GlobalSlugRow {
    GlobalSlugRow {
        slug: slug.to_string(),
        owner_user_id: owner,
        target_type: "url".to_string(),
        target_id: format!("t-{}", slug),
        created_at: created.to_string(),
        updated_at: updated.to_string(),
        status: "active".to_string(),
        deleted_at: None,
    }
}

fn slugs(rows: &[GlobalSlugRow]) -> Vec<&str> {
    rows.iter().map(|r| r.slug.as_str()).collect()
}

#[test]
fn listing_is_stable_newest_first() {
    let urls = vec![row("a", 1, "2024-01-02", "x"), row("b", 2, "2024-01-03", "x"), row("c", 1, "2024-01-02", "x")];
    let pages = vec![row("d", 1, "2024-01-05", "x"), row("e", 1, "2024-01-02", "x")];
    let all = slug_listing(urls, pages, None);
    assert_eq!(slugs(&all), vec!["d", "b", "a", "c", "e"]);
    let urls = vec![row("a", 1, "2024-01-02", "x"), row("b", 2, "2024-01-03", "x"), row("c", 1, "2024-01-02", "x")];
    let pages = vec![row("d", 1, "2024-01-05", "x"), row("e", 1, "2024-01-02", "x")];
    let mine = slug_listing(urls, pages, Some(1));
    assert_eq!(slugs(&mine), vec!["d", "a", "c", "e"]);
    let mut expected = vec![row("p", 1, "2023", "2024-03"), row("q", 1, "2023", "2024-01"), row("r", 1, "2023", "2024-03")];
    expected.sort_by(|a, b| b.updated_at.cmp(&a.updated_at));
    let queue = moderation_queue(vec![row("p", 1, "2023", "2024-03"), row("q", 1, "2023", "2024-01")], vec![row("r", 1, "2023", "2024-03")]);
    assert_eq!(slugs(&queue), slugs(&expected));
    assert_eq!(slugs(&keep_owner(vec![row("a", 1, "", ""), row("b", 2, "", "")], Some(2))), vec!["b"]);
    assert_eq!(owner_user_id(None), 0);
    assert_eq!(owner_user_id(Some(4)), 4);
}

#[test]
fn text_order() {
    assert!(text_less("2024-01-02", "2024-01-10"));
    assert!(!text_less("b", "a"));
    assert!(text_less("", "a"));
    assert!(!text_less("a", "a"));
    assert!(text_less("ab", "abc"));
    assert_eq!(text_less("é", "z"), "é" < "z");
}

#[test]
fn moderation_actions() {
    assert_eq!(normalize_moderation_action(" Deleted ", true), Some("deleted".to_string()));
    assert_eq!(normalize_moderation_action("deleted", false), None);
    assert_eq!(normalize_moderation_action("FLAGGED", false), Some("flagged".to_string()));
    assert_eq!(normalize_slug_status("Active"), Some("active".to_string()));
    assert_eq!(normalize_slug_status("deleted"), None);
    assert!(matches!(registry_change("deleted"), RegistryChange::Remove));
    assert!(matches!(registry_change("flagged"), RegistryChange::SetStatus(ref s) if s == "flagged"));
    assert_eq!(content_state_for(SlugTargetType::Url, "disabled"), "dead");
    assert_eq!(content_state_for(SlugTargetType::Url, "deleted"), "dead");
    assert_eq!(content_state_for(SlugTargetType::Url, "flagged"), "active");
    assert_eq!(content_state_for(SlugTargetType::LandingPage, "disabled"), "archived");
    assert_eq!(content_state_for(SlugTargetType::LandingPage, "active"), "published");
    assert_eq!(target_type_name(SlugTargetType::LandingPage), "page");
    assert_eq!(moderation_detail("flagged", "spam"), "Action: flagged, Reason: spam");
    assert_eq!(moderation_success_location("flagged"), "/admin/moderation?success=Moderation action 'flagged' applied");
}

#[test]
fn slug_pages() {
    assert_eq!(slugs_error_location("Slug not found"), "/admin/slugs?error=Slug not found");
    assert_eq!(slug_status_detail("disabled"), "Status set to disabled");
    assert_eq!(slug_status_success_location("abc123", "flagged"), "/admin/slugs?success=Slug /abc123 status updated to flagged");
    assert_eq!(slug_released_location("!x"), "/admin/slugs?success=Slug /!x released successfully");
    assert_eq!(slug_transferred_location("abc123", 9), "/admin/slugs?success=Slug /abc123 successfully transferred to user 9");
}

#[test]
fn transfers_checked() {
    let cur = Some(SlugOwnership { owner_user_id: 3, target_type: "url".to_string() });
    assert_eq!(transfer_precheck(false, &cur, 4), Err("New owner user ID does not exist"));
    assert_eq!(transfer_precheck(true, &None, 4), Err("Slug not found"));
    assert_eq!(transfer_precheck(true, &cur, 3), Err("Slug is already owned by this user"));
    assert_eq!(transfer_precheck(true, &cur, 4), Ok(()));
    let mut q = UserQuotas {
        user_id: 4, max_urls: 2, max_landings: 1, max_api_tokens: 5, max_storage_mb: 1,
        current_urls: 2, current_landings: 0, current_api_tokens: 0, current_storage_mb: 0,
    };
    assert_eq!(transfer_quota_check("url", &Some(q.clone_quota())), Err("New owner has exceeded URL quota limit"));
    assert_eq!(transfer_quota_check("page", &Some(q.clone_quota())), Ok(()));
    q.current_landings = 1;
    assert_eq!(transfer_quota_check("page", &Some(q.clone_quota())), Err("New owner has exceeded landing page quota limit"));
    assert_eq!(transfer_quota_check("url", &None), Ok(()));
}

trait CloneQuota {
    fn clone_quota(&self) -> UserQuotas;
}

impl CloneQuota for UserQuotas {
    fn clone_quota(&self) -> UserQuotas {
        UserQuotas { ..*self }
    }
}

#[test]
fn trend_days_merge() {
    let days = vec!["2024-01-01".to_string(), "2024-01-02".to_string(), "2024-01-03".to_string()];
    let data = vec![("2024-01-02".to_string(), 5), ("2023-12-31".to_string(), 1), ("2024-01-02".to_string(), 7)];
    let t = merge_trend(days, data);
    let expect: Vec<(String, i64)> = vec![
        ("2023-12-31".to_string(), 1),
        ("2024-01-01".to_string(), 0),
        ("2024-01-02".to_string(), 7),
        ("2024-01-03".to_string(), 0),
    ];
    assert_eq!(t, expect);
    assert!(merge_trend(vec![], vec![]).is_empty());
    let window = trend_window_days().unwrap();
    assert_eq!(window.len(), 30);
    assert!(window.windows(2).all(|w| w[0] < w[1]));
    assert_eq!(window[29], chrono::Utc::now().format("%Y-%m-%d").to_string());
}

#[test]
fn backup_names() {
    assert!(is_backup_archive("2024-01-01-bzod-backup.tar.gz"));
    assert!(!is_backup_archive("notes.txt"));
    assert!(is_safe_archive_name("a.tar.gz"));
    assert!(!is_safe_archive_name("../a.tar.gz"));
    assert!(!is_safe_archive_name("a/b"));
    assert!(!is_safe_archive_name("a\\b"));
    assert!(!is_safe_archive_name("a..b"));
    assert_eq!(attachment_disposition("x.tar.gz"), "attachment; filename=\"x.tar.gz\"");
    assert_eq!(platform_backup_filename("2024-02-03"), "2024-02-03-bzod-backup.tar.gz");
    assert_eq!(user_backup_filename("2024-02-03"), "user-2024-02-03-bzod-backup.tar.gz");
    assert_eq!(user_backup_files(), vec!["content.db", "analytics.db", "profile.db"]);
    assert_eq!(platform_backup_files()[3], ("content.db", "users/1/content.db"));
    let files = sort_backup_files(vec![
        BackupFileRow { filename: "a".into(), size_str: "1 B".into(), created_str: "-".into() },
        BackupFileRow { filename: "c".into(), size_str: "1 B".into(), created_str: "-".into() },
        BackupFileRow { filename: "b".into(), size_str: "1 B".into(), created_str: "-".into() },
    ]);
    assert_eq!(files.iter().map(|f| f.filename.as_str()).collect::<Vec<_>>(), vec!["c", "b", "a"]);
}

fn item(slug: &str, status: &str) -> RestoredItem {
    RestoredItem { slug: slug.into(), target_id: format!("id-{}", slug), created_at: "c".into(), status: status.into() }
}

#[test]
fn restores_checked_and_planned() {
    assert_eq!(restore_precheck(" RESTORE ", 10), Ok(()));
    assert_eq!(restore_precheck("restore", 10), Err("Confirmation text must be exactly 'RESTORE'"));
    assert_eq!(restore_precheck("RESTORE", 0), Err("No backup file uploaded"));
    assert_eq!(backups_page_restore_precheck("x", 1), Err("Confirmation text mismatch. Please type RESTORE."));
    assert_eq!(backups_page_restore_precheck("RESTORE", 0), Err("Backup file is empty or missing."));

    let plan = plan_registry_restore(
        vec![item("abc123", "dead"), item("def456", "active")],
        &vec![Some("me".into()), None],
        vec![item("beef", "published"), item("cafe", "draft")],
        &vec![None, Some("me".into())],
        "me",
    )
    .unwrap();
    assert_eq!(plan.0.iter().map(|e| (e.slug.as_str(), e.status)).collect::<Vec<_>>(), vec![("abc123", "disabled"), ("def456", "active")]);
    assert_eq!(plan.1.iter().map(|e| (e.slug.as_str(), e.status)).collect::<Vec<_>>(), vec![("beef", "active"), ("cafe", "disabled")]);
    let err = plan_registry_restore(
        vec![item("a", "active"), item("b", "active"), item("c", "active")],
        &vec![None, Some("other".into()), Some("third".into())],
        vec![item("p", "draft")],
        &vec![Some("other".into())],
        "me",
    )
    .err();
    assert_eq!(err, Some("Slug collision on URL /b".to_string()));
    let err = plan_registry_restore(vec![], &vec![], vec![item("p", "draft")], &vec![Some("other".into())], "me").err();
    assert_eq!(err, Some("Slug collision on Landing Page /p".to_string()));
}

#[test]
fn date_filters() {
    assert_eq!(validate_date_filters(None, None), Ok((None, None)));
    assert_eq!(validate_date_filters(Some(""), Some("")), Ok((None, None)));
    assert_eq!(
        validate_date_filters(Some("2024-01-05"), Some("2024-02-01")),
        Ok((Some("2024-01-05".to_string()), Some("2024-02-01".to_string())))
    );
    assert_eq!(validate_date_filters(Some("2024-02-30"), None), Err(400));
    assert_eq!(validate_date_filters(Some("yesterday"), None), Err(400));
    assert_eq!(validate_date_filters(Some("2024-03-01"), Some("2024-02-01")), Err(400));
    assert_eq!(validate_date_filters(Some("2024-03-01"), Some("2024-03-01")).map(|p| p.0), Ok(Some("2024-03-01".to_string())));
    assert_eq!(ymd_text(CivilDate { year: 7, month: 3, day: 9 }), "0007-03-09");
    assert_eq!(ymd_text(CivilDate { year: -1, month: 12, day: 31 }), "-0001-12-31");
    assert_eq!(ymd_text(CivilDate { year: 12345, month: 1, day: 1 }), "+12345-01-01");
    for (y, m, d) in [(2024, 2, 29), (7, 3, 9), (-1, 12, 31), (12345, 1, 1), (0, 1, 1), (9999, 12, 31), (10000, 1, 1)] {
        let nd = chrono::NaiveDate::from_ymd_opt(y, m, d).unwrap();
        assert_eq!(ymd_text(CivilDate { year: y, month: m, day: d }), nd.format("%Y-%m-%d").to_string());
    }
}

#[test]
fn analytics_rules() {
    assert!(analytics_access(3, 3, "url", "url").is_none());
    assert_eq!(analytics_access(3, 4, "url", "url").map(|r| r.status), Some(403));
    assert_eq!(analytics_access(3, 3, "page", "url").map(|r| r.status), Some(403));
    assert_eq!(utm_schema_check(true, false).map(|r| (r.status, r.body)), Some((500, "UTM mapping verification failed".to_string())));
    assert!(utm_schema_check(false, false).is_none());
    assert_eq!(direct_clicks(10, 3), 7);
    assert_eq!(direct_clicks(3, 10), 0);
    assert_eq!(referred_clicks(10, 4), 6);
    assert_eq!(country_display(String::new()), "Unknown");
    assert_eq!(country_display("NL".into()), "NL");
    let e = visitor_log_entry(50, 2, VisitRow {
        timestamp: "t".into(), ip_address: "ip".into(), country: String::new(),
        referrer: "Direct".into(), browser: "Firefox".into(), user_agent: "ua".into(),
    });
    assert_eq!((e.sr, e.country.as_str(), e.utm_source.as_str(), e.utm_campaign.as_str()), (53, "Unknown", "-", "-"));
    assert_eq!(json_export_refusal(50_001).map(|r| r.status), Some(413));
    assert!(json_export_refusal(50_000).is_none());
    assert_eq!(export_target_missing().body, "Target not found");
    assert_eq!(export_filename("url", "u1", false), "url_u1_analytics.csv");
    assert_eq!(export_filename("page", "p1", true), "page_p1_analytics.json");
    assert_eq!(export_count_header(-3), "-3");
}

#[test]
fn export_queries() {
    let q = export_query(false, false, "url", "id1", None, None);
    assert_eq!(q.sql, "SELECT timestamp, ip_address, country, referer, user_agent FROM visits WHERE target_type = ?1 AND target_id = ?2 ORDER BY timestamp DESC, id DESC");
    assert_eq!(q.params, vec!["url", "id1"]);
    let upper = export_upper_day(Some("2024-02-29"));
    assert_eq!(upper, Some("2024-03-01".to_string()));
    let q = export_query(true, true, "page", "p", Some("2024-02-01"), upper.as_deref());
    assert_eq!(q.sql, "SELECT timestamp, ip_address, country, referer, user_agent, utm_source, utm_campaign FROM visits WHERE target_type = ?1 AND target_id = ?2 AND timestamp >= ?3 AND timestamp < ?4 ORDER BY timestamp DESC, id DESC");
    assert_eq!(q.params, vec!["page", "p", "2024-02-01T00:00:00Z", "2024-03-01T00:00:00Z"]);
    let q = export_query(false, true, "url", "u", None, Some("2024-01-01"));
    assert!(q.sql.contains("utm_campaign FROM") && q.sql.contains("AND timestamp < ?3"));
    assert_eq!(export_upper_day(None), None);
    assert_eq!(export_upper_day(Some("garbage")), None);
}

#[test]
fn settings_rules() {
    assert_eq!(user_password_change_precheck("old", "newpassword"), Ok(()));
    assert_eq!(user_password_change_precheck(" ", "newpassword"), Err("Password must be at least 8 characters"));
    assert_eq!(user_password_change_precheck("old", "short"), Err("Password must be at least 8 characters"));
    assert_eq!(retention_display(Some("30".into()), Some(7)), "30");
    assert_eq!(retention_display(None, Some(7)), "7");
    assert_eq!(retention_display(None, None), "unlimited");
    let u = export_link("abc123".into(), "t1".into(), Some("https://s.example"));
    assert_eq!((u.destination.as_str(), u.status.as_str()), ("https://s.example/abc123", "active"));
    assert_eq!(export_link("abc123".into(), "t1".into(), None).destination, "/abc123");
    assert!(matches!(quota_action("reconcile_all", ""), QuotaAction::ReconcileAll));
    assert!(matches!(quota_action("reconcile", "12"), QuotaAction::Reconcile(12)));
    assert!(matches!(quota_action("reconcile", "x"), QuotaAction::Reconcile(0)));
    assert!(matches!(quota_action("purge", "1"), QuotaAction::Invalid));
    assert_eq!(reconciled_location(5), "/admin/users/5?success=Quotas reconciled");
}

#[test]
fn system_reports() {
    assert_eq!(status_database_text(true, "a.db"), "Connected (WAL Mode enabled). Files Info:\na.db");
    assert_eq!(status_database_text(false, "a.db"), "Disconnected");
    assert_eq!(admin_status_database_text(false, ""), "Degraded (Database connections failed)");
    assert_eq!(admin_status_database_text(true, "x"), "Operational\n\nDatabase Files:\nx");
    assert_eq!(user_status_database_text(false), "Degraded (Database connection failed)");
    let s = status_response("db".into(), "1 MB".into(), 9);
    assert_eq!((s.application, s.queue_size, s.version, s.git_commit), ("Healthy", 0, "0.1.0", "unknown"));
    let m = MetricsSnapshot { total_urls: 1, active_links: 2, dead_links: 3, total_pages: 4, total_clicks: 5, total_page_views: 6, mem_bytes: 7, uptime: 8 };
    let expected = format!(
        r#"# HELP bzod_urls_total Total number of registered short URLs
# TYPE bzod_urls_total gauge
bzod_urls_total {total_urls}

# HELP bzod_active_urls Total number of active/healthy short URLs
# TYPE bzod_active_urls gauge
bzod_active_urls {active_links}

# HELP bzod_dead_urls Total number of dead short URLs
# TYPE bzod_dead_urls gauge
bzod_dead_urls {dead_links}

# HELP bzod_pages_total Total number of registered landing pages
# TYPE bzod_pages_total gauge
bzod_pages_total {total_pages}

# HELP bzod_clicks_total Total number of URL clicks recorded
# TYPE bzod_clicks_total counter
bzod_clicks_total {total_clicks}

# HELP bzod_page_views_total Total number of page views recorded
# TYPE bzod_page_views_total counter
bzod_page_views_total {total_page_views}

# HELP bzod_memory_bytes Memory usage of the bzod process in bytes
# TYPE bzod_memory_bytes gauge
bzod_memory_bytes {mem_bytes}

# HELP bzod_uptime_seconds Uptime of the bzod process in seconds
# TYPE bzod_uptime_seconds counter
bzod_uptime_seconds {uptime}
"#,
        total_urls = 1, active_links = 2, dead_links = 3, total_pages = 4, total_clicks = 5, total_page_views = 6, mem_bytes = 7, uptime = 8
    );
    assert_eq!(metrics_text(&m), expected);
    assert_eq!(statm_memory_bytes("  1200 300 20 1 0 100 0\n"), 1200 * 4096);
    assert_eq!(statm_memory_bytes(""), 0);
    assert_eq!(statm_memory_bytes("x 1"), 0);
    assert_eq!(statm_memory_bytes("+5"), 5 * 4096);
}

#[test]
fn registry_findings() {
    let issues = vec![
        RegistryIssue { kind: RegistryIssueKind::StaleReservation, slug: "a".into(), description: "old".into() },
        RegistryIssue { kind: RegistryIssueKind::Other, slug: "b".into(), description: "orphan".into() },
        RegistryIssue { kind: RegistryIssueKind::TenantAdminHasIsolatedContent, slug: "c".into(), description: "iso".into() },
    ];
    let (errors, warnings) = classify_registry_issues(issues);
    assert_eq!(errors, vec!["Error for slug b: orphan"]);
    assert_eq!(warnings, vec!["Warning for slug a: old", "Warning for slug c: iso"]);
    let (errors, warnings) = registry_scan_failure("locked");
    assert_eq!(errors, vec!["Failed to run registry scan: locked"]);
    assert!(warnings.is_empty());
}

fn reference_fields(m: Option<&str>) -> (Option<String>, Option<String>) {
    if let Some(m) = m {
        if m.starts_with("IP: ") {
            let parts: Vec<&str> = m.split(", UA: ").collect();
            let ip = parts[0].trim_start_matches("IP: ").trim_matches('"').trim_matches('\'').replace("Some(", "").replace(")", "");
            let ua = if parts.len() > 1 {
                parts[1].trim_matches('"').trim_matches('\'').replace("Some(", "").replace(")", "")
            } else {
                "Unknown".to_string()
            };
            (Some(ip), Some(ua))
        } else {
            (None, None)
        }
    } else {
        (None, None)
    }
}

#[test]
fn audit_metadata_read_back() {
    let samples = [
        None,
        Some("IP: Some(\"1.2.3.4\"), UA: Some(\"curl/8\")"),
        Some("IP: \"1.2.3.4\", UA: None"),
        Some("IP: IP: x"),
        Some("IP: a, UA: b, UA: c"),
        Some("Username: bob"),
        Some("IP: 'q'"),
        Some(""),
    ];
    for m in samples {
        assert_eq!(audit_metadata_fields(m), reference_fields(m), "metadata {:?}", m);
    }
    let log = audit_log_of(AuditEvent {
        id: "e1".into(), timestamp: "t".into(), actor: "root".into(), action: "USER_LOGIN".into(),
        object_type: "session".into(), object_id: "s".into(), metadata: Some("IP: \"9.9.9.9\", UA: None".into()),
    });
    assert_eq!(log.username, "root");
    assert_eq!(log.object_type, Some("session".to_string()));
    assert_eq!(log.ip_address, Some("9.9.9.9".to_string()));
    assert_eq!(log.user_agent, Some("None".to_string()));
}
