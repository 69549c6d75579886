use bzod::backups::{restore_gate, RestoredItem, RestorePage};
use bzod::create_page_form::{page_form_step, PageFormAction, PageFormCtx, PageFormEvent, PageFormState};
use bzod::export::{export_step, ExportAction, ExportCtx, ExportEvent, ExportState};
use bzod::images::{image_reply, ImageReply};
use bzod::restore::{user_restore_step, UnpackedBackup, UserRestoreAction, UserRestoreCtx, UserRestoreEvent, UserRestoreState};
use bzod::system::{status_step, StatusStep};

#[test]
fn image_reply_for_read_results() {
    match image_reply("/app/images/a/logo.PNG", None) {
        ImageReply::Missing(r) => assert_eq!((r.status, r.body.as_str()), (404, "Image not found")),
        _ => panic!(),
    }
    match image_reply("/app/images/a/logo.PNG", Some(vec![1, 2, 3])) {
        ImageReply::Found { bytes, content_type, cache_control } => {
            assert_eq!(bytes, vec![1, 2, 3]);
            assert_eq!(content_type, "image/png");
            assert_eq!(cache_control, "public, max-age=86400");
        }
        _ => panic!(),
    }
    match image_reply("/app/images/x.bin", Some(vec![])) {
        ImageReply::Found { content_type, .. } => assert_eq!(content_type, "application/octet-stream"),
        _ => panic!(),
    }
}

#[test]
fn status_is_public_only_as_healthy() {
    match status_step(false) {
        StatusStep::Public(r) => {
            assert_eq!(r.status, 200);
            assert_eq!(r.body, "{\"application\":\"Healthy\"}");
        }
        _ => panic!(),
    }
    assert!(matches!(status_step(true), StatusStep::Full));
}

#[test]
fn trim_follows_unicode_white_space() {
    assert_eq!(restore_gate(RestorePage::AdminSettings, true, "\u{3000}RESTORE\u{2029}\t", 1), None);
    assert!(restore_gate(RestorePage::AdminSettings, true, "\u{200B}RESTORE", 1).is_some());
}

fn restore_ctx(csrf_ok: bool, confirm: &str, len: usize) -> UserRestoreCtx {
    UserRestoreCtx {
        csrf_ok,
        confirm_text: confirm.to_string(),
        upload_len: len,
        user_id: 12,
        username: "erin".to_string(),
        ip: "5.5.5.5".to_string(),
        user_agent: None,
    }
}

fn item(slug: &str) -> RestoredItem {
    RestoredItem {
        slug: slug.to_string(),
        target_id: format!("id-{slug}"),
        created_at: "2024".to_string(),
        status: "active".to_string(),
    }
}

fn to_unpack(ctx: &UserRestoreCtx) -> (UserRestoreState, String, String) {
    let (s, a) = user_restore_step(UserRestoreState::Begin, UserRestoreEvent::Start, ctx);
    let temp = match a {
        UserRestoreAction::WriteTemp { name } => name,
        _ => panic!("expected the temp file"),
    };
    assert!(temp.starts_with("bzod_user_restore_") && temp.ends_with(".tar.gz"));
    let s = user_restore_step(s, UserRestoreEvent::TempWritten(Ok(())), ctx).0;
    let (s, a) = user_restore_step(s, UserRestoreEvent::UserDirLocated(true), ctx);
    let unpack = match a {
        UserRestoreAction::CreateUnpackDir { name } => name,
        _ => panic!("expected the unpack dir"),
    };
    assert!(unpack.starts_with("bzod_restore_unpack_"));
    let s = user_restore_step(s, UserRestoreEvent::UnpackDirCreated(Ok(())), ctx).0;
    (s, temp, unpack)
}

#[test]
fn user_restore_refusals_write_nothing() {
    match user_restore_step(UserRestoreState::Begin, UserRestoreEvent::Start, &restore_ctx(false, "RESTORE", 9)).1 {
        UserRestoreAction::Redirect(l) => assert_eq!(l, "/user/settings?error=Invalid CSRF token"),
        _ => panic!(),
    }
    match user_restore_step(UserRestoreState::Begin, UserRestoreEvent::Start, &restore_ctx(true, "RESTORE", 0)).1 {
        UserRestoreAction::Redirect(l) => assert_eq!(l, "/user/settings?error=No backup file uploaded"),
        _ => panic!(),
    }
}

#[test]
fn user_restore_slug_collision_cleans_up() {
    let ctx = restore_ctx(true, "RESTORE", 9);
    let (s, temp, unpack) = to_unpack(&ctx);
    let backup = UnpackedBackup {
        tenant: Some("t12".to_string()),
        has_content_db: true,
        urls: vec![(item("mine"), Some("t12".to_string())), (item("taken"), Some("t99".to_string()))],
        pages: vec![],
    };
    let (s2, a) = user_restore_step(s, UserRestoreEvent::Unpacked(Ok(backup)), &ctx);
    assert!(matches!(s2, UserRestoreState::Done));
    match a {
        UserRestoreAction::CleanupThenRedirect { temp_file, unpack_dir, location } => {
            assert_eq!(temp_file, Some(temp));
            assert_eq!(unpack_dir, Some(unpack));
            assert_eq!(location, "/user/settings?error=Restore failed: Slug collision on URL /taken");
        }
        _ => panic!("expected cleanup"),
    }
}

#[test]
fn user_restore_full_run() {
    let ctx = restore_ctx(true, " RESTORE ", 9);
    let (s, temp, _) = to_unpack(&ctx);
    let backup = UnpackedBackup {
        tenant: Some("t12".to_string()),
        has_content_db: true,
        urls: vec![(item("mine"), None)],
        pages: vec![(item("p"), Some("t12".to_string()))],
    };
    let (s, a) = user_restore_step(s, UserRestoreEvent::Unpacked(Ok(backup)), &ctx);
    match a {
        UserRestoreAction::ApplyRegistry { tenant, urls, pages, temp_file } => {
            assert_eq!(tenant, "t12");
            assert_eq!(urls.len(), 1);
            assert_eq!(urls[0].slug, "mine");
            assert_eq!(urls[0].status, "active");
            assert_eq!(pages[0].status, "disabled");
            assert_eq!(temp_file, temp);
        }
        _ => panic!("expected the registry rewrite"),
    }
    let (s, a) = user_restore_step(s, UserRestoreEvent::UserDirCreated(Ok(())), &ctx);
    assert!(matches!(a, UserRestoreAction::CopyDatabases));
    match user_restore_step(s, UserRestoreEvent::DatabasesCopied(Ok(())), &ctx).1 {
        UserRestoreAction::Finish { user_id, audit, location, .. } => {
            assert_eq!(user_id, 12);
            assert_eq!(audit.action, "USER_RESTORE");
            assert_eq!(audit.object_id, "12");
            assert_eq!(location, "/user/settings?success=User database restored successfully");
        }
        _ => panic!(),
    }
    // a missing tenant fails the restore
    let (s, _, _) = to_unpack(&ctx);
    let backup = UnpackedBackup { tenant: None, has_content_db: true, urls: vec![], pages: vec![] };
    match user_restore_step(s, UserRestoreEvent::Unpacked(Ok(backup)), &ctx).1 {
        UserRestoreAction::CleanupThenRedirect { location, .. } => {
            assert_eq!(location, "/user/settings?error=Restore failed: User is missing assigned TenantId")
        }
        _ => panic!(),
    }
}

fn export_ctx(from: Option<&str>, to: Option<&str>, json: bool) -> ExportCtx {
    ExportCtx {
        target_type: "url".to_string(),
        id: "u1".to_string(),
        date_from: from.map(|s| s.to_string()),
        date_to: to.map(|s| s.to_string()),
        json,
    }
}

#[test]
fn export_refuses_before_reading_figures() {
    let bad = export_ctx(Some("2024-13-01"), None, false);
    match export_step(ExportState::Begin, ExportEvent::Start, &bad).1 {
        ExportAction::Reply(r) => assert_eq!(r.status, 400),
        _ => panic!(),
    }
    let backwards = export_ctx(Some("2024-02-02"), Some("2024-02-01"), false);
    match export_step(ExportState::Begin, ExportEvent::Start, &backwards).1 {
        ExportAction::Reply(r) => assert_eq!(r.status, 400),
        _ => panic!(),
    }
    let ok = export_ctx(Some("2024-02-01"), None, false);
    let (s, a) = export_step(ExportState::Begin, ExportEvent::Start, &ok);
    assert!(matches!(a, ExportAction::CheckTarget));
    match export_step(s, ExportEvent::TargetChecked(false), &ok).1 {
        ExportAction::Reply(r) => assert_eq!((r.status, r.body.as_str()), (404, "Target not found")),
        _ => panic!(),
    }
}

#[test]
fn export_csv_run() {
    let ctx = export_ctx(Some("2024-02-01"), Some("2024-02-29"), false);
    let s = export_step(ExportState::Begin, ExportEvent::Start, &ctx).0;
    let (s, a) = export_step(s, ExportEvent::TargetChecked(true), &ctx);
    assert!(matches!(a, ExportAction::CountVisits { .. }));
    let s = export_step(s, ExportEvent::Counted(3), &ctx).0;
    match export_step(s, ExportEvent::SchemaRead { has_utm_source: false, has_utm_campaign: false }, &ctx).1 {
        ExportAction::StreamCsv { header_line, query, headers } => {
            assert_eq!(header_line, "Timestamp,IP Address,Country,Referrer,Browser,User-Agent\n");
            assert_eq!(
                query.params,
                vec![
                    "url".to_string(),
                    "u1".to_string(),
                    "2024-02-01T00:00:00Z".to_string(),
                    "2024-03-01T00:00:00Z".to_string()
                ]
            );
            assert_eq!(headers.content_type, "text/csv");
            assert_eq!(headers.record_count, "3");
        }
        _ => panic!(),
    }
}

#[test]
fn export_json_limits() {
    let ctx = export_ctx(None, None, true);
    let s = export_step(ExportState::Begin, ExportEvent::Start, &ctx).0;
    let s = export_step(s, ExportEvent::TargetChecked(true), &ctx).0;
    match export_step(s, ExportEvent::Counted(50001), &ctx).1 {
        ExportAction::Reply(r) => assert_eq!(r.status, 413),
        _ => panic!(),
    }
    let s = export_step(ExportState::Begin, ExportEvent::Start, &ctx).0;
    let s = export_step(s, ExportEvent::TargetChecked(true), &ctx).0;
    let (s, a) = export_step(s, ExportEvent::Counted(2), &ctx);
    assert!(matches!(a, ExportAction::ReadRows { .. }));
    match export_step(s, ExportEvent::RowsRead(true), &ctx).1 {
        ExportAction::SendJson { headers } => {
            assert_eq!(headers.content_type, "application/json");
            assert_eq!(headers.content_disposition, "attachment; filename=\"url_u1_analytics.json\"");
        }
        _ => panic!(),
    }
}

fn page_ctx(admin: bool, custom_slug: &str, code: &str, slug: &str) -> PageFormCtx {
    PageFormCtx {
        admin,
        csrf_ok: true,
        account_id: 6,
        generated_code: "a1b2".to_string(),
        custom_slug: custom_slug.to_string(),
        code: code.to_string(),
        slug: slug.to_string(),
        state: "published".to_string(),
        username: "fay".to_string(),
        ip: "7.7.7.7".to_string(),
        user_agent: None,
    }
}

#[test]
fn page_form_refuses_codes_taken_anywhere() {
    let ctx = page_ctx(false, "", "", "Home");
    let mut s = PageFormState::Begin;
    for e in [PageFormEvent::Start, PageFormEvent::TenantOpened(true), PageFormEvent::QuotaChecked(true)] {
        s = page_form_step(s, e, &ctx).0;
    }
    match page_form_step(s, PageFormEvent::Availability { in_slugs: false, as_url: true, as_page: false }, &ctx).1 {
        PageFormAction::Redirect(l) => assert_eq!(l, "/user/pages?error=Short code/slug already exists"),
        _ => panic!(),
    }
    let admin = page_ctx(true, "", "zz", "Home");
    match page_form_step(PageFormState::Begin, PageFormEvent::Start, &admin).1 {
        PageFormAction::Redirect(l) => assert_eq!(l, "/admin/pages?error=Custom code must be exactly 4 hex characters"),
        _ => panic!(),
    }
    let blank = page_ctx(true, "", "", "  ");
    match page_form_step(PageFormState::Begin, PageFormEvent::Start, &blank).1 {
        PageFormAction::Redirect(l) => assert_eq!(l, "/admin/pages?error=Slug is required"),
        _ => panic!(),
    }
}

#[test]
fn page_form_full_run() {
    let ctx = page_ctx(true, "!Promo", "", " Home ");
    let (s, a) = page_form_step(PageFormState::Begin, PageFormEvent::Start, &ctx);
    assert!(matches!(a, PageFormAction::CheckQuota { user_id: 6 }));
    let s = page_form_step(s, PageFormEvent::QuotaChecked(true), &ctx).0;
    let (s, a) = page_form_step(s, PageFormEvent::Availability { in_slugs: false, as_url: false, as_page: false }, &ctx);
    assert!(matches!(a, PageFormAction::ReserveSlug { ref code, owner_user_id: 1 } if code == "!promo"));
    let (s, a) = page_form_step(s, PageFormEvent::Reserved(Ok(())), &ctx);
    assert!(matches!(a, PageFormAction::StorePage { ref slug, .. } if slug == "home"));
    match page_form_step(s, PageFormEvent::Stored(Ok("pg".to_string())), &ctx).1 {
        PageFormAction::Complete { page_id, registry_status, quota_user_id, audit, location, .. } => {
            assert_eq!(page_id, "pg");
            assert_eq!(registry_status, "active");
            assert_eq!(quota_user_id, 6);
            assert_eq!(audit.action, "PAGE_CREATION");
            assert_eq!(location, "/admin/pages");
        }
        _ => panic!(),
    }
    let user = page_ctx(false, "", "", "x");
    let mut s = PageFormState::Begin;
    for e in [
        PageFormEvent::Start,
        PageFormEvent::TenantOpened(true),
        PageFormEvent::QuotaChecked(true),
        PageFormEvent::Availability { in_slugs: false, as_url: false, as_page: false },
        PageFormEvent::Reserved(Ok(())),
    ] {
        s = page_form_step(s, e, &user).0;
    }
    match page_form_step(s, PageFormEvent::Stored(Err("full".to_string())), &user).1 {
        PageFormAction::ReleaseThenRedirect { code, owner_user_id, location } => {
            assert_eq!(code, "a1b2");
            assert_eq!(owner_user_id, 6);
            assert_eq!(location, "/user/pages?error=Database error: full");
        }
        _ => panic!(),
    }
}

#[test]
fn next_day_follows_the_calendar() {
    use_next_day_cases();
}

fn use_next_day_cases() {
    let up = |s: &str| bzod::analytics::export_upper_day(Some(s));
    assert_eq!(up("2023-12-31"), Some("2024-01-01".to_string()));
    assert_eq!(up("2024-02-28"), Some("2024-02-29".to_string()));
    assert_eq!(up("2023-02-28"), Some("2023-03-01".to_string()));
    assert_eq!(up("1900-02-28"), Some("1900-03-01".to_string()));
    assert_eq!(up("2000-02-28"), Some("2000-02-29".to_string()));
    assert_eq!(up("2024-04-30"), Some("2024-05-01".to_string()));
    let d = |year: i32, month: u32, day: u32| bzod::analytics::CivilDate { year, month, day };
    assert!(bzod::analytics::trend_window_from(d(2023, 2, 30)).is_none());
    assert!(bzod::analytics::trend_window_from(d(262142, 12, 20)).is_none());
    assert!(bzod::analytics::trend_window_from(d(262142, 12, 2)).is_some());
    assert!(bzod::analytics::trend_window_from(d(-262143, 1, 1)).is_some());
    assert!(bzod::analytics::trend_window_from(d(-262144, 12, 31)).is_none());
}
