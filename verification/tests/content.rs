use bzod::api::{
    api_failure, check_update_destination, choose_page_code, choose_url_code, code_unavailable_failure,
    content_admin_message, create_page_admin_message, create_url_admin_message, deletion_status, hashing_failure,
    list_window, not_found_failure, overall_stats, password_change, password_to_set, qr_style, qr_style_detail,
    quota_exceeded_failure, request_audit_detail, storage_failure, tenant_context, PasswordChange,
};
use bzod::bulk::{
    archive_failure, bulk_qr_detail, bulk_url_account, bulk_url_detail, bulk_url_error_response, check_bulk_qr,
    check_bulk_url_count, link_read_failure, no_links_found_failure, public_base_url, BulkQrRequest, BulkUrlError,
};
use bzod::images::{image_content_type, image_request, ImageRequest};
use bzod::links::{
    admin_link_creation_location, admin_owner_id, admin_slug_message, base_url_for, choose_form_code, form_password,
    form_tags, optional_text, page_slug_input, parse_expires_at_input, parse_max_access_count, registry_placeholder,
    user_links_error_location, user_slug_message, CodeChoice,
};
use bzod::models::{ApiActor, TenantUser, User};
use bzod::qr::{parse_qr_file, qr_code_check, qr_content_type, qr_format, qr_target_url, QrFormat, QrRequest};

fn tenant(tid: Option<&str>) -> TenantUser {
    TenantUser {
        id: 5,
        username: "t".to_string(),
        password_hash: String::new(),
        status: "active".to_string(),
        account_type: "standard".to_string(),
        created_at: String::new(),
        metadata: None,
        tenant_id: tid.map(|s| s.to_string()),
    }
}

fn admin() -> ApiActor {
    ApiActor::Admin(User { id: "1".into(), username: "root".into(), password_hash: String::new(), created_at: String::new() })
}

fn chosen(c: Result<CodeChoice, String>) -> Option<String> {
    match c {
        Ok(CodeChoice::Chosen(s)) => Some(s),
        _ => None,
    }
}

#[test]
fn form_codes() {
    assert!(matches!(choose_form_code("", "  ", 6, user_slug_message()), Ok(CodeChoice::Generate)));
    assert_eq!(chosen(choose_form_code(" ", "ABC123", 6, user_slug_message())), Some("abc123".to_string()));
    assert_eq!(
        choose_form_code("", "abc12", 6, user_slug_message()).err(),
        Some("Custom code must be exactly 6 hex characters".to_string())
    );
    assert_eq!(
        choose_form_code("", "abcde", 4, admin_slug_message()).err(),
        Some("Custom code must be exactly 4 hex characters".to_string())
    );
    assert_eq!(chosen(choose_form_code(" !Promo ", "zz", 6, user_slug_message())), Some("!promo".to_string()));
    assert_eq!(
        choose_form_code("promo", "", 6, user_slug_message()).err(),
        Some("Custom slug must start with ! followed by 1-24 a-z, 0-9, -, _".to_string())
    );
    assert_eq!(
        choose_form_code("promo", "", 4, admin_slug_message()).err(),
        Some("Custom slug must start with ! followed by 1-24 characters of a-z, 0-9, -, _".to_string())
    );
}

#[test]
fn form_fields() {
    assert_eq!(optional_text("  Title "), Some("Title".to_string()));
    assert_eq!(optional_text("   "), None);
    assert_eq!(parse_expires_at_input(" 2024-12-31T23:59 "), Some("2024-12-31T23:59:00Z".to_string()));
    assert_eq!(parse_expires_at_input("2024-12-31T23:59:00Z"), Some("2024-12-31T23:59:00Z".to_string()));
    assert_eq!(parse_expires_at_input(""), None);
    assert_eq!(parse_max_access_count(" 10 "), Ok(Some(10)));
    assert_eq!(parse_max_access_count(""), Ok(None));
    assert_eq!(parse_max_access_count("ten"), Err("Invalid max access count"));
    assert_eq!(form_password("  "), None);
    assert_eq!(form_password(" pw "), Some(" pw "));
    assert_eq!(form_tags(" a, b ,,c ,"), vec!["a", "b", "c"]);
    assert!(form_tags("").is_empty());
    assert_eq!(page_slug_input(" About-Us "), Ok("about-us".to_string()));
    assert_eq!(page_slug_input("  "), Err("Slug is required"));
    assert_eq!(admin_owner_id("7"), 7);
    assert_eq!(admin_owner_id("root"), 1);
}

#[test]
fn link_pages() {
    assert_eq!(user_links_error_location("Quota limit exceeded"), "/user/urls?error=Quota limit exceeded");
    assert!(admin_link_creation_location().starts_with("/admin/urls?error=Admin is a platform operator"));
    assert_eq!(base_url_for(Some("https://s.example"), true, 8654), "https://s.example");
    assert_eq!(base_url_for(None, true, 8654), "https://localhost:8654");
    assert_eq!(base_url_for(None, false, 80), "http://localhost:80");
    let u = registry_placeholder("abc123".into(), "id-1".into(), "c".into(), "u".into(), "disabled".into());
    assert_eq!((u.code.as_str(), u.id.as_str(), u.destination.as_str(), u.status.as_str()), ("abc123", "id-1", "", "disabled"));
}

#[test]
fn api_codes() {
    assert!(matches!(choose_url_code(None), Ok(CodeChoice::Generate)));
    assert!(matches!(choose_url_code(Some("  ")), Ok(CodeChoice::Generate)));
    assert!(matches!(choose_url_code(Some(" ABCDEF ")), Ok(CodeChoice::Chosen(ref c)) if c == "abcdef"));
    let e = choose_url_code(Some("abcd")).err().unwrap();
    assert_eq!((e.status, e.body.error.as_str()), (400, "Short code must be 6 hex characters or a custom slug starting with !"));
    assert!(matches!(choose_page_code(Some("BEEF")), Ok(CodeChoice::Chosen(ref c)) if c == "beef"));
    let e = choose_page_code(Some("abc123")).err().unwrap();
    assert_eq!(e.status, 400);
    assert!(e.body.error.starts_with("Short code must be 4 hex characters"));
}

#[test]
fn api_context_and_failures() {
    let a = admin();
    let e = tenant_context(&a, content_admin_message()).err().unwrap();
    assert_eq!(e.status, 400);
    assert!(e.body.error.contains("cannot access application content"));
    assert!(create_url_admin_message().contains("URLs"));
    assert!(create_page_admin_message().contains("landing pages"));
    let u = ApiActor::User(tenant(None));
    assert_eq!(tenant_context(&u, "x").ok().map(|t| t.id), Some(5));
    assert_eq!(password_to_set(Some("")), None);
    assert_eq!(password_to_set(Some("pw")), Some("pw"));
    assert_eq!(password_to_set(None), None);
    let f = quota_exceeded_failure();
    assert_eq!((f.status, f.body.error.as_str()), (403, "Quota limit exceeded"));
    let f = code_unavailable_failure("taken");
    assert_eq!((f.status, f.body.error.as_str()), (409, "Short code unavailable: taken"));
    assert_eq!(storage_failure("e".into()).status, 500);
    assert_eq!(hashing_failure("bad").body.error, "Password hashing error: bad");
    assert_eq!(api_failure(418, "tea").status, 418);
    assert_eq!(not_found_failure("URL not found").body.error, "URL not found");
    assert_eq!(request_audit_detail("1.1.1.1", None), "IP: \"1.1.1.1\", User-Agent: None");
}

#[test]
fn api_updates_and_lists() {
    assert_eq!(list_window(None, None, 100), (100, 0));
    assert_eq!(list_window(Some(5), Some(10), 50), (5, 10));
    assert!(check_update_destination("https://ok.example").is_ok());
    let e = check_update_destination("mailto:x").err().unwrap();
    assert_eq!(e.body.error, "Destination must be a valid http(s) URL without control characters");
    assert!(matches!(password_change(None), PasswordChange::Keep));
    assert!(matches!(password_change(Some("")), PasswordChange::Remove));
    assert!(matches!(password_change(Some("n")), PasswordChange::Replace("n")));
    assert_eq!(deletion_status(Ok(true), "URL not found").ok(), Some(204));
    assert_eq!(deletion_status(Ok(false), "Page not found").err().map(|e| (e.status, e.body.error)), Some((404, "Page not found".to_string())));
    assert_eq!(deletion_status(Err("boom".into()), "x").err().map(|e| e.status), Some(500));
    assert_eq!(qr_style(None), "default");
    assert_eq!(qr_style(Some("round".into())), "round");
    assert_eq!(qr_style_detail("round"), "Style: round");
    let s = overall_stats(1, 2, 3, 4, 5);
    assert_eq!((s.total_urls, s.total_pages, s.total_clicks, s.total_page_views, s.active_links, s.dead_links), (1, 2, 3, 0, 4, 5));
}

#[test]
fn bulk_requests() {
    let ok = check_bulk_qr(&BulkQrRequest { ids: vec!["a".into()], format: None }).ok();
    assert_eq!(ok, Some("png".to_string()));
    assert_eq!(check_bulk_qr(&BulkQrRequest { ids: vec![], format: Some("SVG".into()) }).ok(), Some("svg".to_string()));
    let e = check_bulk_qr(&BulkQrRequest { ids: vec![], format: Some("gif".into()) }).err().unwrap();
    assert_eq!((e.status, e.body.error.as_str()), (400, "Invalid format. Supported: png, svg"));
    let e = check_bulk_qr(&BulkQrRequest { ids: vec![String::new(); 501], format: Some("gif".into()) }).err().unwrap();
    assert_eq!(e.body.error, "Maximum 500 QR codes allowed per bulk request");
    assert!(check_bulk_qr(&BulkQrRequest { ids: vec![String::new(); 500], format: None }).is_ok());
    assert_eq!(no_links_found_failure().body.error, "No valid URLs found for the provided IDs");
    assert_eq!(link_read_failure("id9", "locked").body.error, "Database error fetching URL id9: locked");
    assert_eq!(archive_failure("zip").body.error, "Error generating ZIP: zip");
    assert_eq!(bulk_qr_detail(3, "svg"), "Count: 3, Format: svg");
    assert_eq!(public_base_url(None, false, None), "http://localhost:8654");
    assert_eq!(public_base_url(None, true, Some("s.example")), "https://s.example");
    assert_eq!(public_base_url(Some("https://b"), false, Some("h")), "https://b");
}

#[test]
fn bulk_creation() {
    assert!(check_bulk_url_count(500).is_ok());
    assert_eq!(check_bulk_url_count(501).err().unwrap().body.error, "Maximum 500 URLs allowed per bulk creation");
    let a = admin();
    assert_eq!(bulk_url_account(&a).err().map(|e| e.status), Some(403));
    let u = ApiActor::User(tenant(None));
    assert_eq!(bulk_url_account(&u).err().map(|e| (e.status, e.body.error)), Some((400, "User has no tenant context".to_string())));
    let u = ApiActor::User(tenant(Some("tid")));
    assert_eq!(bulk_url_account(&u).ok().map(|(t, tid)| (t.id, tid.clone())), Some((5, "tid".to_string())));
    assert_eq!(bulk_url_error_response(BulkUrlError::Conflict("dup".into())).status, 409);
    assert_eq!(bulk_url_error_response(BulkUrlError::Forbidden("q".into())).status, 403);
    assert_eq!(bulk_url_error_response(BulkUrlError::BadRequest("b".into())).status, 400);
    assert_eq!(bulk_url_error_response(BulkUrlError::Internal("i".into())).body.error, "i");
    assert_eq!(bulk_url_detail(2, "::1", Some("ua")), "Count: 2, IP: \"::1\", User-Agent: Some(\"ua\")");
}

#[test]
fn qr_requests() {
    assert!(matches!(parse_qr_file("abc123"), QrRequest::Stats(ref c) if c == "abc123"));
    assert!(matches!(parse_qr_file("a.b.c"), QrRequest::Stats(ref c) if c == "a.b.c"));
    match parse_qr_file("abc123.PNG") {
        QrRequest::Image { code, ext } => assert_eq!((code.as_str(), ext.as_str()), ("abc123", "png")),
        _ => panic!(),
    }
    assert!(matches!(qr_format("svg"), Ok(QrFormat::Svg)));
    assert!(matches!(qr_format("png"), Ok(QrFormat::Png)));
    let e = qr_format("gif").err().unwrap();
    assert_eq!((e.status, e.body.as_str()), (400, "Unsupported format. Use .png or .svg"));
    assert_eq!(qr_content_type(QrFormat::Svg), "image/svg+xml");
    assert_eq!(qr_content_type(QrFormat::Png), "image/png");
    assert!(qr_code_check("abc123").is_none());
    assert_eq!(qr_code_check("nope").map(|r| (r.status, r.body)), Some((404, "Not Found".to_string())));
    assert_eq!(qr_target_url("https://s.example//", "abc123"), "https://s.example/abc123");
    assert_eq!(qr_target_url("http://h", "!x"), "http://h/!x");
}

#[test]
fn image_paths() {
    assert!(matches!(image_request("preview.png"), ImageRequest::SocialPreview));
    assert!(matches!(image_request("logos/a.png"), ImageRequest::File(ref p) if p == "/app/images/logos/a.png"));
    match image_request("../etc/passwd") {
        ImageRequest::Invalid(r) => assert_eq!((r.status, r.body.as_str()), (400, "Invalid image path")),
        _ => panic!(),
    }
    assert!(matches!(image_request("/etc/passwd"), ImageRequest::Invalid(_)));
    assert!(matches!(image_request("a/../../b"), ImageRequest::Invalid(_)));
    assert!(matches!(image_request("a/...png"), ImageRequest::File(_)));
    assert_eq!(image_content_type("/app/images/x.PNG"), "image/png");
    assert_eq!(image_content_type("/app/images/x.jpeg"), "image/jpeg");
    assert_eq!(image_content_type("/app/images/x.JpG"), "image/jpeg");
    assert_eq!(image_content_type("/app/images/a.b.webp"), "image/webp");
    assert_eq!(image_content_type("/app/images/.svg"), "application/octet-stream");
    assert_eq!(image_content_type("/app/images/x.avif"), "image/avif");
    assert_eq!(image_content_type("/app/images/x.gif/"), "image/gif");
    assert_eq!(image_content_type("/app/images/noext"), "application/octet-stream");
    for p in ["/app/images/x.PNG", "/app/images/.svg", "/app/images/x.gif/", "/app/images/a/.", "/app/images/", "/app/images/a.tar.gz"] {
        let ext = std::path::Path::new(p).extension().and_then(|e| e.to_str()).map(|e| e.to_ascii_lowercase());
        let expected = match ext.as_deref() {
            Some("png") => "image/png",
            Some("jpg") | Some("jpeg") => "image/jpeg",
            Some("gif") => "image/gif",
            Some("webp") => "image/webp",
            Some("svg") => "image/svg+xml",
            Some("avif") => "image/avif",
            _ => "application/octet-stream",
        };
        assert_eq!(image_content_type(p), expected, "path {}", p);
    }
}
