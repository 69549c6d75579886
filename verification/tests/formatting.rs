use bzod::csv::{csv_export_header, csv_export_line, escape_csv_field};
use bzod::pagination::{paginate, shown_rows, ANALYTICS_PAGE_SIZE, PAGE_SIZE};
use bzod::size::format_size;
use bzod::text::{contains_str, ends_with, i64_decimal, join_text, parse_i64, split_char, starts_with, u64_decimal};
use bzod::validation::{
    validate_custom_slug, validate_hex_code, validate_page_code, validate_redirect_code, validate_redirect_destination,
};

#[test]
fn csv_fields_escaped_only_when_needed() {
    assert_eq!(escape_csv_field("plain"), "plain");
    assert_eq!(escape_csv_field("a,b"), "\"a,b\"");
    assert_eq!(escape_csv_field("say \"hi\""), "\"say \"\"hi\"\"\"");
    assert_eq!(escape_csv_field("line\nbreak"), "\"line\nbreak\"");
    assert_eq!(escape_csv_field("cr\r"), "\"cr\r\"");
    assert_eq!(escape_csv_field(""), "");
}

#[test]
fn csv_line_and_header() {
    let line = csv_export_line(&vec!["2024-01-01T00:00:00Z".to_string(), "1.2.3.4".to_string(), "a,b".to_string()]);
    assert_eq!(line, "2024-01-01T00:00:00Z,1.2.3.4,\"a,b\"\n");
    assert_eq!(csv_export_line(&vec![]), "\n");
    assert_eq!(csv_export_header(false, false), "Timestamp,IP Address,Country,Referrer,Browser,User-Agent\n");
    assert_eq!(
        csv_export_header(true, true),
        "Timestamp,IP Address,Country,Referrer,Browser,User-Agent,UTM Source,UTM Campaign\n"
    );
    assert_eq!(csv_export_header(false, true), "Timestamp,IP Address,Country,Referrer,Browser,User-Agent,UTM Campaign\n");
}

fn float_size(bytes: u64) -> String {
    if bytes < 1024 {
        format!("{} B", bytes)
    } else if bytes < 1024 * 1024 {
        format!("{:.2} KB", bytes as f64 / 1024.0)
    } else {
        format!("{:.2} MB", bytes as f64 / (1024.0 * 1024.0))
    }
}

#[test]
fn sizes_match_float_formatting() {
    assert_eq!(format_size(0), "0 B");
    assert_eq!(format_size(1023), "1023 B");
    assert_eq!(format_size(1024), "1.00 KB");
    assert_eq!(format_size(1536), "1.50 KB");
    assert_eq!(format_size(1048576), "1.00 MB");
    assert_eq!(format_size(5 * 1024 * 1024 + 10), "5.00 MB");
    for b in [
        1025u64, 1035, 1045, 2047, 10_000, 123_456, 1_048_575, 1_048_577, 99_999_999, 1_234_567_890,
        u64::MAX, u64::MAX - 1, 1 << 53, (1 << 53) + 1, 9_007_199_254_740_993, 5_368_709_120,
    ] {
        assert_eq!(format_size(b), float_size(b), "bytes {}", b);
    }
    let mut b: u64 = 1000;
    while b < 50_000_000 {
        assert_eq!(format_size(b), float_size(b), "bytes {}", b);
        b = b * 3 / 2 + 7;
    }
}

#[test]
fn pagination_windows() {
    let p = paginate(0, PAGE_SIZE, None);
    assert_eq!((p.total_pages, p.current_page, p.offset), (1, 1, 0));
    assert_eq!(p.visible_pages, vec![1]);
    let p = paginate(260, PAGE_SIZE, Some(7));
    assert_eq!((p.total_pages, p.current_page, p.offset), (11, 7, 150));
    assert_eq!(p.visible_pages, vec![4, 5, 6, 7, 8, 9, 10]);
    let p = paginate(260, PAGE_SIZE, Some(0));
    assert_eq!(p.current_page, 1);
    assert_eq!(p.visible_pages, vec![1, 2, 3, 4]);
    let p = paginate(260, PAGE_SIZE, Some(99));
    assert_eq!((p.current_page, p.offset), (11, 250));
    assert_eq!(p.visible_pages, vec![8, 9, 10, 11]);
    let p = paginate(101, ANALYTICS_PAGE_SIZE, Some(3));
    assert_eq!((p.total_pages, p.current_page, p.offset), (3, 3, 100));
    assert!(p.visible_pages.contains(&p.current_page));
}

#[test]
fn shown_row_numbers() {
    assert_eq!(shown_rows(0, 0, 50), (0, 0));
    assert_eq!(shown_rows(101, 100, 50), (101, 101));
    assert_eq!(shown_rows(101, 50, 50), (51, 100));
}

#[test]
fn code_shapes() {
    assert!(validate_hex_code("a1b2c3", 6));
    assert!(!validate_hex_code("a1b2c", 6));
    assert!(validate_hex_code("BEEF", 4));
    assert!(validate_custom_slug("!promo-2024_x"));
    assert!(!validate_custom_slug("!"));
    assert!(!validate_custom_slug("promo"));
    assert!(!validate_custom_slug("!Promo"));
    assert!(validate_custom_slug("!abcdefghijklmnopqrstuvwx"));
    assert!(!validate_custom_slug("!abcdefghijklmnopqrstuvwxy"));
    assert!(validate_redirect_code("abc123"));
    assert!(validate_redirect_code("!x"));
    assert!(!validate_redirect_code("abcd"));
    assert!(validate_page_code("abcd"));
    assert!(!validate_page_code("abc123"));
}

#[test]
fn destinations() {
    assert!(validate_redirect_destination("https://example.com"));
    assert!(validate_redirect_destination("http://x"));
    assert!(!validate_redirect_destination("https://"));
    assert!(!validate_redirect_destination("javascript:alert(1)"));
    assert!(!validate_redirect_destination("https://a.com/\tb"));
    assert!(!validate_redirect_destination("HTTPS://example.com"));
}

#[test]
fn decimal_text() {
    assert_eq!(u64_decimal(0), "0");
    assert_eq!(u64_decimal(u64::MAX), u64::MAX.to_string());
    assert_eq!(i64_decimal(i64::MIN), i64::MIN.to_string());
    assert_eq!(i64_decimal(-7), "-7");
    for s in ["0", "+5", "-5", "9223372036854775807", "-9223372036854775808", "9223372036854775808", "", "+", "-", "1a", " 1", "007"] {
        assert_eq!(parse_i64(s), s.parse::<i64>().ok(), "text {:?}", s);
    }
}

#[test]
fn text_helpers() {
    assert_eq!(join_text("ab", "cd"), "abcd");
    assert!(contains_str("hello world", "o w"));
    assert!(!contains_str("hello", "world"));
    assert!(contains_str("x", ""));
    assert!(starts_with("IP: x", "IP: "));
    assert!(ends_with("a.tar.gz", ".tar.gz"));
    assert!(!ends_with("gz", ".tar.gz"));
    assert_eq!(split_char("a,,b", ','), vec!["a", "", "b"]);
    assert_eq!(split_char("", ','), vec![""]);
    assert_eq!(split_char("abc", ','), vec!["abc"]);
    assert_eq!(split_char("a.b.c", '.'), "a.b.c".split('.').collect::<Vec<_>>());
}

#[test]
fn decimal_roundtrip() {
    for x in [0i64, 1, -1, 42, -9000, i64::MAX, i64::MIN, 1_000_000_007] {
        assert_eq!(parse_i64(&i64_decimal(x)), Some(x));
    }
}

fn read_csv_field(f: &str) -> String {
    if f.len() >= 2 && f.starts_with('"') && f.ends_with('"') {
        f[1..f.len() - 1].replace("\"\"", "\"")
    } else {
        f.to_string()
    }
}

#[test]
fn csv_field_roundtrip() {
    for s in ["plain", "a,b", "quote \"x\"", "\"", "\"\"", "multi\nline", "", "x\r\ny", ","] {
        assert_eq!(read_csv_field(&escape_csv_field(s)), s, "field {:?}", s);
    }
}
