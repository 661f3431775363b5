use gateway::json::{json_u64, Json};
use gateway::read_pdf::{finalize, not_pdf_error, pdf_request, size_error, PdfCache, CACHE_CAP};

fn obj(members: Vec<(&str, Json)>) -> Json {
    Json::Object(members.into_iter().map(|(k, v)| (k.to_string(), v)).collect())
}

fn s(x: &str) -> Json {
    Json::String(x.to_string())
}

#[test]
fn missing_url_is_structured_error() {
    let out = pdf_request(&obj(vec![]));
    assert_eq!(out.err().unwrap(), "read_pdf: missing required 'url'.");
}

#[test]
fn non_http_url_is_validation_error() {
    let out = pdf_request(&obj(vec![("url", s("ftp://example.com/foo.pdf"))]));
    let e = out.err().unwrap();
    assert!(e.contains("validation"));
    assert_eq!(e, "read_pdf: scheme 'ftp' not supported (need http/https) [validation]");
}

#[test]
fn unparsable_url_is_validation_error() {
    let e = pdf_request(&obj(vec![("url", s("not a url"))])).err().unwrap();
    assert!(e.starts_with("read_pdf: invalid URL 'not a url' — "));
    assert!(e.ends_with(" [validation]"));
}

#[test]
fn request_defaults_and_caps() {
    let req = pdf_request(&obj(vec![("url", s("https://example.com/a.pdf")), ("limit", json_u64(99_999))])).unwrap();
    assert_eq!(req.url, "https://example.com/a.pdf");
    assert_eq!(req.offset, 0);
    assert_eq!(req.limit, 16_000);
    assert_eq!(req.format, "markdown");
    let req = pdf_request(&obj(vec![
        ("url", s("http://example.com/a.pdf")),
        ("offset", json_u64(7)),
        ("format", s("text")),
    ]))
    .unwrap();
    assert_eq!(req.offset, 7);
    assert_eq!(req.limit, 4_000);
    assert_eq!(req.format, "text");
}

#[test]
fn finalize_slices_with_offset() {
    let text = "ABCDEFGHIJ".to_string();
    let out = finalize("u", &text, 2, 4, "markdown", false).unwrap();
    assert!(out.body.contains("CDEF"));
    assert_eq!(out.next_offset, 6);
    assert!(out.has_more);
}

#[test]
fn finalize_marks_complete_when_at_end() {
    let text = "ABCDE".to_string();
    let out = finalize("u", &text, 0, 10, "markdown", false).unwrap();
    assert!(!out.has_more);
    assert!(out.body.contains("已读完"));
}

#[test]
fn finalize_text_format_returns_just_slice() {
    let text = "hello world".to_string();
    let out = finalize("u", &text, 0, 5, "text", false).unwrap();
    assert_eq!(out.body, "hello");
}

#[test]
fn finalize_refuses_offset_past_end() {
    let e = finalize("u", "abc", 3, 5, "text", false).err().unwrap();
    assert_eq!(e, "read_pdf: offset 3 ≥ total 3 characters [validation]");
}

#[test]
fn finalize_markdown_has_exact_layout() {
    let out = finalize("u", "ABCDEFGHIJ", 2, 4, "markdown", true).unwrap();
    assert_eq!(
        out.body,
        "## PDF\n**来源:** u\n**进度:** 第 2-6 字 / 共 ~10 字 (cached)\n\nCDEF\n\n---\n**下一段:** `read_pdf(url, offset=6, limit=4)` 续读 (剩余 ~4 字)\n"
    );
}

#[test]
fn finalize_counts_characters_not_bytes() {
    let out = finalize("u", "茅台酒ABC", 1, 2, "text", false).unwrap();
    assert_eq!(out.body, "台酒");
    assert_eq!(out.total_chars, 6);
    assert_eq!(out.non_ascii_chars, 3);
}

#[test]
fn finalize_flags_long_ascii_text() {
    let text = "a".repeat(300);
    let out = finalize("u", &text, 0, 10, "text", false).unwrap();
    assert!(out.quality_unverified);
    let text = "茅".repeat(300);
    assert!(!finalize("u", &text, 0, 10, "text", false).unwrap().quality_unverified);
}

#[test]
fn cache_put_get_eviction() {
    let mut cache = PdfCache::new();
    for i in 0..7 {
        cache.cache_put(format!("u{i}"), format!("t{i}"));
    }
    assert_eq!(cache.len(), CACHE_CAP);
    assert!(cache.contains_url("u6"));
    assert!(!cache.contains_url("u0"));
}

#[test]
fn cache_get_after_put_and_replace() {
    let mut cache = PdfCache::new();
    cache.cache_put("a".to_string(), "1".to_string());
    cache.cache_put("b".to_string(), "2".to_string());
    cache.cache_put("a".to_string(), "3".to_string());
    assert_eq!(cache.len(), 2);
    assert_eq!(cache.cache_get("a").as_deref(), Some("3"));
    assert_eq!(cache.cache_get("b").as_deref(), Some("2"));
    assert_eq!(cache.cache_get("c"), None);
}

#[test]
fn response_checks() {
    assert_eq!(not_pdf_error("https://x/a", "Application/PDF; charset=binary", "/a"), None);
    assert_eq!(not_pdf_error("https://x/a.pdf", "text/html", "/a.pdf"), None);
    assert_eq!(
        not_pdf_error("https://x/a", "text/html", "/a").unwrap(),
        "read_pdf: 'https://x/a' is not a PDF (Content-Type: text/html) [url_not_pdf / validation]"
    );
    assert_eq!(size_error(20 * 1024 * 1024), None);
    assert_eq!(
        size_error(20 * 1024 * 1024 + 1).unwrap(),
        "read_pdf: PDF exceeds 20971520 bytes (got 20971521) [policy]"
    );
}

#[test]
fn cache_evicts_the_least_recently_used() {
    let mut cache = PdfCache::new();
    for i in 0..5 {
        cache.cache_put(format!("u{i}"), format!("t{i}"));
    }
    assert_eq!(cache.cache_get("u0").as_deref(), Some("t0"));
    cache.cache_put("u5".to_string(), "t5".to_string());
    assert_eq!(cache.cache_get("u0").as_deref(), Some("t0"));
    assert!(!cache.contains_url("u1"));
    assert!(cache.contains_url("u2"));
    assert_eq!(cache.len(), CACHE_CAP);
}

#[test]
fn finalize_refuses_an_offset_past_the_end() {
    let e = finalize("u", "abc", 3, 2, "text", false).err().unwrap();
    assert_eq!(e, "read_pdf: offset 3 ≥ total 3 characters [validation]");
    assert!(finalize("u", "", 0, 2, "text", false).is_ok());
}
