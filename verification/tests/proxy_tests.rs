use norot::classifier::{ClassificationResult, ContentClassifier};
use norot::config::{Config, FilterAction};
use norot::filter::{ContentFilter, FilterDecision};
use norot::proxy::{
    forwards_request_header, inject_warning, is_html_content_type, method_carries_body,
    page_for_decision, route_request, should_filter_url, FilteredPage, ProxyRoute,
};

fn decision(action: FilterAction) -> FilterDecision {
    FilterDecision {
        action,
        reason: "Because".to_string(),
        classification: ClassificationResult {
            category: "entertainment".to_string(),
            confidence: 75,
            reasoning: None,
        },
        should_notify: false,
    }
}

#[test]
fn social_media_urls_are_filtered() {
    assert!(should_filter_url("https://www.instagram.com/p/123"));
    assert!(should_filter_url("https://youtube.com/watch?v=1"));
    assert!(should_filter_url("https://x.com/home"));
    assert!(should_filter_url("https://www.linkedin.com/feed"));
    assert!(!should_filter_url("https://example.com/"));
    assert!(!should_filter_url("https://docs.rs/"));
}

#[test]
fn only_whole_host_names_match() {
    assert!(!should_filter_url("https://www.dropbox.com/home"));
    assert!(!should_filter_url("https://netflix.com/browse"));
    assert!(!should_filter_url("https://example.com/?next=https://instagram.com/"));
    assert!(should_filter_url("https://m.facebook.com:443/profile"));
    assert!(should_filter_url("https://user@old.reddit.com/r/rust"));
    assert!(should_filter_url("youtube.com"));
    assert!(!should_filter_url("https://notyoutube.com/"));
    assert!(!should_filter_url("https://x.com.evil.org/"));
    assert!(!should_filter_url("https://instagram.com@evil.org/"));
}

#[test]
fn warning_goes_after_body_tag() {
    let html = "<html><body class=\"a\"><p>x</p></body></html>";
    let out = inject_warning(html, &decision(FilterAction::Warning));
    let start = "<html><body class=\"a\">";
    assert!(out.starts_with(start));
    assert!(out.ends_with("<p>x</p></body></html>"));
    assert!(out.contains("<strong>NoRot Warning:</strong> This content was classified as \"entertainment\" (75% confidence). Because"));
    assert!(out.contains("setTimeout(() => {"));
}

#[test]
fn warning_goes_first_without_body() {
    let html = "<p>no body</p>";
    let out = inject_warning(html, &decision(FilterAction::Warning));
    assert!(out.starts_with("\n        <div id=\"norot-warning\""));
    assert!(out.ends_with("</script>\n        <p>no body</p>"));
}

#[test]
fn warning_goes_first_when_body_tag_is_unclosed() {
    let html = "<body";
    let out = inject_warning(html, &decision(FilterAction::Warning));
    assert!(out.ends_with("</script>\n        <body"));
}

#[test]
fn dashboard_paths_are_not_proxied() {
    assert!(matches!(route_request("/api/stats", None, Some("h".to_string()), "/api/stats", false), ProxyRoute::NotFound));
    assert!(matches!(route_request("/", None, None, "/", false), ProxyRoute::NotFound));
    assert!(matches!(route_request("/static/style.css", None, None, "/static/style.css", false), ProxyRoute::NotFound));
}

#[test]
fn query_url_is_the_target() {
    match route_request("/proxy", Some("https://instagram.com/p".to_string()), Some("localhost".to_string()), "/proxy?url=x", false) {
        ProxyRoute::Filter(u) => assert_eq!(u, "https://instagram.com/p"),
        other => panic!("unexpected route {:?}", other),
    }
    match route_request("/proxy", Some("https://example.com".to_string()), None, "/proxy", false) {
        ProxyRoute::Forward(u) => assert_eq!(u, "https://example.com"),
        other => panic!("unexpected route {:?}", other),
    }
}

#[test]
fn host_header_makes_the_target() {
    match route_request("/watch", None, Some("youtube.com".to_string()), "/watch?v=1", false) {
        ProxyRoute::Filter(u) => assert_eq!(u, "https://youtube.com/watch?v=1"),
        other => panic!("unexpected route {:?}", other),
    }
    assert!(matches!(route_request("/watch", None, None, "/watch", false), ProxyRoute::NoTarget));
}

#[test]
fn bypass_forwards_filtered_sites() {
    match route_request("/watch", None, Some("youtube.com".to_string()), "/watch?norot_bypass=1", true) {
        ProxyRoute::Forward(u) => assert_eq!(u, "https://youtube.com/watch?norot_bypass=1"),
        other => panic!("unexpected route {:?}", other),
    }
}

#[test]
fn html_content_types() {
    assert!(is_html_content_type("text/html; charset=utf-8"));
    assert!(!is_html_content_type("application/json"));
    assert!(!is_html_content_type(""));
}

#[test]
fn hop_headers_are_dropped() {
    assert!(!forwards_request_header("host"));
    assert!(!forwards_request_header("connection"));
    assert!(!forwards_request_header("transfer-encoding"));
    assert!(!forwards_request_header("content-length"));
    assert!(forwards_request_header("accept"));
    assert!(forwards_request_header("cookie"));
}

#[test]
fn bodies_go_with_post_put_patch() {
    assert!(method_carries_body("POST"));
    assert!(method_carries_body("PUT"));
    assert!(method_carries_body("PATCH"));
    assert!(!method_carries_body("GET"));
    assert!(!method_carries_body("DELETE"));
}

#[test]
fn pages_for_each_action() {
    let c = Config::default();
    let f = ContentFilter::new(c.filters, ContentClassifier::new(c.classifier));
    let html = "<body>hi</body>";
    match page_for_decision(&f, &decision(FilterAction::Block), html, "https://x.com") {
        FilteredPage::Now(p) => assert!(p.contains("Content Blocked")),
        other => panic!("unexpected page {:?}", other),
    }
    match page_for_decision(&f, &decision(FilterAction::Throttle(3)), html, "u") {
        FilteredPage::After(t, p) => {
            assert_eq!(t, 3);
            assert_eq!(p, html);
        },
        other => panic!("unexpected page {:?}", other),
    }
    match page_for_decision(&f, &decision(FilterAction::Warning), html, "u") {
        FilteredPage::Now(p) => {
            assert!(p.starts_with("<body>\n        <div id=\"norot-warning\""));
            assert!(p.ends_with("hi</body>"));
        },
        other => panic!("unexpected page {:?}", other),
    }
    match page_for_decision(&f, &decision(FilterAction::Allow), html, "u") {
        FilteredPage::Now(p) => assert_eq!(p, html),
        other => panic!("unexpected page {:?}", other),
    }
}
