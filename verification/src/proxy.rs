//! The proxy's decisions: which requests it serves itself, which pages it
//! filters, what it forwards, and how a filter decision turns into a page.
use vstd::prelude::*;
use vstd::string::*;

use crate::config::FilterAction;
use crate::filter::{ContentFilter, DecisionView, FilterDecision};
use crate::pages::{blocked_page, warning_banner, warning_banner_html};
use crate::site::{is_host_in_domain, on_site, url_host};
use crate::text::{
    chars_of, contains, contains_str, eq_str, find_chars, find_from, lemma_find_from, occurs_at,
    push_chars, sub_chars,
};

verus! {

/// The URL is on a social media or content site, whose pages are filtered.
pub open spec fn is_filtered_url(url: Seq<char>) -> bool {
    ||| on_site(url, "instagram.com"@)
    ||| on_site(url, "facebook.com"@)
    ||| on_site(url, "twitter.com"@)
    ||| on_site(url, "x.com"@)
    ||| on_site(url, "tiktok.com"@)
    ||| on_site(url, "youtube.com"@)
    ||| on_site(url, "reddit.com"@)
    ||| on_site(url, "snapchat.com"@)
    ||| on_site(url, "linkedin.com"@)
}

/// Whether the page at `url` is filtered: only pages whose host is one of
/// the social media and content sites, or a subdomain of one, are.
pub fn should_filter_url(url: &str) -> (b: bool)
    ensures
        b == is_filtered_url(url@),
{
    let h = url_host(url);
    let h = h.as_slice();
    is_host_in_domain(h, "instagram.com") || is_host_in_domain(h, "facebook.com")
        || is_host_in_domain(h, "twitter.com") || is_host_in_domain(h, "x.com")
        || is_host_in_domain(h, "tiktok.com") || is_host_in_domain(h, "youtube.com")
        || is_host_in_domain(h, "reddit.com") || is_host_in_domain(h, "snapchat.com")
        || is_host_in_domain(h, "linkedin.com")
}

/// The page `h` with `banner` inserted right after its opening `<body ...>`
/// tag, or in front of it when it has none.
pub open spec fn with_banner(h: Seq<char>, banner: Seq<char>) -> Seq<char> {
    match find_from(h, "<body"@, 0) {
        Some(b) => match find_from(h, ">"@, b) {
            Some(e) => h.take(e + 1) + banner + h.skip(e + 1),
            None => banner + h,
        },
        None => banner + h,
    }
}

/// The page `html` with the warning banner for `decision` laid over it.
pub fn inject_warning(html: &str, decision: &FilterDecision) -> (s: String)
    ensures
        s@ == with_banner(
            html@,
            warning_banner(decision.classification.category@, decision.classification.confidence, decision.reason@),
        ),
{
    let banner = warning_banner_html(
        decision.classification.category.as_str(),
        decision.classification.confidence,
        decision.reason.as_str(),
    );
    let h = chars_of(html);
    let h = h.as_slice();
    let open_tag = chars_of("<body");
    let close = chars_of(">");
    proof {
        lemma_find_from(h@, open_tag@, 0);
    }
    if let Some(body_pos) = find_chars(h, open_tag.as_slice(), 0) {
        proof {
            lemma_find_from(h@, close@, body_pos as int);
        }
        if let Some(body_end) = find_chars(h, close.as_slice(), body_pos) {
            let n = h.len();
            assert(body_end + close@.len() <= n);
            let insert_pos = body_end + close.len();
            proof {
                reveal_strlit(">");
            }
            let before = sub_chars(h, 0, insert_pos);
            let after = sub_chars(h, insert_pos, h.len());
            let mut s = String::new();
            push_chars(&mut s, before.as_slice());
            s.append(banner.as_str());
            push_chars(&mut s, after.as_slice());
            assert(h@.subrange(0, insert_pos as int) =~= h@.take(insert_pos as int));
            assert(h@.subrange(insert_pos as int, h@.len() as int) =~= h@.skip(insert_pos as int));
            return s;
        }
    }
    let mut s = banner;
    s.append(html);
    s
}

/// `s` starts with `p`.
pub open spec fn starts_with(s: Seq<char>, p: Seq<char>) -> bool {
    occurs_at(s, p, 0)
}

fn starts_with_str(s: &str, p: &str) -> (b: bool)
    ensures
        b == starts_with(s@, p@),
{
    let sc = chars_of(s);
    let pc = chars_of(p);
    if pc.len() > sc.len() {
        return false;
    }
    proof {
        lemma_find_from(sc@, pc@, 0);
    }
    match find_chars(sc.as_slice(), pc.as_slice(), 0) {
        Some(i) => i == 0,
        None => false,
    }
}

/// Paths that the dashboard owns.
pub open spec fn is_dashboard_path(path: Seq<char>) -> bool {
    starts_with(path, "/api/"@) || path == "/"@ || starts_with(path, "/static/"@)
}

/// What the proxy does with a request that no dashboard route took.
#[derive(Debug)]
pub enum ProxyRoute {
    /// A dashboard path: answered with "Not found".
    NotFound,
    /// Neither a `url` query parameter nor a `Host` header: answered with
    /// "No target URL provided".
    NoTarget,
    /// Fetch the page at this URL and filter it.
    Filter(String),
    /// Forward the request to this URL as it is.
    Forward(String),
}

/// A route as values.
pub enum RouteView {
    NotFound,
    NoTarget,
    Filter(Seq<char>),
    Forward(Seq<char>),
}

impl View for ProxyRoute {
    type V = RouteView;

    open spec fn view(&self) -> RouteView {
        match self {
            ProxyRoute::NotFound => RouteView::NotFound,
            ProxyRoute::NoTarget => RouteView::NoTarget,
            ProxyRoute::Filter(u) => RouteView::Filter(u@),
            ProxyRoute::Forward(u) => RouteView::Forward(u@),
        }
    }
}

/// The URL that a request is for: the `url` query parameter, or else
/// `https://` with the `Host` header and the request's path and query.
pub open spec fn target_url(query_url: Option<Seq<char>>, host: Option<Seq<char>>, path_and_query: Seq<char>) -> Option<Seq<char>> {
    match query_url {
        Some(u) => Some(u),
        None => match host {
            Some(h) => Some("https://"@ + h + path_and_query),
            None => None,
        },
    }
}

/// The route of a request for `path`: dashboard paths are not proxied;
/// pages of filtered sites are filtered unless the request asks to bypass
/// the filter; everything else is forwarded.
pub open spec fn route_of(
    path: Seq<char>,
    query_url: Option<Seq<char>>,
    host: Option<Seq<char>>,
    path_and_query: Seq<char>,
    bypass: bool,
) -> RouteView {
    if is_dashboard_path(path) {
        RouteView::NotFound
    } else {
        match target_url(query_url, host, path_and_query) {
            None => RouteView::NoTarget,
            Some(u) => if !bypass && is_filtered_url(u) {
                RouteView::Filter(u)
            } else {
                RouteView::Forward(u)
            },
        }
    }
}

/// Where a request goes: `path` is the request's path, `query_url` and
/// `bypass` come from its `url` and `norot_bypass` query parameters, `host`
/// is its `Host` header and `path_and_query` its path with the query.
pub fn route_request(
    path: &str,
    query_url: Option<String>,
    host: Option<String>,
    path_and_query: &str,
    bypass: bool,
) -> (r: ProxyRoute)
    ensures
        r@ == route_of(path@, query_url.deep_view(), host.deep_view(), path_and_query@, bypass),
{
    let p = path.to_owned();
    if starts_with_str(path, "/api/") || eq_str(&p, "/") || starts_with_str(path, "/static/") {
        return ProxyRoute::NotFound;
    }
    let target = match query_url {
        Some(u) => u,
        None => match host {
            Some(h) => {
                let mut t = "https://".to_owned();
                t.append(h.as_str());
                t.append(path_and_query);
                t
            },
            None => return ProxyRoute::NoTarget,
        },
    };
    if !bypass && should_filter_url(target.as_str()) {
        ProxyRoute::Filter(target)
    } else {
        ProxyRoute::Forward(target)
    }
}

/// Whether a response with this `Content-Type` is an HTML page, the only
/// kind that is filtered.
pub fn is_html_content_type(content_type: &str) -> (b: bool)
    ensures
        b == contains(content_type@, "text/html"@),
{
    let c = chars_of(content_type);
    contains_str(c.as_slice(), "text/html")
}

/// The request headers that are not forwarded upstream.
pub open spec fn is_hop_header(name: Seq<char>) -> bool {
    name == "host"@ || name == "connection"@ || name == "transfer-encoding"@ || name == "content-length"@
}

/// Whether a request header with this name is forwarded upstream.
pub fn forwards_request_header(name: &str) -> (b: bool)
    ensures
        b == !is_hop_header(name@),
{
    let n = name.to_owned();
    !(eq_str(&n, "host") || eq_str(&n, "connection") || eq_str(&n, "transfer-encoding") || eq_str(
        &n,
        "content-length",
    ))
}

/// Whether a request with this method has its body forwarded.
pub fn method_carries_body(method: &str) -> (b: bool)
    ensures
        b == (method@ == "POST"@ || method@ == "PUT"@ || method@ == "PATCH"@),
{
    let m = method.to_owned();
    eq_str(&m, "POST") || eq_str(&m, "PUT") || eq_str(&m, "PATCH")
}

/// What the proxy answers for a filtered page.
#[derive(Debug)]
pub enum FilteredPage {
    /// Answer with this page at once.
    Now(String),
    /// Wait this many seconds, then answer with this page.
    After(u64, String),
}

/// An answer for a filtered page as values.
pub enum PageView {
    Now(Seq<char>),
    After(u64, Seq<char>),
}

impl View for FilteredPage {
    type V = PageView;

    open spec fn view(&self) -> PageView {
        match self {
            FilteredPage::Now(p) => PageView::Now(p@),
            FilteredPage::After(t, p) => PageView::After(*t, p@),
        }
    }
}

/// The answer for the page `html` fetched from `url`, given decision `d`:
/// the blocked page, the page itself after the delay, the page with a
/// warning banner, or the page itself.
pub open spec fn filtered_page(d: DecisionView, html: Seq<char>, url: Seq<char>) -> PageView {
    match d.action {
        FilterAction::Block => PageView::Now(
            blocked_page(d.reason, d.classification.category, d.classification.confidence, url),
        ),
        FilterAction::Throttle(s) => PageView::After(s, html),
        FilterAction::Warning => PageView::Now(
            with_banner(html, warning_banner(d.classification.category, d.classification.confidence, d.reason)),
        ),
        FilterAction::Allow => PageView::Now(html),
    }
}

/// The answer for the page `html` fetched from `url`, given `decision`.
pub fn page_for_decision(filter: &ContentFilter, decision: &FilterDecision, html: &str, url: &str) -> (r: FilteredPage)
    ensures
        r@ == filtered_page(decision@, html@, url@),
{
    match decision.action {
        FilterAction::Block => FilteredPage::Now(filter.generate_blocked_content_html(decision, url)),
        FilterAction::Throttle(seconds) => FilteredPage::After(seconds, html.to_owned()),
        FilterAction::Warning => FilteredPage::Now(inject_warning(html, decision)),
        FilterAction::Allow => FilteredPage::Now(html.to_owned()),
    }
}

} // verus!
