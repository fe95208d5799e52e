//! What the proxy decides, stated from the URL, header and decision
//! themselves.
use vstd::prelude::*;

use crate::config::FilterAction;
use crate::filter::DecisionView;
use crate::pages::{warning_banner, BYPASS_QUERY, URL_LABEL};
use crate::proxy::{
    filtered_page, is_filtered_url, is_hop_header, route_of, starts_with, with_banner, PageView, RouteView,
};
use crate::site::{after_first, host_of, stop_at};
use crate::text::{contains, find_from, lemma_find_from, occurs_at};

verus! {

/// `host` is `domain` or ends with `.` followed by `domain`.
pub open spec fn is_same_or_subdomain(host: Seq<char>, domain: Seq<char>) -> bool {
    host == domain || (host.len() > domain.len() && host.skip(host.len() - domain.len()) == domain
        && host[host.len() - domain.len() - 1] == '.')
}

/// The sites whose pages are filtered: a URL is filtered exactly when its
/// host is one of instagram.com, facebook.com, twitter.com, x.com,
/// tiktok.com, youtube.com, reddit.com, snapchat.com and linkedin.com, or a
/// subdomain of one.
pub proof fn filtered_sites(url: Seq<char>)
    ensures
        ({
            let h = host_of(url);
            is_filtered_url(url) <==> (is_same_or_subdomain(h, "instagram.com"@)
                || is_same_or_subdomain(h, "facebook.com"@) || is_same_or_subdomain(h, "twitter.com"@)
                || is_same_or_subdomain(h, "x.com"@) || is_same_or_subdomain(h, "tiktok.com"@)
                || is_same_or_subdomain(h, "youtube.com"@) || is_same_or_subdomain(h, "reddit.com"@)
                || is_same_or_subdomain(h, "snapchat.com"@) || is_same_or_subdomain(h, "linkedin.com"@))
        }),
{
}

proof fn lemma_stop_at_after(s: Seq<char>, stops: Seq<char>, n: int, k: int)
    requires
        0 <= k <= n <= s.len(),
        forall|i: int| 0 <= i < n ==> !stops.contains(#[trigger] s[i]),
        n == s.len() || stops.contains(s[n]),
    ensures
        stop_at(s, stops, k) == n,
    decreases n - k,
{
    if k < n {
        lemma_stop_at_after(s, stops, n, k + 1);
    }
}

proof fn lemma_single_char_occurs(s: Seq<char>, p: Seq<char>, j: int)
    requires
        p.len() == 1,
    ensures
        occurs_at(s, p, j) <==> (0 <= j < s.len() && s[j] == p[0]),
{
    if 0 <= j < s.len() {
        if s[j] == p[0] {
            assert(s.subrange(j, j + 1) =~= p);
        }
        if occurs_at(s, p, j) {
            assert(s.subrange(j, j + 1)[0] == s[j]);
        }
    }
}

/// The host of a URL written `scheme://user@host:port` followed by a path,
/// query or fragment (or nothing) is `host`: the scheme, the user
/// information and the port are left out. The scheme has no `:`; the user
/// information is empty or ends in its only `@`; the host has none of
/// `:`, `/`, `?`, `#`, `@`; the port is empty or starts with `:`.
pub proof fn host_of_url(scheme: Seq<char>, user: Seq<char>, host: Seq<char>, port: Seq<char>, rest: Seq<char>)
    requires
        forall|i: int| 0 <= i < scheme.len() ==> #[trigger] scheme[i] != ':',
        user.len() == 0 || user.last() == '@',
        forall|i: int|
            0 <= i < user.len() ==> #[trigger] user[i] != '/' && user[i] != '?' && user[i] != '#' && (user[i]
                != '@' || i == user.len() - 1),
        forall|i: int|
            0 <= i < host.len() ==> #[trigger] host[i] != ':' && host[i] != '/' && host[i] != '?' && host[i] != '#'
                && host[i] != '@',
        port.len() == 0 || port[0] == ':',
        forall|i: int|
            0 <= i < port.len() ==> #[trigger] port[i] != '/' && port[i] != '?' && port[i] != '#' && port[i] != '@',
        rest.len() == 0 || rest[0] == '/' || rest[0] == '?' || rest[0] == '#',
    ensures
        host_of(scheme + "://"@ + user + host + port + rest) == host,
{
    let auth = user + host + port;
    let url = scheme + "://"@ + auth + rest;
    assert(url =~= scheme + "://"@ + user + host + port + rest);
    lemma_after_scheme(scheme, auth + rest);
    assert(scheme + "://"@ + user + host + port + rest =~= scheme + "://"@ + (auth + rest));
    let after = after_first(url, "://"@);
    assert(after == auth + rest);
    lemma_authority(user, host, port, rest);
    assert(user + host + port + rest =~= auth + rest);
    let authority = after.take(stop_at(after, "/?#"@, 0));
    assert(authority == auth);
    lemma_host_of_authority(user, host, port);
}

proof fn lemma_after_scheme(scheme: Seq<char>, tail: Seq<char>)
    requires
        forall|i: int| 0 <= i < scheme.len() ==> #[trigger] scheme[i] != ':',
    ensures
        after_first(scheme + "://"@ + tail, "://"@) == tail,
{
    reveal_strlit("://");
    let sep = "://"@;
    let url = scheme + sep + tail;
    assert(url.subrange(scheme.len() as int, scheme.len() + 3int) =~= sep);
    assert(occurs_at(url, sep, scheme.len() as int));
    lemma_find_from(url, sep, 0);
    assert forall|j: int| 0 <= j < scheme.len() implies !occurs_at(url, sep, j) by {
        if occurs_at(url, sep, j) {
            assert(url.subrange(j, j + 3)[0] == url[j]);
            assert(url[j] == scheme[j]);
        }
    }
    assert(find_from(url, sep, 0) == Some(scheme.len() as int));
    assert(url.skip(scheme.len() + 3int) =~= tail);
}

proof fn lemma_authority(user: Seq<char>, host: Seq<char>, port: Seq<char>, rest: Seq<char>)
    requires
        forall|i: int| 0 <= i < user.len() ==> #[trigger] user[i] != '/' && user[i] != '?' && user[i] != '#',
        forall|i: int| 0 <= i < host.len() ==> #[trigger] host[i] != '/' && host[i] != '?' && host[i] != '#',
        forall|i: int| 0 <= i < port.len() ==> #[trigger] port[i] != '/' && port[i] != '?' && port[i] != '#',
        rest.len() == 0 || rest[0] == '/' || rest[0] == '?' || rest[0] == '#',
    ensures
        ({
            let after = user + host + port + rest;
            after.take(stop_at(after, "/?#"@, 0)) == user + host + port
        }),
{
    reveal_strlit("/?#");
    let auth = user + host + port;
    let after = auth + rest;
    let stops = "/?#"@;
    if rest.len() > 0 {
        assert(after[auth.len() as int] == rest[0]);
        if rest[0] == '/' {
            assert(stops[0] == '/');
        } else if rest[0] == '?' {
            assert(stops[1] == '?');
        } else {
            assert(stops[2] == '#');
        }
    }
    assert forall|i: int| 0 <= i < auth.len() implies !stops.contains(#[trigger] after[i]) by {
        assert(after[i] == auth[i]);
        if i >= user.len() + host.len() {
            assert(auth[i] == port[i - user.len() - host.len()]);
        } else if i < user.len() {
            assert(auth[i] == user[i]);
        } else {
            assert(auth[i] == host[i - user.len()]);
        }
        if stops.contains(after[i]) {
            let k = choose|k: int| 0 <= k < stops.len() && stops[k] == after[i];
        }
    }
    lemma_stop_at_after(after, stops, auth.len() as int, 0);
    assert(after.take(auth.len() as int) =~= auth);
}

proof fn lemma_host_of_authority(user: Seq<char>, host: Seq<char>, port: Seq<char>)
    requires
        user.len() == 0 || user.last() == '@',
        forall|i: int| 0 <= i < user.len() - 1 ==> #[trigger] user[i] != '@',
        forall|i: int| 0 <= i < host.len() ==> #[trigger] host[i] != ':' && host[i] != '@',
        port.len() == 0 || port[0] == ':',
        forall|i: int| 0 <= i < port.len() ==> #[trigger] port[i] != '@',
    ensures
        ({
            let host_port = after_first(user + host + port, "@"@);
            host_port.take(stop_at(host_port, ":"@, 0)) == host
        }),
{
    reveal_strlit("@");
    reveal_strlit(":");
    let auth = user + host + port;
    let at = "@"@;
    lemma_find_from(auth, at, 0);
    let host_port = host + port;
    if user.len() == 0 {
        assert(auth =~= host_port);
        assert forall|j: int| 0 <= j implies !occurs_at(auth, at, j) by {
            lemma_single_char_occurs(auth, at, j);
            if 0 <= j < auth.len() && j >= host.len() {
                assert(auth[j] == port[j - host.len()]);
            }
        }
        assert(after_first(auth, at) == host_port);
    } else {
        let u = user.len() - 1;
        lemma_single_char_occurs(auth, at, u);
        assert(auth[u] == user[u]);
        assert forall|j: int| 0 <= j < u implies !occurs_at(auth, at, j) by {
            lemma_single_char_occurs(auth, at, j);
            assert(auth[j] == user[j]);
        }
        assert(find_from(auth, at, 0) == Some(u));
        assert(auth.skip(u + 1) =~= host_port);
        assert(after_first(auth, at) == host_port);
    }
    assert forall|i: int| 0 <= i < host.len() implies !":"@.contains(#[trigger] host_port[i]) by {
        assert(host_port[i] == host[i]);
        if ":"@.contains(host_port[i]) {
            let k = choose|k: int| 0 <= k < 1 && ":"@[k] == host_port[i];
        }
    }
    if port.len() > 0 {
        assert(host_port[host.len() as int] == port[0]);
        assert(":"@[0] == ':');
    }
    lemma_stop_at_after(host_port, ":"@, host.len() as int, 0);
    assert(host_port.take(host.len() as int) =~= host);
}

/// Request headers that are passed upstream: all but `host`,
/// `connection`, `transfer-encoding` and `content-length`.
pub proof fn forwarded_headers(name: Seq<char>)
    ensures
        !is_hop_header(name) <==> (name != "host"@ && name != "connection"@ && name != "transfer-encoding"@
            && name != "content-length"@),
{
}

/// Where the warning banner goes: right after the `>` that closes the
/// page's first `<body` tag; at the very start of the page when it has no
/// `<body` tag, or no `>` after it.
pub proof fn banner_follows_body_tag(h: Seq<char>, banner: Seq<char>)
    ensures
        forall|b: int, e: int|
            {
                &&& occurs_at(h, "<body"@, b)
                &&& (forall|j: int| 0 <= j < b ==> !occurs_at(h, "<body"@, j))
                &&& b <= e < h.len()
                &&& h[e] == '>'
                &&& (forall|j: int| b <= j < e ==> h[j] != '>')
            } ==> with_banner(h, banner) == h.take(e + 1) + banner + h.skip(e + 1),
        (forall|b: int| !occurs_at(h, "<body"@, b)) ==> with_banner(h, banner) == banner + h,
        (forall|b: int, e: int| occurs_at(h, "<body"@, b) && b <= e < h.len() ==> h[e] != '>') ==> with_banner(
            h,
            banner,
        ) == banner + h,
{
    reveal_strlit(">");
    let gt = ">"@;
    lemma_find_from(h, "<body"@, 0);
    assert forall|j: int| 0 <= j < h.len() implies (occurs_at(h, gt, j) <==> h[j] == '>') by {
        if h[j] == '>' {
            assert(h.subrange(j, j + 1) =~= gt);
        }
        if occurs_at(h, gt, j) {
            assert(h.subrange(j, j + 1)[0] == h[j]);
        }
    }
    if let Some(b0) = find_from(h, "<body"@, 0) {
        lemma_find_from(h, gt, b0);
        assert forall|b: int, e: int|
            {
                &&& occurs_at(h, "<body"@, b)
                &&& (forall|j: int| 0 <= j < b ==> !occurs_at(h, "<body"@, j))
                &&& b <= e < h.len()
                &&& h[e] == '>'
                &&& (forall|j: int| b <= j < e ==> h[j] != '>')
            } implies with_banner(h, banner) == h.take(e + 1) + banner + h.skip(e + 1) by {
            assert(b == b0);
            assert(occurs_at(h, gt, e));
            if let Some(e0) = find_from(h, gt, b0) {
                if e0 < e {
                    assert(h[e0] == '>');
                }
                assert(e0 == e);
            }
        }
        if (forall|b: int, e: int| occurs_at(h, "<body"@, b) && b <= e < h.len() ==> h[e] != '>') {
            if let Some(e0) = find_from(h, gt, b0) {
                assert(h[e0] == '>');
            }
        }
    }
}

/// What the proxy answers for each decision on the page `html` requested
/// at `url`: a block shows the blocked page for that URL, naming it and
/// linking to it with the bypass parameter; a throttle answers the page
/// itself after the delay; a warning answers the page with the banner
/// inserted and nothing else changed; an allow answers the page itself.
pub proof fn answers_for_decisions(d: DecisionView, html: Seq<char>, url: Seq<char>)
    ensures
        ({
            let p = filtered_page(d, html, url);
            &&& d.action is Block ==> match p {
                PageView::Now(page) => contains(page, "<strong>URL:</strong> "@ + url) && contains(
                    page,
                    url + "?norot_bypass=1"@,
                ),
                PageView::After(_, _) => false,
            }
            &&& d.action matches FilterAction::Throttle(s) ==> p == PageView::After(s, html)
            &&& d.action is Allow ==> p == PageView::Now(html)
            &&& d.action is Warning ==> match p {
                PageView::Now(page) => exists|k: int|
                    0 <= k <= html.len() && page == html.take(k) + warning_banner(
                        d.classification.category,
                        d.classification.confidence,
                        d.reason,
                    ) + html.skip(k),
                PageView::After(_, _) => false,
            }
        }),
{
    assert(URL_LABEL@ == "<strong>URL:</strong> "@);
    assert(BYPASS_QUERY@ == "?norot_bypass=1"@);
    if d.action is Block {
        if let PageView::Now(page) = filtered_page(d, html, url) {
            let shown = URL_LABEL@ + url;
            let link = url + BYPASS_QUERY@;
            let tail1 = crate::pages::BLOCKED_PAGE_AFTER_URL@ + url + BYPASS_QUERY@
                + crate::pages::BLOCKED_PAGE_TAIL@;
            let k1 = page.len() - tail1.len() - shown.len();
            assert(page.subrange(k1, k1 + shown.len()) =~= shown);
            assert(occurs_at(page, shown, k1));
            let k2 = page.len() - crate::pages::BLOCKED_PAGE_TAIL@.len() - link.len();
            assert(page.subrange(k2, k2 + link.len()) =~= link);
            assert(occurs_at(page, link, k2));
        }
    }
    if d.action is Warning {
        crate::laws::banner_only_inserts(
            html,
            warning_banner(d.classification.category, d.classification.confidence, d.reason),
        );
    }
}

/// Where requests go: `/`, and paths under `/api/` and `/static/`, belong
/// to the dashboard; otherwise the target is the `url` parameter, or else
/// `https://` with the `Host` header and the path; a target is filtered
/// when it is on a filtered site and the request does not ask to bypass
/// the filter, and forwarded otherwise.
pub proof fn routes(
    path: Seq<char>,
    query_url: Option<Seq<char>>,
    host: Option<Seq<char>>,
    path_and_query: Seq<char>,
    bypass: bool,
)
    ensures
        ({
            let r = route_of(path, query_url, host, path_and_query, bypass);
            let dashboard = starts_with(path, "/api/"@) || path == "/"@ || starts_with(path, "/static/"@);
            let target = match query_url {
                Some(u) => Some(u),
                None => match host {
                    Some(h) => Some("https://"@ + h + path_and_query),
                    None => None,
                },
            };
            &&& dashboard ==> r == RouteView::NotFound
            &&& !dashboard && target is None ==> r == RouteView::NoTarget
            &&& (!dashboard && target is Some && !bypass && is_filtered_url(target->0)) ==> r
                == RouteView::Filter(target->0)
            &&& (!dashboard && target is Some && (bypass || !is_filtered_url(target->0))) ==> r
                == RouteView::Forward(target->0)
        }),
{
}

} // verus!
