//! Which site a URL belongs to: its host name, and whether that host is a
//! given domain or one of its subdomains.
use vstd::prelude::*;

use crate::text::{chars_of, find_chars, find_from, lemma_find_from, sub_chars};

verus! {

/// The first index at or after `k` whose character is one of `stops`, or
/// the length of `s` when there is none.
pub open spec fn stop_at(s: Seq<char>, stops: Seq<char>, k: int) -> int
    decreases s.len() - k,
{
    if k < 0 || k >= s.len() {
        s.len() as int
    } else if stops.contains(s[k]) {
        k
    } else {
        stop_at(s, stops, k + 1)
    }
}

/// `s` with everything up to the first `sep` removed, or `s` itself when it
/// has no `sep`.
pub open spec fn after_first(s: Seq<char>, sep: Seq<char>) -> Seq<char> {
    match find_from(s, sep, 0) {
        Some(i) => s.skip(i + sep.len()),
        None => s,
    }
}

/// The host name of a URL: after the scheme's `://`, up to the first `/`,
/// `?` or `#`, without the user information before an `@` and without the
/// port after a `:`.
pub open spec fn host_of(url: Seq<char>) -> Seq<char> {
    let rest = after_first(url, "://"@);
    let authority = rest.take(stop_at(rest, "/?#"@, 0));
    let host_port = after_first(authority, "@"@);
    host_port.take(stop_at(host_port, ":"@, 0))
}

/// The host is `domain` or a subdomain of it.
pub open spec fn host_in_domain(host: Seq<char>, domain: Seq<char>) -> bool {
    ||| host == domain
    ||| host.len() > domain.len() && host.skip(host.len() - domain.len()) == domain
        && host[host.len() - domain.len() - 1] == '.'
}

/// The URL is on the site `domain` (the domain itself or a subdomain).
pub open spec fn on_site(url: Seq<char>, domain: Seq<char>) -> bool {
    host_in_domain(host_of(url), domain)
}

/// The first index whose character is one of `stops`, or the length.
fn first_stop(s: &[char], stops: &str) -> (r: usize)
    ensures
        r == stop_at(s@, stops@, 0),
        r <= s@.len(),
{
    let st = chars_of(stops);
    let n = s.len();
    let mut k: usize = 0;
    while k < n
        invariant
            k <= n == s@.len(),
            st@ == stops@,
            stop_at(s@, stops@, 0) == stop_at(s@, stops@, k as int),
        decreases n - k,
    {
        let c = s[k];
        let mut j: usize = 0;
        while j < st.len()
            invariant
                j <= st@.len(),
                k < n == s@.len(),
                c == s@[k as int],
                st@ == stops@,
                stop_at(s@, stops@, 0) == stop_at(s@, stops@, k as int),
                forall|t: int| 0 <= t < j ==> st@[t] != c,
            decreases st.len() - j,
        {
            if st[j] == c {
                assert(stops@[j as int] == s@[k as int]);
                return k;
            }
            j = j + 1;
        }
        assert(!stops@.contains(s@[k as int]));
        k = k + 1;
    }
    k
}

/// `s` after the first `sep`, or `s` itself.
fn chars_after_first(s: &[char], sep: &str) -> (r: Vec<char>)
    ensures
        r@ == after_first(s@, sep@),
{
    let sp = chars_of(sep);
    proof {
        lemma_find_from(s@, sp@, 0);
    }
    match find_chars(s, sp.as_slice(), 0) {
        Some(i) => {
            let n = s.len();
            assert(i + sp@.len() <= n);
            let r = sub_chars(s, i + sp.len(), n);
            assert(r@ =~= s@.skip(i + sp@.len()));
            r
        },
        None => sub_chars(s, 0, s.len()),
    }
}

/// The host name of `url`.
pub fn url_host(url: &str) -> (h: Vec<char>)
    ensures
        h@ == host_of(url@),
{
    let u = chars_of(url);
    let rest = chars_after_first(u.as_slice(), "://");
    let a = first_stop(rest.as_slice(), "/?#");
    let authority = sub_chars(rest.as_slice(), 0, a);
    let host_port = chars_after_first(authority.as_slice(), "@");
    let p = first_stop(host_port.as_slice(), ":");
    let h = sub_chars(host_port.as_slice(), 0, p);
    assert(authority@ =~= rest@.take(a as int));
    assert(h@ =~= host_port@.take(p as int));
    h
}

/// Whether `host` is `domain` or a subdomain of it.
pub fn is_host_in_domain(host: &[char], domain: &str) -> (b: bool)
    ensures
        b == host_in_domain(host@, domain@),
{
    let d = chars_of(domain);
    let hl = host.len();
    let dl = d.len();
    if hl < dl {
        return false;
    }
    let start = hl - dl;
    let mut i: usize = 0;
    while i < dl
        invariant
            i <= dl == d@.len(),
            hl == host@.len(),
            start + dl == hl,
            d@ == domain@,
            forall|t: int| 0 <= t < i ==> host@[start + t] == d@[t],
        decreases dl - i,
    {
        if host[start + i] != d[i] {
            assert(host@.skip(start as int)[i as int] != domain@[i as int]);
            return false;
        }
        i = i + 1;
    }
    assert(host@.skip(start as int) =~= domain@);
    if hl == dl {
        assert(host@ =~= domain@);
        true
    } else {
        host[start - 1] == '.'
    }
}

/// Whether `url` is on the site `domain`.
pub fn is_on_site(url: &str, domain: &str) -> (b: bool)
    ensures
        b == on_site(url@, domain@),
{
    let h = url_host(url);
    is_host_in_domain(h.as_slice(), domain)
}

} // verus!
