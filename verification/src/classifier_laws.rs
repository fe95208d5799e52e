//! What keyword classification and HTML extraction answer, stated from the
//! keywords and the page text themselves.
use vstd::prelude::*;

use crate::classifier::{
    brainrot_score, content_keyword_text, keyword_classification, meta_content, or_empty, page_description,
    text_between,
    ClassificationView, ContentData,
};
use crate::site::on_site;
use crate::text::{ascii_lowercase, contains, find_from, lemma_find_from, occurs_at, trim};

verus! {

/// The educational keywords occur in `t`.
pub open spec fn educational_phrase_in(t: Seq<char>) -> bool {
    contains(t, "tutorial"@) || contains(t, "learn"@) || contains(t, "education"@) || contains(t, "guide"@)
        || contains(t, "how-to"@) || contains(t, "how to"@) || contains(t, "course"@)
}

/// One of the informative keywords occurs in `t`.
pub open spec fn informative_phrase_in(t: Seq<char>) -> bool {
    contains(t, "news"@) || contains(t, "analysis"@) || contains(t, "research"@) || contains(t, "science"@)
        || contains(t, "technology"@)
}

/// One of the eight clickbait phrases occurs in `t`.
pub open spec fn clickbait_phrase_in(t: Seq<char>) -> bool {
    contains(t, "you won't believe"@) || contains(t, "shocking"@) || contains(t, "viral"@) || contains(
        t,
        "click here"@,
    ) || contains(t, "amazing trick"@) || contains(t, "hate him"@) || contains(t, "doctors don't want"@)
        || contains(t, "this one weird"@)
}

/// One of the entertainment keywords occurs in `t`.
pub open spec fn entertainment_phrase_in(t: Seq<char>) -> bool {
    contains(t, "meme"@) || contains(t, "funny"@) || contains(t, "cute"@) || contains(t, "cat"@) || contains(
        t,
        "dog"@,
    ) || contains(t, "entertainment"@)
}

/// The URL's host is one of the feed-driven networks or a subdomain of one.
pub open spec fn feed_site(url: Seq<char>) -> bool {
    on_site(url, "instagram.com"@) || on_site(url, "tiktok.com"@) || on_site(url, "twitter.com"@)
        || on_site(url, "x.com"@) || on_site(url, "facebook.com"@)
}

/// One of the feed words occurs in `t`.
pub open spec fn feed_word_in(t: Seq<char>) -> bool {
    contains(t, "story"@) || contains(t, "stories"@) || contains(t, "reel"@) || contains(t, "post"@)
}

proof fn categories_distinct()
    ensures
        "educational"@ != "informative"@,
        "educational"@ != "clickbait"@,
        "educational"@ != "entertainment"@,
        "educational"@ != "mindless_scrolling"@,
        "educational"@ != "neutral"@,
        "informative"@ != "clickbait"@,
        "informative"@ != "entertainment"@,
        "informative"@ != "mindless_scrolling"@,
        "informative"@ != "neutral"@,
        "clickbait"@ != "entertainment"@,
        "clickbait"@ != "mindless_scrolling"@,
        "clickbait"@ != "neutral"@,
        "entertainment"@ != "mindless_scrolling"@,
        "entertainment"@ != "neutral"@,
        "mindless_scrolling"@ != "neutral"@,
{
    reveal_strlit("educational");
    reveal_strlit("informative");
    reveal_strlit("clickbait");
    reveal_strlit("entertainment");
    reveal_strlit("mindless_scrolling");
    reveal_strlit("neutral");
    assert("educational"@.len() != "informative"@.len() || "educational"@[0] != "informative"@[0]);
    assert("educational"@[0] != "clickbait"@[0]);
    assert("educational"@[0] != "mindless_scrolling"@[0]);
    assert("educational"@[0] != "neutral"@[0]);
    assert("educational"@[1] != "entertainment"@[1]);
    assert("informative"@[0] != "clickbait"@[0]);
    assert("informative"@[0] != "entertainment"@[0]);
    assert("informative"@[0] != "mindless_scrolling"@[0]);
    assert("informative"@[0] != "neutral"@[0]);
    assert("clickbait"@[0] != "entertainment"@[0]);
    assert("clickbait"@[0] != "mindless_scrolling"@[0]);
    assert("clickbait"@[0] != "neutral"@[0]);
    assert("entertainment"@[0] != "mindless_scrolling"@[0]);
    assert("entertainment"@[0] != "neutral"@[0]);
    assert("mindless_scrolling"@[0] != "neutral"@[0]);
}

/// How a page is classified from the keywords in its lowercased text `t`:
/// the educational keywords win, then the informative ones, then the eight
/// clickbait phrases, then the entertainment keywords, then feed words on a
/// feed site; a page with none of them is neutral. Each category comes with
/// its confidence and reasoning, and a category is given only when its
/// keywords are there and no earlier group's are.
pub proof fn keyword_groups_decide(url: Seq<char>, t: Seq<char>)
    ensures
        ({
            let c = keyword_classification(url, t);
            let edu = educational_phrase_in(t);
            let inf = informative_phrase_in(t);
            let click = clickbait_phrase_in(t);
            let ent = entertainment_phrase_in(t);
            let feed = feed_site(url) && feed_word_in(t);
            &&& edu ==> c == ClassificationView {
                category: "educational"@,
                confidence: 85,
                reasoning: Some("Contains educational keywords"@),
            }
            &&& !edu && inf ==> c == ClassificationView {
                category: "informative"@,
                confidence: 80,
                reasoning: Some("Contains informative keywords"@),
            }
            &&& !edu && !inf && click ==> c == ClassificationView {
                category: "clickbait"@,
                confidence: 90,
                reasoning: Some("Contains clickbait keywords"@),
            }
            &&& !edu && !inf && !click && ent ==> c == ClassificationView {
                category: "entertainment"@,
                confidence: 75,
                reasoning: Some("Contains entertainment keywords"@),
            }
            &&& !edu && !inf && !click && !ent && feed ==> c == ClassificationView {
                category: "mindless_scrolling"@,
                confidence: 70,
                reasoning: Some("Social media content likely to encourage mindless scrolling"@),
            }
            &&& !edu && !inf && !click && !ent && !feed ==> c == ClassificationView {
                category: "neutral"@,
                confidence: 50,
                reasoning: Some("No clear classification patterns found"@),
            }
            &&& c.category == "educational"@ ==> edu
            &&& c.category == "informative"@ ==> !edu && inf
            &&& c.category == "clickbait"@ ==> !edu && !inf && click
            &&& c.category == "entertainment"@ ==> !edu && !inf && !click && ent
            &&& c.category == "mindless_scrolling"@ ==> !edu && !inf && !click && !ent && feed
            &&& c.category == "neutral"@ ==> !edu && !inf && !click && !ent && !feed
        }),
{
    categories_distinct();
}

proof fn lemma_part_is_searched(a: Seq<char>, x: Seq<char>, b: Seq<char>, p: Seq<char>)
    requires
        contains(ascii_lowercase(x), p),
    ensures
        contains(ascii_lowercase(a + x + b), p),
{
    let w = a + x + b;
    let lx = ascii_lowercase(x);
    let lw = ascii_lowercase(w);
    let i = choose|i: int| occurs_at(lx, p, i);
    assert(lw.subrange(a.len() + i, a.len() + i + p.len()) =~= lx.subrange(i, i + p.len())) by {
        assert forall|k: int| 0 <= k < p.len() implies #[trigger] lw[a.len() + i + k] == lx[i + k] by {
            assert(w[a.len() + i + k] == x[i + k]);
        }
    }
    assert(occurs_at(lw, p, a.len() + i));
}

/// Every part of a page is searched for keywords, whatever the case of its
/// ASCII letters: a phrase that occurs in the lowered URL, title,
/// description or text of a page occurs in its lowered keyword text.
pub proof fn every_part_is_searched(c: &ContentData, p: Seq<char>)
    ensures
        contains(ascii_lowercase(c.url@), p) ==> contains(ascii_lowercase(content_keyword_text(c)), p),
        c.title.deep_view() matches Some(t) && contains(ascii_lowercase(t), p) ==> contains(
            ascii_lowercase(content_keyword_text(c)),
            p,
        ),
        c.description.deep_view() matches Some(d) && contains(ascii_lowercase(d), p) ==> contains(
            ascii_lowercase(content_keyword_text(c)),
            p,
        ),
        c.text_content.deep_view() matches Some(x) && contains(ascii_lowercase(x), p) ==> contains(
            ascii_lowercase(content_keyword_text(c)),
            p,
        ),
{
    lemma_keyword_parts_are_searched(
        c.url@,
        or_empty(c.title.deep_view()),
        or_empty(c.description.deep_view()),
        or_empty(c.text_content.deep_view()),
        p,
    );
}

proof fn lemma_keyword_parts_are_searched(u: Seq<char>, t: Seq<char>, d: Seq<char>, x: Seq<char>, p: Seq<char>)
    ensures
        ({
            let w = ascii_lowercase(u + " "@ + t + " "@ + d + " "@ + x);
            &&& contains(ascii_lowercase(u), p) ==> contains(w, p)
            &&& contains(ascii_lowercase(t), p) ==> contains(w, p)
            &&& contains(ascii_lowercase(d), p) ==> contains(w, p)
            &&& contains(ascii_lowercase(x), p) ==> contains(w, p)
        }),
{
    let sp = " "@;
    let w = u + sp + t + sp + d + sp + x;
    if contains(ascii_lowercase(u), p) {
        assert(Seq::empty() + u + (sp + t + sp + d + sp + x) =~= w);
        lemma_part_is_searched(Seq::empty(), u, sp + t + sp + d + sp + x, p);
    }
    if contains(ascii_lowercase(t), p) {
        assert(u + sp + t + (sp + d + sp + x) =~= w);
        lemma_part_is_searched(u + sp, t, sp + d + sp + x, p);
    }
    if contains(ascii_lowercase(d), p) {
        assert(u + sp + t + sp + d + (sp + x) =~= w);
        lemma_part_is_searched(u + sp + t + sp, d, sp + x, p);
    }
    if contains(ascii_lowercase(x), p) {
        assert(u + sp + t + sp + d + sp + x + Seq::empty() =~= w);
        lemma_part_is_searched(u + sp + t + sp + d + sp, x, Seq::empty(), p);
    }
}

/// Brainrot scores by category, in hundredths: clickbait scores highest,
/// then mindless scrolling, neutral, entertainment, informative and
/// educational pages; any other category scores as neutral.
pub proof fn brainrot_scores_by_category(category: Seq<char>)
    ensures
        category == "clickbait"@ ==> brainrot_score(category) == 90,
        category == "mindless_scrolling"@ ==> brainrot_score(category) == 80,
        category == "neutral"@ ==> brainrot_score(category) == 50,
        category == "entertainment"@ ==> brainrot_score(category) == 40,
        category == "informative"@ ==> brainrot_score(category) == 20,
        category == "educational"@ ==> brainrot_score(category) == 10,
        category != "clickbait"@ && category != "mindless_scrolling"@ && category != "entertainment"@
            && category != "informative"@ && category != "educational"@ ==> brainrot_score(category) == 50,
{
    categories_distinct();
}

/// The description read from a meta tag: it is the text of the first
/// `content="` attribute at or after the first `name="<name>"`, up to the
/// next double quote; it never comes from before that name. There is none
/// only when no `content="` attribute, closed by a quote, follows the name.
pub proof fn meta_content_follows_its_name(h: Seq<char>, name: Seq<char>)
    ensures
        meta_content(h, name) is None <==> !exists|s: int, c: int, e: int|
            {
                &&& occurs_at(h, "name=\""@ + name + "\""@, s)
                &&& s <= c
                &&& occurs_at(h, "content=\""@, c)
                &&& c + 9 <= e < h.len()
                &&& h[e] == '"'
            },
        ({
            let pattern = "name=\""@ + name + "\""@;
            let attr = "content=\""@;
            match meta_content(h, name) {
                Some(v) => exists|s: int, c: int|
                    {
                        &&& occurs_at(h, pattern, s)
                        &&& (forall|j: int| 0 <= j < s ==> !occurs_at(h, pattern, j))
                        &&& s <= c
                        &&& occurs_at(h, attr, c)
                        &&& (forall|j: int| s <= j < c ==> !occurs_at(h, attr, j))
                        &&& c + attr.len() + v.len() < h.len()
                        &&& v == h.subrange(c + attr.len(), c + attr.len() + v.len())
                        &&& h[c + attr.len() + v.len()] == '"'
                        &&& (forall|k: int| 0 <= k < v.len() ==> v[k] != '"')
                    },
                None => true,
            }
        }),
{
    reveal_strlit("content=\"");
    reveal_strlit("\"");
    let pattern = "name=\""@ + name + "\""@;
    let attr = "content=\""@;
    let quote = "\""@;
    lemma_find_from(h, pattern, 0);
    if let Some(s) = find_from(h, pattern, 0) {
        lemma_find_from(h, attr, s);
        if let Some(c) = find_from(h, attr, s) {
            lemma_find_from(h, quote, c + 9);
            if find_from(h, quote, c + 9) is None {
                assert forall|s1: int, c1: int, e1: int|
                    occurs_at(h, pattern, s1) && s1 <= c1 && occurs_at(h, attr, c1) && c1 + 9 <= e1 < h.len()
                        && h[e1] == '"' implies false by {
                    assert(s <= s1);
                    assert(c <= c1);
                    assert(h.subrange(e1, e1 + 1) =~= quote);
                    assert(occurs_at(h, quote, e1));
                }
            }
            if let Some(e) = find_from(h, quote, c + 9) {
                assert(h.subrange(e, e + 1) =~= quote);
                assert(h[e] == h.subrange(e, e + 1)[0]);
                assert(occurs_at(h, attr, c) && s <= c && c + 9 <= e < h.len() && h[e] == '"');
                let v = h.subrange(c + 9, e);
                assert(meta_content(h, name) == Some(v));
                assert(h.subrange(e, e + 1) == quote);
                assert(h[e] == h.subrange(e, e + 1)[0]);
                assert forall|k: int| 0 <= k < v.len() implies v[k] != '"' by {
                    if v[k] == '"' {
                        assert(h.subrange(c + 9 + k, c + 9 + k + 1) =~= quote);
                        assert(occurs_at(h, quote, c + 9 + k));
                    }
                }
                assert(h.subrange(c + attr.len(), c + attr.len() + v.len()) =~= v);
            }
        }
    }
}

/// A page's description is the content that follows its first
/// `name="description"` (as `meta_content_follows_its_name` states): the
/// search for a whole `<meta name="description" content="...">` tag, made
/// when that one finds nothing, never finds one that it missed.
pub proof fn page_description_is_meta_content(h: Seq<char>)
    ensures
        page_description(h) == meta_content(h, "description"@),
{
    meta_content_follows_its_name(h, "description"@);
    if meta_content(h, "description"@) is None {
        reveal_strlit("<meta name=\"description\" content=\"");
        reveal_strlit("name=\"");
        reveal_strlit("description");
        reveal_strlit("\"");
        reveal_strlit("content=\"");
        let tag = "<meta name=\"description\" content=\""@;
        let quote = "\""@;
        lemma_find_from(h, tag, 0);
        if let Some(i) = find_from(h, tag, 0) {
            lemma_find_from(h, quote, i + 34);
            if let Some(e) = find_from(h, quote, i + 34) {
                let pattern = "name=\""@ + "description"@ + "\""@;
                let attr = "content=\""@;
                assert(h.subrange(i, i + 34) == tag);
                assert(h.subrange(i + 6, i + 24) =~= h.subrange(i, i + 34).subrange(6, 24));
                assert(tag.subrange(6, 24) =~= pattern);
                assert(occurs_at(h, pattern, i + 6));
                assert(h.subrange(i + 25, i + 34) =~= h.subrange(i, i + 34).subrange(25, 34));
                assert(tag.subrange(25, 34) =~= attr);
                assert(occurs_at(h, attr, i + 25));
                assert(h[e] == h.subrange(e, e + 1)[0]);
                assert(h[e] == '"');
                assert(false);
            }
        }
    }
}

/// The text between two markers: for `start` first occurring at `i` and
/// `end` first occurring at `e` after it, it is the text between them with
/// surrounding whitespace trimmed; without both markers there is none.
pub proof fn text_between_first_markers(t: Seq<char>, start: Seq<char>, end: Seq<char>)
    ensures
        text_between(t, start, end) matches Some(v) ==> exists|i: int, e: int|
            {
                &&& occurs_at(t, start, i)
                &&& (forall|j: int| 0 <= j < i ==> !occurs_at(t, start, j))
                &&& i + start.len() <= e
                &&& occurs_at(t, end, e)
                &&& (forall|j: int| i + start.len() <= j < e ==> !occurs_at(t, end, j))
                &&& v == trim(t.subrange(i + start.len(), e))
            },
        text_between(t, start, end) is None ==> (forall|i: int| !occurs_at(t, start, i)) || exists|i: int|
            {
                &&& occurs_at(t, start, i)
                &&& (forall|j: int| 0 <= j < i ==> !occurs_at(t, start, j))
                &&& (forall|j: int| i + start.len() <= j ==> !occurs_at(t, end, j))
            },
{
    lemma_find_from(t, start, 0);
    if let Some(i) = find_from(t, start, 0) {
        lemma_find_from(t, end, i + start.len());
    } else {
        assert forall|i: int| !occurs_at(t, start, i) by {
            if i < 0 {
            }
        }
    }
}

} // verus!
