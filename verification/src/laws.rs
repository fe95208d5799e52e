//! Properties of the library that span its functions.
use vstd::prelude::*;

use crate::classifier::{
    brainrot_score, content_keyword_text, keyword_classification, lowered_keyword_text, or_empty,
    ClassificationView,
    ContentClassifier, ContentData,
};
use crate::config::{default_rules, FilterAction, RuleView};
use crate::db::stats_update_for;
use crate::filter::{
    fallback_action, first_applicable, rule_applies, rules_decision, stats_action_for,
};
use crate::pages::{
    blocked_page, warning_banner, BLOCKED_PAGE_AFTER_CATEGORY, BLOCKED_PAGE_AFTER_CONFIDENCE,
    BLOCKED_PAGE_AFTER_REASON, BLOCKED_PAGE_AFTER_URL, BLOCKED_PAGE_HEAD, BLOCKED_PAGE_TAIL, BYPASS_QUERY,
    CATEGORY_LABEL, CLASSIFIED_AS, CONFIDENCE_LABEL, REASON_LABEL, URL_LABEL, WARNING_BANNER_AFTER_CATEGORY,
    WARNING_BANNER_AFTER_CONFIDENCE, WARNING_BANNER_HEAD, WARNING_BANNER_TAIL,
};
use crate::proxy::{route_of, with_banner};
use crate::text::{
    ascii_lowercase, contains, decimal, find_from, lemma_ascii_lowercase_concat, lemma_find_from, occurs_at,
};

verus! {

/// Under the rules that a new configuration starts with (and its
/// notification threshold of 0.80), keyword-classified pages fare as the
/// categories promise: clickbait is blocked and reported, mindless
/// scrolling is blocked, and educational, informative, entertaining and
/// neutral pages are allowed; only clickbait is reported.
pub proof fn default_policy(url: Seq<char>, lowered: Seq<char>)
    ensures
        ({
            let c = keyword_classification(url, lowered);
            let d = rules_decision(default_rules(), 80, c);
            &&& c.category == "clickbait"@ ==> d.action == FilterAction::Block && d.should_notify
            &&& c.category == "mindless_scrolling"@ ==> d.action == FilterAction::Block && !d.should_notify
            &&& (c.category == "educational"@ || c.category == "informative"@ || c.category
                == "entertainment"@ || c.category == "neutral"@) ==> d.action == FilterAction::Allow
                && !d.should_notify
        }),
{
    reveal_strlit("clickbait");
    reveal_strlit("mindless_scrolling");
    reveal_strlit("learning");
    reveal_strlit("tutorial");
    reveal_strlit("informative");
    reveal_strlit("educational");
    reveal_strlit("entertainment");
    reveal_strlit("neutral");
    let c = keyword_classification(url, lowered);
    let rules = default_rules();
    reveal_with_fuel(first_applicable, 3);
    assert(rules[0].1.categories =~= seq!["clickbait"@, "mindless_scrolling"@]);
    assert(rules[1].1.categories =~= seq!["learning"@, "tutorial"@, "informative"@]);
    assert(rules[0].1.categories.contains("clickbait"@)) by {
        assert(rules[0].1.categories[0] == "clickbait"@);
    };
    assert(rules[0].1.categories.contains("mindless_scrolling"@)) by {
        assert(rules[0].1.categories[1] == "mindless_scrolling"@);
    };
    assert(rules[1].1.categories.contains("informative"@)) by {
        assert(rules[1].1.categories[2] == "informative"@);
    };
}


/// The user is told only of pages that are blocked or throttled, and a
/// decision carries the classification that it was made on.
pub proof fn notify_only_when_restricted(rules: Seq<(Seq<char>, RuleView)>, threshold: u32, c: ClassificationView)
    ensures
        ({
            let d = rules_decision(rules, threshold, c);
            &&& d.should_notify ==> (d.action is Block || d.action is Throttle)
            &&& d.should_notify ==> c.confidence >= threshold
            &&& d.classification == c
        }),
{
}

/// Without a rule that applies, the brainrot score alone never throttles:
/// every category scores either above 0.70 or at most 0.50.
pub proof fn fallback_never_throttles(c: ClassificationView)
    ensures
        fallback_action(c) is Block || fallback_action(c) is Allow,
        fallback_action(c) is Block <==> brainrot_score(c.category) > 70,
{
}

/// Every decision is counted once in the day's total and once under the
/// counter for its action.
pub proof fn every_decision_counted(a: FilterAction)
    ensures
        stats_update_for(stats_action_for(a)) matches Some(u) && {
            &&& u.blocked + u.allowed + u.throttled == 1
            &&& (u.blocked == 1 <==> a is Block)
            &&& (u.throttled == 1 <==> a is Throttle)
        },
{
    reveal_strlit("blocked");
    reveal_strlit("allowed");
    reveal_strlit("throttled");
    assert("blocked"@ != "allowed"@ && "blocked"@ != "throttled"@ && "allowed"@ != "throttled"@) by {
        assert("blocked"@[0] != "allowed"@[0]);
        assert("blocked"@[0] != "throttled"@[0]);
        assert("allowed"@[0] != "throttled"@[0]);
    }
}

/// The warning banner only adds to a page: the page is the text before the
/// banner followed by the text after it.
pub proof fn banner_only_inserts(h: Seq<char>, banner: Seq<char>)
    ensures
        exists|k: int|
            0 <= k <= h.len() && #[trigger] with_banner(h, banner) == h.take(k) + banner + h.skip(k),
{
    lemma_find_from(h, "<body"@, 0);
    let k = match find_from(h, "<body"@, 0) {
        Some(b) => {
            lemma_find_from(h, ">"@, b);
            match find_from(h, ">"@, b) {
                Some(e) => {
                    reveal_strlit(">");
                    e + 1
                },
                None => 0,
            }
        },
        None => 0,
    };
    if k == 0 {
        assert(h.take(0) + banner + h.skip(0) =~= banner + h);
    }
    assert(0 <= k <= h.len() && with_banner(h, banner) == h.take(k) + banner + h.skip(k));
}

/// A request that asks to bypass the filter is never filtered.
pub proof fn bypass_is_never_filtered(
    path: Seq<char>,
    query_url: Option<Seq<char>>,
    host: Option<Seq<char>>,
    path_and_query: Seq<char>,
)
    ensures
        !(route_of(path, query_url, host, path_and_query, true) is Filter),
{
}

/// The blocked page's "Proceed Anyway" button opens the page's URL with the
/// bypass parameter.
pub proof fn blocked_page_offers_bypass(reason: Seq<char>, category: Seq<char>, confidence: u32, url: Seq<char>)
    ensures
        contains(blocked_page(reason, category, confidence, url), url + "?norot_bypass=1"@),
{
    let page = blocked_page(reason, category, confidence, url);
    let link = url + BYPASS_QUERY@;
    assert(BYPASS_QUERY@ == "?norot_bypass=1"@);
    let tail = crate::pages::BLOCKED_PAGE_TAIL@;
    let k = page.len() - tail.len() - link.len();
    assert(page.subrange(k, k + link.len()) =~= link);
    assert(occurs_at(page, link, k));
}


proof fn lemma_shown_in(a: Seq<char>, x: Seq<char>, b: Seq<char>)
    ensures
        contains(a + x + b, x),
{
    assert((a + x + b).subrange(a.len() as int, a.len() + x.len() as int) =~= x);
    assert(occurs_at(a + x + b, x, a.len() as int));
}

/// The blocked page shows why the page was blocked: the reason, the
/// category and the confidence, each after its label.
pub proof fn blocked_page_shows_decision(reason: Seq<char>, category: Seq<char>, confidence: u32, url: Seq<char>)
    ensures
        contains(blocked_page(reason, category, confidence, url), "<strong>Reason:</strong> "@ + reason),
        contains(blocked_page(reason, category, confidence, url), "<strong>Category:</strong> "@ + category),
        contains(
            blocked_page(reason, category, confidence, url),
            "<strong>Confidence:</strong> "@ + decimal(confidence as nat) + ".0"@,
        ),
{
    let page = blocked_page(reason, category, confidence, url);
    let r = REASON_LABEL@ + reason;
    let g = CATEGORY_LABEL@ + category;
    let f = CONFIDENCE_LABEL@ + decimal(confidence as nat) + ".0"@;
    let tail = BLOCKED_PAGE_AFTER_CONFIDENCE@ + URL_LABEL@ + url + BLOCKED_PAGE_AFTER_URL@ + url + BYPASS_QUERY@
        + BLOCKED_PAGE_TAIL@;
    assert(page =~= BLOCKED_PAGE_HEAD@ + r + (BLOCKED_PAGE_AFTER_REASON@ + g + BLOCKED_PAGE_AFTER_CATEGORY@ + f
        + tail));
    lemma_shown_in(BLOCKED_PAGE_HEAD@, r, BLOCKED_PAGE_AFTER_REASON@ + g + BLOCKED_PAGE_AFTER_CATEGORY@ + f + tail);
    assert(page =~= BLOCKED_PAGE_HEAD@ + r + BLOCKED_PAGE_AFTER_REASON@ + g + (BLOCKED_PAGE_AFTER_CATEGORY@ + f
        + tail));
    lemma_shown_in(BLOCKED_PAGE_HEAD@ + r + BLOCKED_PAGE_AFTER_REASON@, g, BLOCKED_PAGE_AFTER_CATEGORY@ + f + tail);
    assert(page =~= BLOCKED_PAGE_HEAD@ + r + BLOCKED_PAGE_AFTER_REASON@ + g + BLOCKED_PAGE_AFTER_CATEGORY@ + f
        + tail);
    lemma_shown_in(BLOCKED_PAGE_HEAD@ + r + BLOCKED_PAGE_AFTER_REASON@ + g + BLOCKED_PAGE_AFTER_CATEGORY@, f, tail);
}

/// The warning banner says what the page was classified as, with the
/// confidence as a whole percentage, followed by the reason.
pub proof fn warning_banner_shows_decision(category: Seq<char>, confidence: u32, reason: Seq<char>)
    ensures
        contains(
            warning_banner(category, confidence, reason),
            "This content was classified as \""@ + category + "\" ("@ + decimal(confidence as nat)
                + "% confidence). "@ + reason,
        ),
{
    let x = CLASSIFIED_AS@ + category + WARNING_BANNER_AFTER_CATEGORY@ + decimal(confidence as nat)
        + WARNING_BANNER_AFTER_CONFIDENCE@ + reason;
    assert(warning_banner(category, confidence, reason) =~= WARNING_BANNER_HEAD@ + x + WARNING_BANNER_TAIL@);
    lemma_shown_in(WARNING_BANNER_HEAD@, x, WARNING_BANNER_TAIL@);
}

/// Two optional texts are both absent, or both present and equal once
/// their ASCII letters are lowered.
pub open spec fn same_up_to_ascii_case(a: Option<Seq<char>>, b: Option<Seq<char>>) -> bool {
    match (a, b) {
        (None, None) => true,
        (Some(x), Some(y)) => ascii_lowercase(x) == ascii_lowercase(y),
        _ => false,
    }
}

/// Keyword matching ignores ASCII letter case: two pages with the same URL
/// and text whose titles and descriptions differ only in the case of ASCII
/// letters are classified alike, by the keyword classifier and by any
/// classifier.
pub proof fn classification_ignores_ascii_case(f: &ContentClassifier, c1: &ContentData, c2: &ContentData)
    requires
        c1.url@ == c2.url@,
        c1.text_content.deep_view() == c2.text_content.deep_view(),
        same_up_to_ascii_case(c1.title.deep_view(), c2.title.deep_view()),
        same_up_to_ascii_case(c1.description.deep_view(), c2.description.deep_view()),
    ensures
        keyword_classification(c1.url@, lowered_keyword_text(c1)) == keyword_classification(
            c2.url@,
            lowered_keyword_text(c2),
        ),
        f.classification_of(c1) == f.classification_of(c2),
{
    let sp = " "@;
    let u = c1.url@;
    let t1 = or_empty(c1.title.deep_view());
    let t2 = or_empty(c2.title.deep_view());
    let d1 = or_empty(c1.description.deep_view());
    let d2 = or_empty(c2.description.deep_view());
    let x = or_empty(c1.text_content.deep_view());
    lemma_ascii_lowercase_concat(u + sp + t1 + sp + d1 + sp, x);
    lemma_ascii_lowercase_concat(u + sp + t1 + sp + d1, sp);
    lemma_ascii_lowercase_concat(u + sp + t1 + sp, d1);
    lemma_ascii_lowercase_concat(u + sp + t1, sp);
    lemma_ascii_lowercase_concat(u + sp, t1);
    lemma_ascii_lowercase_concat(u + sp + t2 + sp + d2 + sp, x);
    lemma_ascii_lowercase_concat(u + sp + t2 + sp + d2, sp);
    lemma_ascii_lowercase_concat(u + sp + t2 + sp, d2);
    lemma_ascii_lowercase_concat(u + sp + t2, sp);
    lemma_ascii_lowercase_concat(u + sp, t2);
    assert(ascii_lowercase(content_keyword_text(c1)) == ascii_lowercase(content_keyword_text(c2)));
}

/// The enabled rules, in order.
pub open spec fn enabled_rules(rules: Seq<(Seq<char>, RuleView)>) -> Seq<(Seq<char>, RuleView)>
    decreases rules.len(),
{
    if rules.len() == 0 {
        rules
    } else if rules[0].1.enabled {
        seq![rules[0]] + enabled_rules(rules.drop_first())
    } else {
        enabled_rules(rules.drop_first())
    }
}

/// The first rule that applies to `c`, with its name.
pub open spec fn first_rule(rules: Seq<(Seq<char>, RuleView)>, c: ClassificationView) -> Option<(Seq<char>, RuleView)>
    decreases rules.len(),
{
    if rules.len() == 0 {
        None
    } else if rule_applies(rules[0].1, c) {
        Some(rules[0])
    } else {
        first_rule(rules.drop_first(), c)
    }
}

proof fn lemma_first_rule_index(rules: Seq<(Seq<char>, RuleView)>, c: ClassificationView, k: int)
    requires
        0 <= k <= rules.len(),
    ensures
        first_rule(rules.skip(k), c) == (match first_applicable(rules, c, k) {
            Some(i) => Some(rules[i]),
            None => None,
        }),
    decreases rules.len() - k,
{
    if k < rules.len() {
        assert(rules.skip(k)[0] == rules[k]);
        assert(rules.skip(k).drop_first() =~= rules.skip(k + 1));
        lemma_first_rule_index(rules, c, k + 1);
    }
}

proof fn lemma_first_rule_enabled(rules: Seq<(Seq<char>, RuleView)>, c: ClassificationView)
    ensures
        first_rule(rules, c) == first_rule(enabled_rules(rules), c),
    decreases rules.len(),
{
    if rules.len() > 0 {
        lemma_first_rule_enabled(rules.drop_first(), c);
        if rules[0].1.enabled {
            let e = seq![rules[0]] + enabled_rules(rules.drop_first());
            assert(e[0] == rules[0]);
            assert(e.drop_first() =~= enabled_rules(rules.drop_first()));
        }
    }
}

/// Disabled rules never change a decision: rule lists with the same enabled
/// rules, in the same order, decide alike.
pub proof fn disabled_rules_never_decide(
    rules1: Seq<(Seq<char>, RuleView)>,
    rules2: Seq<(Seq<char>, RuleView)>,
    threshold: u32,
    c: ClassificationView,
)
    requires
        enabled_rules(rules1) == enabled_rules(rules2),
    ensures
        rules_decision(rules1, threshold, c) == rules_decision(rules2, threshold, c),
{
    lemma_first_rule_index(rules1, c, 0);
    lemma_first_rule_index(rules2, c, 0);
    assert(rules1.skip(0) =~= rules1);
    assert(rules2.skip(0) =~= rules2);
    lemma_first_rule_enabled(rules1, c);
    lemma_first_rule_enabled(rules2, c);
}

} // verus!
