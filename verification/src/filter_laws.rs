//! How the filter's rules decide, stated from the rules themselves.
use vstd::prelude::*;

use crate::classifier::{ClassificationView, ContentClassifier, ContentData};
use crate::config::{FilterAction, RuleView};
use crate::filter::{action_label, lemma_first_applicable, rules_decision, ContentFilter};
use crate::text::{decimal, decimal_reads_back, digit, digits_value, two_decimals};

verus! {

/// The first rule in effect decides. A rule is in effect when it is
/// enabled, lists the page's category, and the classification's confidence
/// is above zero and at least the rule's threshold. Its action is taken;
/// the reason names the rule, the category and the confidence; and the user
/// is told when the page is blocked or throttled with a confidence of at
/// least the notification threshold.
pub proof fn first_rule_in_effect_decides(
    rules: Seq<(Seq<char>, RuleView)>,
    threshold: u32,
    c: ClassificationView,
    i: int,
)
    requires
        0 <= i < rules.len(),
        rules[i].1.enabled,
        rules[i].1.categories.contains(c.category),
        0 < c.confidence,
        rules[i].1.score_threshold <= c.confidence,
        forall|j: int|
            0 <= j < i ==> !(rules[j].1.enabled && rules[j].1.categories.contains(c.category)
                && rules[j].1.score_threshold <= c.confidence),
    ensures
        ({
            let d = rules_decision(rules, threshold, c);
            &&& d.action == rules[i].1.action
            &&& d.reason == "Matched rule '"@ + rules[i].0 + "' for category '"@ + c.category
                + "' with confidence "@ + two_decimals(c.confidence as nat)
            &&& d.classification == c
            &&& d.should_notify <==> ((d.action is Block || d.action is Throttle) && threshold <= c.confidence)
        }),
{
    lemma_first_applicable(rules, c, 0);
}

proof fn lemma_two_decimals_below_one(p: nat)
    requires
        p < 100,
    ensures
        two_decimals(p) == seq!['0', '.', digit(p / 10), digit(p % 10)],
{
    assert(decimal(0) == seq!['0']);
    assert(two_decimals(p) =~= seq!['0', '.', digit(p / 10), digit(p % 10)]);
}

/// Without a rule in effect, the category's brainrot score decides:
/// clickbait (0.90) and mindless scrolling (0.80) are blocked; entertainment
/// (0.40), informative (0.20) and educational (0.10) pages, and pages of any
/// other category (0.50), are allowed. The user is told of a blocked page
/// whose classification is at least as confident as the notification
/// threshold.
pub proof fn brainrot_score_decides_without_rule(
    rules: Seq<(Seq<char>, RuleView)>,
    threshold: u32,
    c: ClassificationView,
)
    requires
        forall|j: int|
            0 <= j < rules.len() ==> !(rules[j].1.enabled && rules[j].1.categories.contains(c.category) && 0
                < c.confidence && rules[j].1.score_threshold <= c.confidence),
    ensures
        ({
            let d = rules_decision(rules, threshold, c);
            let cat = c.category;
            &&& cat == "clickbait"@ ==> d.action == FilterAction::Block && d.reason
                == "High brainrot score: 0.90"@
            &&& cat == "mindless_scrolling"@ ==> d.action == FilterAction::Block && d.reason
                == "High brainrot score: 0.80"@
            &&& cat == "entertainment"@ ==> d.action == FilterAction::Allow && d.reason
                == "Low brainrot score: 0.40"@
            &&& cat == "informative"@ ==> d.action == FilterAction::Allow && d.reason
                == "Low brainrot score: 0.20"@
            &&& cat == "educational"@ ==> d.action == FilterAction::Allow && d.reason
                == "Low brainrot score: 0.10"@
            &&& (cat != "clickbait"@ && cat != "mindless_scrolling"@ && cat != "entertainment"@ && cat
                != "informative"@ && cat != "educational"@) ==> d.action == FilterAction::Allow && d.reason
                == "Low brainrot score: 0.50"@
            &&& d.classification == c
            &&& d.should_notify <==> (d.action is Block && threshold <= c.confidence)
        }),
{
    lemma_first_applicable(rules, c, 0);
    crate::classifier_laws::brainrot_scores_by_category(c.category);
    reveal_strlit("High brainrot score: 0.90");
    reveal_strlit("High brainrot score: 0.80");
    reveal_strlit("Low brainrot score: 0.40");
    reveal_strlit("Low brainrot score: 0.20");
    reveal_strlit("Low brainrot score: 0.10");
    reveal_strlit("Low brainrot score: 0.50");
    reveal_strlit("High brainrot score: ");
    reveal_strlit("Low brainrot score: ");
    lemma_two_decimals_below_one(90);
    lemma_two_decimals_below_one(80);
    lemma_two_decimals_below_one(50);
    lemma_two_decimals_below_one(40);
    lemma_two_decimals_below_one(20);
    lemma_two_decimals_below_one(10);
    assert("High brainrot score: "@ + seq!['0', '.', '9', '0'] =~= "High brainrot score: 0.90"@);
    assert("High brainrot score: "@ + seq!['0', '.', '8', '0'] =~= "High brainrot score: 0.80"@);
    assert("Low brainrot score: "@ + seq!['0', '.', '5', '0'] =~= "Low brainrot score: 0.50"@);
    assert("Low brainrot score: "@ + seq!['0', '.', '4', '0'] =~= "Low brainrot score: 0.40"@);
    assert("Low brainrot score: "@ + seq!['0', '.', '2', '0'] =~= "Low brainrot score: 0.20"@);
    assert("Low brainrot score: "@ + seq!['0', '.', '1', '0'] =~= "Low brainrot score: 0.10"@);
}

/// A switched-off classifier calls every page unclassified, with no
/// confidence; so no rule takes effect on its answer, the page is allowed
/// on a low brainrot score, and nobody is told.
pub proof fn switched_off_classifier_allows(
    f: &ContentClassifier,
    content: &ContentData,
    rules: Seq<(Seq<char>, RuleView)>,
    threshold: u32,
)
    requires
        !f.enabled(),
    ensures
        f.classification_of(content).category == "unclassified"@,
        f.classification_of(content).confidence == 0,
        rules_decision(rules, threshold, f.classification_of(content)).action == FilterAction::Allow,
        rules_decision(rules, threshold, f.classification_of(content)).reason == "Low brainrot score: 0.50"@,
        !rules_decision(rules, threshold, f.classification_of(content)).should_notify,
{
    let c = f.classification_of(content);
    reveal_strlit("unclassified");
    reveal_strlit("clickbait");
    reveal_strlit("mindless_scrolling");
    reveal_strlit("entertainment");
    reveal_strlit("informative");
    reveal_strlit("educational");
    assert(c.category[0] != "clickbait"@[0]);
    assert(c.category[0] != "mindless_scrolling"@[0]);
    assert(c.category[0] != "entertainment"@[0]);
    assert(c.category[0] != "informative"@[0]);
    assert(c.category[0] != "educational"@[0]);
    brainrot_score_decides_without_rule(rules, threshold, c);
}

/// While filtering is switched off, every page is allowed and nobody is
/// told.
pub proof fn switched_off_filter_allows(f: &ContentFilter, content: &ContentData)
    requires
        !f.enabled(),
    ensures
        f.decision_for(content).action == FilterAction::Allow,
        !f.decision_for(content).should_notify,
{
}

/// Records tell actions apart: two actions recorded under the same label
/// are the same action, throttles of different lengths included.
pub proof fn records_tell_actions_apart(a: FilterAction, b: FilterAction)
    requires
        action_label(a) == action_label(b),
    ensures
        a == b,
{
    reveal_strlit("blocked");
    reveal_strlit("throttled_");
    reveal_strlit("warning");
    reveal_strlit("allowed");
    match (a, b) {
        (FilterAction::Throttle(x), FilterAction::Throttle(y)) => {
            assert(action_label(a).skip(10) =~= decimal(x as nat));
            assert(action_label(b).skip(10) =~= decimal(y as nat));
            decimal_reads_back(x as nat);
            decimal_reads_back(y as nat);
            assert(decimal(x as nat) == decimal(y as nat));
            assert(x as nat == digits_value(decimal(x as nat)));
            assert(x == y);
        },
        (FilterAction::Throttle(x), _) => {
            assert(action_label(a)[0] == 't');
            assert(action_label(b)[0] != 't');
        },
        (_, FilterAction::Throttle(y)) => {
            assert(action_label(b)[0] == 't');
            assert(action_label(a)[0] != 't');
        },
        _ => {
            assert(action_label(FilterAction::Block)[0] == 'b');
            assert(action_label(FilterAction::Warning)[0] == 'w');
            assert(action_label(FilterAction::Allow)[0] == 'a');
            assert(action_label(a)[0] == action_label(b)[0]);
        },
    }
}

} // verus!
