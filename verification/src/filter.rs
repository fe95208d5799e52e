//! Filter decisions: which rule applies to a classification, what the proxy
//! does with the page, and what is recorded of it.
use vstd::prelude::*;
use vstd::string::*;

use crate::classifier::{
    brainrot_score, classification, ClassificationResult, ClassificationView, ContentClassifier,
    ContentData,
};
use crate::config::{rule_names_distinct, rules_view, FilterAction, FilterConfig, FilterRule, RuleView};
use crate::db::{
    current_time, fresh_record_id, in_four_digit_years, is_uuid_v4_text, ContentRecord, Timestamp,
};
use crate::pages::{blocked_page, blocked_page_html};
use crate::text::{decimal, push_decimal, push_two_decimals, two_decimals};

verus! {

/// What the filter does with a page, why, on which classification, and
/// whether the user is to be told.
#[derive(Debug)]
pub struct FilterDecision {
    pub action: FilterAction,
    pub reason: String,
    pub classification: ClassificationResult,
    pub should_notify: bool,
}

/// A filter decision as values.
pub struct DecisionView {
    pub action: FilterAction,
    pub reason: Seq<char>,
    pub classification: ClassificationView,
    pub should_notify: bool,
}

impl View for FilterDecision {
    type V = DecisionView;

    open spec fn view(&self) -> DecisionView {
        DecisionView {
            action: self.action,
            reason: self.reason@,
            classification: self.classification@,
            should_notify: self.should_notify,
        }
    }
}

impl Clone for FilterDecision {
    fn clone(&self) -> (r: Self)
        ensures
            r@ == self@,
    {
        FilterDecision {
            action: self.action,
            reason: self.reason.clone(),
            classification: self.classification.clone(),
            should_notify: self.should_notify,
        }
    }
}

/// The rule covers the classification's category and the classification is
/// confident enough for it.
pub open spec fn rule_applies(rule: RuleView, c: ClassificationView) -> bool {
    &&& rule.enabled
    &&& rule.categories.contains(c.category)
    &&& c.confidence > 0
    &&& c.confidence >= rule.score_threshold
}

/// The index of the first rule at or after `k` that applies to `c`.
pub open spec fn first_applicable(rules: Seq<(Seq<char>, RuleView)>, c: ClassificationView, k: int) -> Option<int>
    decreases rules.len() - k,
{
    if k < 0 || k >= rules.len() {
        None
    } else if rule_applies(rules[k].1, c) {
        Some(k)
    } else {
        first_applicable(rules, c, k + 1)
    }
}

/// What `first_applicable` returns is the first rule at or after `k` that applies.
pub proof fn lemma_first_applicable(rules: Seq<(Seq<char>, RuleView)>, c: ClassificationView, k: int)
    requires
        0 <= k,
    ensures
        first_applicable(rules, c, k) matches Some(i) ==> k <= i < rules.len() && rule_applies(rules[i].1, c)
            && forall|j: int| k <= j < i ==> !rule_applies(#[trigger] rules[j].1, c),
        first_applicable(rules, c, k) is None ==> forall|j: int|
            k <= j < rules.len() ==> !rule_applies(#[trigger] rules[j].1, c),
    decreases rules.len() - k,
{
    if k < rules.len() && !rule_applies(rules[k].1, c) {
        lemma_first_applicable(rules, c, k + 1);
    }
}

/// The reason given when the rule named `name` decided.
pub open spec fn matched_reason(name: Seq<char>, c: ClassificationView) -> Seq<char> {
    "Matched rule '"@ + name + "' for category '"@ + c.category + "' with confidence "@
        + two_decimals(c.confidence as nat)
}

/// The action taken when no rule applies, from the category's brainrot score.
pub open spec fn fallback_action(c: ClassificationView) -> FilterAction {
    let score = brainrot_score(c.category);
    if score > 70 {
        FilterAction::Block
    } else if score > 50 {
        FilterAction::Throttle(3)
    } else {
        FilterAction::Allow
    }
}

/// The reason given when no rule applies.
pub open spec fn fallback_reason(c: ClassificationView) -> Seq<char> {
    let score = brainrot_score(c.category);
    if score > 70 {
        "High brainrot score: "@ + two_decimals(score as nat)
    } else if score > 50 {
        "Medium brainrot score: "@ + two_decimals(score as nat)
    } else {
        "Low brainrot score: "@ + two_decimals(score as nat)
    }
}

/// A blocked or throttled page is reported when the classification is at
/// least as confident as the notification threshold.
pub open spec fn notifies(action: FilterAction, confidence: u32, threshold: u32) -> bool {
    (action is Block || action is Throttle) && confidence >= threshold
}

/// The decision for classification `c` under the given rules and
/// notification threshold: the first rule that applies decides; without
/// one, the brainrot score does.
pub open spec fn rules_decision(rules: Seq<(Seq<char>, RuleView)>, threshold: u32, c: ClassificationView) -> DecisionView {
    let (action, reason) = match first_applicable(rules, c, 0) {
        Some(i) => (rules[i].1.action, matched_reason(rules[i].0, c)),
        None => (fallback_action(c), fallback_reason(c)),
    };
    DecisionView {
        action,
        reason,
        classification: c,
        should_notify: notifies(action, c.confidence, threshold),
    }
}

/// The decision while filtering is switched off.
pub open spec fn disabled_decision() -> DecisionView {
    DecisionView {
        action: FilterAction::Allow,
        reason: "Filtering disabled"@,
        classification: classification("unclassified"@, 0, "Filtering disabled"@),
        should_notify: false,
    }
}

/// How a decision is written in the records.
pub open spec fn action_label(action: FilterAction) -> Seq<char> {
    match action {
        FilterAction::Block => "blocked"@,
        FilterAction::Throttle(s) => "throttled_"@ + decimal(s as nat),
        FilterAction::Warning => "warning"@,
        FilterAction::Allow => "allowed"@,
    }
}

/// Under which counter a decision is counted.
pub open spec fn stats_action_for(action: FilterAction) -> Seq<char> {
    match action {
        FilterAction::Block => "blocked"@,
        FilterAction::Throttle(_) => "throttled"@,
        _ => "allowed"@,
    }
}

/// `r` records that `action` was taken on `content` with classification
/// `c`: the URL, the category as type and classification, the confidence
/// and the action.
pub open spec fn records_decision(r: &ContentRecord, content: &ContentData, c: ClassificationView, action: FilterAction) -> bool {
    &&& r.url@ == content.url@
    &&& r.content_type@ == c.category
    &&& r.classification.deep_view() == Some(c.category)
    &&& r.confidence == Some(c.confidence)
    &&& r.action_taken@ == action_label(action)
}

/// How the record of a decision names its action.
pub fn action_taken_label(action: &FilterAction) -> (s: String)
    ensures
        s@ == action_label(*action),
{
    match action {
        FilterAction::Block => "blocked".to_owned(),
        FilterAction::Throttle(seconds) => {
            let mut s = "throttled_".to_owned();
            push_decimal(&mut s, *seconds);
            s
        },
        FilterAction::Warning => "warning".to_owned(),
        FilterAction::Allow => "allowed".to_owned(),
    }
}

/// The counter under which a decision is counted.
pub fn stats_action(action: &FilterAction) -> (s: String)
    ensures
        s@ == stats_action_for(*action),
{
    match action {
        FilterAction::Block => "blocked".to_owned(),
        FilterAction::Throttle(_) => "throttled".to_owned(),
        _ => "allowed".to_owned(),
    }
}

/// Whether `cat` is one of `categories`.
fn has_category(categories: &Vec<String>, cat: &String) -> (b: bool)
    ensures
        b == categories.deep_view().contains(cat@),
{
    let mut i: usize = 0;
    while i < categories.len()
        invariant
            i <= categories@.len(),
            forall|j: int| 0 <= j < i ==> categories@[j]@ != cat@,
        decreases categories.len() - i,
    {
        if categories[i] == *cat {
            assert(categories.deep_view()[i as int] == cat@);
            return true;
        }
        i = i + 1;
    }
    assert forall|j: int| 0 <= j < categories.deep_view().len() implies categories.deep_view()[j] != cat@ by {
        assert(categories.deep_view()[j] == categories@[j]@);
    }
    false
}

/// Whether `rule` applies to `c`.
fn applies(rule: &FilterRule, c: &ClassificationResult) -> (b: bool)
    ensures
        b == rule_applies(rule@, c@),
{
    rule.enabled && has_category(&rule.categories, &c.category) && c.confidence > 0
        && c.confidence >= rule.score_threshold
}

/// The index of the first of `rules` that applies to `c`.
fn first_applicable_rule(rules: &Vec<(String, FilterRule)>, c: &ClassificationResult) -> (r: Option<usize>)
    ensures
        r matches Some(i) ==> first_applicable(rules_view(rules@), c@, 0) == Some(i as int),
        r is None ==> first_applicable(rules_view(rules@), c@, 0) is None,
{
    let ghost rv = rules_view(rules@);
    let mut i: usize = 0;
    while i < rules.len()
        invariant
            i <= rules@.len(),
            rv == rules_view(rules@),
            first_applicable(rv, c@, 0) == first_applicable(rv, c@, i as int),
        decreases rules.len() - i,
    {
        assert(rv[i as int] == (rules@[i as int].0@, rules@[i as int].1@));
        if applies(&rules[i].1, c) {
            return Some(i);
        }
        i = i + 1;
    }
    None
}

/// Filters pages by their classification and the configured rules.
pub struct ContentFilter {
    config: FilterConfig,
    classifier: ContentClassifier,
}

impl ContentFilter {
    /// Whether filtering is switched on.
    pub closed spec fn enabled(&self) -> bool {
        self.config.enabled
    }

    /// The rules, in the order in which they are tried.
    pub closed spec fn rules(&self) -> Seq<(Seq<char>, RuleView)> {
        self.config.rules_spec()
    }

    /// The confidence (in hundredths) from which blocked and throttled pages
    /// are reported.
    pub closed spec fn notification_threshold(&self) -> u32 {
        self.config.notification_threshold
    }

    /// The classifier that the filter consults.
    pub closed spec fn classifier(&self) -> &ContentClassifier {
        &self.classifier
    }

    /// The rules' names are distinct, as the keys of a map are.
    pub fn new(config: FilterConfig, classifier: ContentClassifier) -> (f: Self)
        requires
            rule_names_distinct(config.rules_spec()),
        ensures
            f.enabled() == config.enabled,
            f.rules() == config.rules_spec(),
            f.notification_threshold() == config.notification_threshold,
            *f.classifier() == classifier,
    {
        ContentFilter { config, classifier }
    }

    /// The decision for `content`: while filtering is on, the rules'
    /// decision on the classifier's classification of it.
    pub open spec fn decision_for(&self, content: &ContentData) -> DecisionView {
        if self.enabled() {
            rules_decision(
                self.rules(),
                self.notification_threshold(),
                self.classifier().classification_of(content),
            )
        } else {
            disabled_decision()
        }
    }

    /// Decides what to do with `content`, and gives the record to keep of the
    /// decision; nothing is recorded while filtering is off.
    pub fn evaluate_content(&self, content: &ContentData) -> (r: (FilterDecision, Option<ContentRecord>))
        ensures
            r.0@ == self.decision_for(content),
            !self.enabled() ==> r.1 is None,
            r.1 matches Some(rec) ==> {
                &&& self.enabled()
                &&& records_decision(&rec, content, r.0@.classification, r.0@.action)
                &&& is_uuid_v4_text(rec.id@)
                &&& rec.timestamp.seconds >= 0
                &&& in_four_digit_years(rec.timestamp)
            },
    {
        if !self.config.enabled {
            let d = FilterDecision {
                action: FilterAction::Allow,
                reason: "Filtering disabled".to_owned(),
                classification: ClassificationResult {
                    category: "unclassified".to_owned(),
                    confidence: 0,
                    reasoning: Some("Filtering disabled".to_owned()),
                },
                should_notify: false,
            };
            return (d, None);
        }
        let classification = self.classifier.classify_content(content);
        let decision = self.apply_filter_rules(&classification, content);
        match current_time() {
            Some(now) => {
                let id = fresh_record_id();
                let record = self.log_decision(content, &classification, &decision, id, now);
                (decision, Some(record))
            },
            // A clock that reads before 1970 or after year 9999 leaves the
            // decision unrecorded.
            None => (decision, None),
        }
    }

    /// The decision that the rules give for `classification`.
    pub fn apply_filter_rules(&self, classification: &ClassificationResult, _content: &ContentData) -> (d: FilterDecision)
        ensures
            d@ == rules_decision(self.rules(), self.notification_threshold(), classification@),
    {
        proof {
            lemma_first_applicable(self.rules(), classification@, 0);
        }
        let (action, reason) = match first_applicable_rule(&self.config.rules, classification) {
            Some(i) => {
                assert(self.rules()[i as int] == (self.config.rules@[i as int].0@, self.config.rules@[i as int].1@));
                let (rule_name, rule) = (&self.config.rules[i].0, &self.config.rules[i].1);
                let mut reason = "Matched rule '".to_owned();
                reason.append(rule_name.as_str());
                reason.append("' for category '");
                reason.append(classification.category.as_str());
                reason.append("' with confidence ");
                push_two_decimals(&mut reason, classification.confidence);
                (rule.action, reason)
            },
            None => {
                let brainrot_score = self.classifier.get_brainrot_score(classification);
                if brainrot_score > 70 {
                    let mut reason = "High brainrot score: ".to_owned();
                    push_two_decimals(&mut reason, brainrot_score);
                    (FilterAction::Block, reason)
                } else if brainrot_score > 50 {
                    let mut reason = "Medium brainrot score: ".to_owned();
                    push_two_decimals(&mut reason, brainrot_score);
                    (FilterAction::Throttle(3), reason)
                } else {
                    let mut reason = "Low brainrot score: ".to_owned();
                    push_two_decimals(&mut reason, brainrot_score);
                    (FilterAction::Allow, reason)
                }
            },
        };
        let should_notify = match &action {
            FilterAction::Block => classification.confidence >= self.config.notification_threshold,
            FilterAction::Throttle(_) => classification.confidence
                >= self.config.notification_threshold,
            _ => false,
        };
        FilterDecision { action, reason, classification: classification.clone(), should_notify }
    }

    /// The record kept of `decision`, taken on `content` with
    /// `classification`, under identifier `id` at time `now`.
    pub fn log_decision(
        &self,
        content: &ContentData,
        classification: &ClassificationResult,
        decision: &FilterDecision,
        id: String,
        now: Timestamp,
    ) -> (r: ContentRecord)
        ensures
            records_decision(&r, content, classification@, decision.action),
            r.id@ == id@,
            r.timestamp == now,
    {
        ContentRecord {
            id,
            url: content.url.clone(),
            content_type: classification.category.clone(),
            classification: Some(classification.category.clone()),
            confidence: Some(classification.confidence),
            action_taken: action_taken_label(&decision.action),
            timestamp: now,
        }
    }

    /// Whether the decision blocks the page.
    pub fn should_block(&self, decision: &FilterDecision) -> (b: bool)
        ensures
            b == (decision.action is Block),
    {
        matches!(decision.action, FilterAction::Block)
    }

    /// The delay that the decision imposes, if it throttles.
    pub fn get_throttle_delay(&self, decision: &FilterDecision) -> (r: Option<u64>)
        ensures
            r == (match decision.action {
                FilterAction::Throttle(s) => Some(s),
                _ => None,
            }),
    {
        match decision.action {
            FilterAction::Throttle(seconds) => Some(seconds),
            _ => None,
        }
    }

    /// The page shown in place of the blocked page at `url`.
    pub fn generate_blocked_content_html(&self, decision: &FilterDecision, url: &str) -> (s: String)
        ensures
            s@ == blocked_page(
                decision.reason@,
                decision.classification.category@,
                decision.classification.confidence,
                url@,
            ),
    {
        blocked_page_html(
            decision.reason.as_str(),
            decision.classification.category.as_str(),
            decision.classification.confidence,
            url,
        )
    }
}

} // verus!
