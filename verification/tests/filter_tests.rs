use norot::classifier::{ClassificationResult, ContentClassifier, ContentData};
use norot::config::{Config, FilterAction, FilterConfig, FilterRule};
use norot::db::{stats_update, StatsUpdate};
use norot::filter::{action_taken_label, stats_action, ContentFilter, FilterDecision};

fn default_filter() -> ContentFilter {
    let c = Config::default();
    ContentFilter::new(c.filters, ContentClassifier::new(c.classifier))
}

fn filter_with(rules: Vec<(String, FilterRule)>, notification_threshold: u32) -> ContentFilter {
    let c = Config::default();
    ContentFilter::new(
        FilterConfig { enabled: true, rules, notification_threshold },
        ContentClassifier::new(c.classifier),
    )
}

fn classification(category: &str, confidence: u32) -> ClassificationResult {
    ClassificationResult { category: category.to_string(), confidence, reasoning: None }
}

fn content(url: &str, title: &str) -> ContentData {
    ContentData {
        url: url.to_string(),
        title: Some(title.to_string()),
        description: None,
        text_content: None,
        metadata: Vec::new(),
    }
}

fn rule(threshold: u32, action: FilterAction, categories: &[&str]) -> FilterRule {
    FilterRule {
        enabled: true,
        score_threshold: threshold,
        action,
        categories: categories.iter().map(|s| s.to_string()).collect(),
    }
}

#[test]
fn default_rules_block_clickbait() {
    let f = default_filter();
    let d = f.apply_filter_rules(&classification("clickbait", 90), &content("u", "t"));
    assert_eq!(d.action, FilterAction::Block);
    assert_eq!(d.reason, "Matched rule 'brainrot' for category 'clickbait' with confidence 0.90");
    assert!(d.should_notify);
    assert_eq!(d.classification.category, "clickbait");
}

#[test]
fn default_rules_block_mindless_scrolling_without_notice() {
    let f = default_filter();
    let d = f.apply_filter_rules(&classification("mindless_scrolling", 70), &content("u", "t"));
    assert_eq!(d.action, FilterAction::Block);
    assert_eq!(
        d.reason,
        "Matched rule 'brainrot' for category 'mindless_scrolling' with confidence 0.70"
    );
    assert!(!d.should_notify);
}

#[test]
fn default_rules_allow_informative() {
    let f = default_filter();
    let d = f.apply_filter_rules(&classification("informative", 80), &content("u", "t"));
    assert_eq!(d.action, FilterAction::Allow);
    assert_eq!(d.reason, "Matched rule 'educational' for category 'informative' with confidence 0.80");
    assert!(!d.should_notify);
}

#[test]
fn unmatched_categories_fall_back_to_score() {
    let f = default_filter();
    let d = f.apply_filter_rules(&classification("educational", 85), &content("u", "t"));
    assert_eq!(d.action, FilterAction::Allow);
    assert_eq!(d.reason, "Low brainrot score: 0.10");
    let d = f.apply_filter_rules(&classification("neutral", 50), &content("u", "t"));
    assert_eq!(d.action, FilterAction::Allow);
    assert_eq!(d.reason, "Low brainrot score: 0.50");
    let d = f.apply_filter_rules(&classification("entertainment", 75), &content("u", "t"));
    assert_eq!(d.reason, "Low brainrot score: 0.40");
}

#[test]
fn threshold_below_confidence_needed() {
    let f = default_filter();
    let d = f.apply_filter_rules(&classification("clickbait", 69), &content("u", "t"));
    assert_eq!(d.action, FilterAction::Block);
    assert_eq!(d.reason, "High brainrot score: 0.90");
    assert!(!d.should_notify);
}

#[test]
fn empty_rules_use_score_only() {
    let f = filter_with(Vec::new(), 80);
    let d = f.apply_filter_rules(&classification("mindless_scrolling", 70), &content("u", "t"));
    assert_eq!(d.action, FilterAction::Block);
    assert_eq!(d.reason, "High brainrot score: 0.80");
    assert!(!d.should_notify);
}

#[test]
fn throttle_rule_notifies_above_threshold() {
    let f = filter_with(
        vec![("slow".to_string(), rule(50, FilterAction::Throttle(5), &["entertainment"]))],
        70,
    );
    let d = f.apply_filter_rules(&classification("entertainment", 75), &content("u", "t"));
    assert_eq!(d.action, FilterAction::Throttle(5));
    assert!(d.should_notify);
    assert_eq!(f.get_throttle_delay(&d), Some(5));
    assert!(!f.should_block(&d));
}

#[test]
fn first_applicable_rule_wins() {
    let f = filter_with(
        vec![
            ("off".to_string(), FilterRule { enabled: false, ..rule(0, FilterAction::Block, &["neutral"]) }),
            ("warn".to_string(), rule(40, FilterAction::Warning, &["neutral"])),
            ("allow".to_string(), rule(40, FilterAction::Allow, &["neutral"])),
        ],
        10,
    );
    let d = f.apply_filter_rules(&classification("neutral", 50), &content("u", "t"));
    assert_eq!(d.action, FilterAction::Warning);
    assert_eq!(d.reason, "Matched rule 'warn' for category 'neutral' with confidence 0.50");
    assert!(!d.should_notify);
    assert_eq!(f.get_throttle_delay(&d), None);
}

#[test]
fn zero_confidence_matches_no_rule() {
    let f = filter_with(vec![("any".to_string(), rule(0, FilterAction::Block, &["neutral"]))], 0);
    let d = f.apply_filter_rules(&classification("neutral", 0), &content("u", "t"));
    assert_eq!(d.action, FilterAction::Allow);
    assert_eq!(d.reason, "Low brainrot score: 0.50");
}

#[test]
fn evaluate_records_the_decision() {
    let f = default_filter();
    let (d, record) = f.evaluate_content(&content("https://example.com/a", "Shocking news?"));
    assert_eq!(d.classification.category, "informative");
    assert_eq!(d.action, FilterAction::Allow);
    let r = record.expect("a record while filtering is on");
    assert_eq!(r.url, "https://example.com/a");
    assert_eq!(r.content_type, "informative");
    assert_eq!(r.classification.as_deref(), Some("informative"));
    assert_eq!(r.confidence, Some(80));
    assert_eq!(r.action_taken, "allowed");
    assert_eq!(r.id.len(), 36);
    assert_eq!(r.id.chars().nth(14), Some('4'));
    assert_eq!(r.id.matches('-').count(), 4);
    assert!(r.timestamp.seconds > 0);
}

#[test]
fn fresh_records_have_fresh_ids() {
    let f = default_filter();
    let (_, a) = f.evaluate_content(&content("u", "x"));
    let (_, b) = f.evaluate_content(&content("u", "x"));
    assert_ne!(a.unwrap().id, b.unwrap().id);
}

#[test]
fn evaluate_blocks_clickbait() {
    let f = default_filter();
    let (d, record) = f.evaluate_content(&content("https://example.com/a", "This One Weird Trick"));
    assert_eq!(d.action, FilterAction::Block);
    assert!(f.should_block(&d));
    assert!(d.should_notify);
    assert_eq!(record.unwrap().action_taken, "blocked");
}

#[test]
fn disabled_filter_allows_without_record() {
    let c = Config::default();
    let f = ContentFilter::new(
        FilterConfig { enabled: false, rules: Vec::new(), notification_threshold: 0 },
        ContentClassifier::new(c.classifier),
    );
    let (d, record) = f.evaluate_content(&content("u", "shocking"));
    assert_eq!(d.action, FilterAction::Allow);
    assert_eq!(d.reason, "Filtering disabled");
    assert_eq!(d.classification.category, "unclassified");
    assert_eq!(d.classification.confidence, 0);
    assert_eq!(d.classification.reasoning.as_deref(), Some("Filtering disabled"));
    assert!(!d.should_notify);
    assert!(record.is_none());
}

#[test]
fn action_labels() {
    assert_eq!(action_taken_label(&FilterAction::Block), "blocked");
    assert_eq!(action_taken_label(&FilterAction::Throttle(3)), "throttled_3");
    assert_eq!(action_taken_label(&FilterAction::Throttle(120)), "throttled_120");
    assert_eq!(action_taken_label(&FilterAction::Warning), "warning");
    assert_eq!(action_taken_label(&FilterAction::Allow), "allowed");
    assert_eq!(stats_action(&FilterAction::Block), "blocked");
    assert_eq!(stats_action(&FilterAction::Throttle(3)), "throttled");
    assert_eq!(stats_action(&FilterAction::Warning), "allowed");
    assert_eq!(stats_action(&FilterAction::Allow), "allowed");
}

#[test]
fn stats_updates() {
    assert_eq!(stats_update("blocked"), Some(StatsUpdate { blocked: 1, allowed: 0, throttled: 0 }));
    assert_eq!(stats_update("allowed"), Some(StatsUpdate { blocked: 0, allowed: 1, throttled: 0 }));
    assert_eq!(stats_update("throttled"), Some(StatsUpdate { blocked: 0, allowed: 0, throttled: 1 }));
    assert_eq!(stats_update("warning"), None);
}

#[test]
fn blocked_page_shows_reason_and_bypass() {
    let f = default_filter();
    let d = FilterDecision {
        action: FilterAction::Block,
        reason: "High brainrot score: 0.90".to_string(),
        classification: classification("clickbait", 90),
        should_notify: true,
    };
    let page = f.generate_blocked_content_html(&d, "https://x.com/a");
    assert!(page.contains("<strong>Reason:</strong> High brainrot score: 0.90<br>"));
    assert!(page.contains("<strong>Category:</strong> clickbait<br>"));
    assert!(page.contains("<strong>Confidence:</strong> 90.0%"));
    assert!(page.contains("<strong>URL:</strong> https://x.com/a"));
    assert!(page.contains("window.location.href = 'https://x.com/a?norot_bypass=1';"));
    assert!(page.contains("body {\n"));
    assert!(page.starts_with("\n            <!DOCTYPE html>"));
    assert!(page.ends_with("</html>\n            "));
}

#[test]
fn decision_clone_keeps_fields() {
    let d = FilterDecision {
        action: FilterAction::Throttle(2),
        reason: "r".to_string(),
        classification: ClassificationResult {
            category: "c".to_string(),
            confidence: 7,
            reasoning: Some("why".to_string()),
        },
        should_notify: false,
    };
    let e = d.clone();
    assert_eq!(e.action, FilterAction::Throttle(2));
    assert_eq!(e.reason, "r");
    assert_eq!(e.classification.reasoning.as_deref(), Some("why"));
}
