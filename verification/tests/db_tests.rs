use norot::classifier::{ClassificationResult, ContentClassifier, ContentData};
use norot::config::{Config, FilterAction};
use norot::db::{instant_text, stats_entry, stats_entry_at, stored_record, StatsUpdate, Timestamp};
use norot::filter::{ContentFilter, FilterDecision};

#[test]
fn instants_are_written_in_rfc3339() {
    let t = Timestamp { seconds: 1_700_000_000, nanoseconds: 0 };
    assert_eq!(instant_text(t).as_deref(), Some("2023-11-14T22:13:20+00:00"));
    let t = Timestamp { seconds: 0, nanoseconds: 500_000_000 };
    assert_eq!(instant_text(t).as_deref(), Some("1970-01-01T00:00:00.500+00:00"));
}

#[test]
fn stored_records_read_back_their_time() {
    let t = Timestamp { seconds: 1_700_000_123, nanoseconds: 123_456_789 };
    let text = instant_text(t).unwrap();
    let r = stored_record(
        "id".to_string(),
        "https://x.com".to_string(),
        "clickbait".to_string(),
        Some("clickbait".to_string()),
        Some(90),
        "blocked".to_string(),
        &text,
    )
    .unwrap();
    assert_eq!(r.timestamp, t);
    assert_eq!(r.id, "id");
    assert_eq!(r.url, "https://x.com");
    assert_eq!(r.content_type, "clickbait");
    assert_eq!(r.classification.as_deref(), Some("clickbait"));
    assert_eq!(r.confidence, Some(90));
    assert_eq!(r.action_taken, "blocked");
}

#[test]
fn stored_records_accept_other_offsets() {
    let r = stored_record(
        "i".to_string(),
        "u".to_string(),
        "t".to_string(),
        None,
        None,
        "allowed".to_string(),
        "2023-11-15T00:13:20+02:00",
    )
    .unwrap();
    assert_eq!(r.timestamp, Timestamp { seconds: 1_700_000_000, nanoseconds: 0 });
}

#[test]
fn bad_stored_times_are_refused() {
    let r = stored_record(
        "i".to_string(),
        "u".to_string(),
        "t".to_string(),
        None,
        None,
        "allowed".to_string(),
        "yesterday",
    );
    assert!(r.is_none());
}

#[test]
fn stats_entries_carry_the_day() {
    let (day, update) = stats_entry("throttled").unwrap();
    assert_eq!(update, StatsUpdate { blocked: 0, allowed: 0, throttled: 1 });
    assert_eq!(day.len(), 10);
    assert_eq!(day.as_bytes()[4], b'-');
    assert_eq!(day.as_bytes()[7], b'-');
    assert!(day.starts_with("20"));
    assert!(stats_entry("warning").is_none());
}

#[test]
fn log_decision_keeps_id_and_time() {
    let c = Config::default();
    let f = ContentFilter::new(c.filters, ContentClassifier::new(c.classifier));
    let classification =
        ClassificationResult { category: "clickbait".to_string(), confidence: 90, reasoning: None };
    let decision = FilterDecision {
        action: FilterAction::Throttle(4),
        reason: "r".to_string(),
        classification: classification.clone(),
        should_notify: true,
    };
    let content = ContentData {
        url: "https://x.com/a".to_string(),
        title: None,
        description: None,
        text_content: None,
        metadata: Vec::new(),
    };
    let now = Timestamp { seconds: 42, nanoseconds: 7 };
    let r = f.log_decision(&content, &classification, &decision, "abc".to_string(), now);
    assert_eq!(r.id, "abc");
    assert_eq!(r.timestamp, now);
    assert_eq!(r.action_taken, "throttled_4");
    assert_eq!(r.url, "https://x.com/a");
    assert_eq!(r.confidence, Some(90));
}

#[test]
fn stats_entry_at_uses_the_given_day() {
    let now = Timestamp { seconds: 1_700_000_000, nanoseconds: 0 };
    let (day, update) = stats_entry_at("blocked", now).unwrap();
    assert_eq!(day, "2023-11-14");
    assert_eq!(update, StatsUpdate { blocked: 1, allowed: 0, throttled: 0 });
    let (day, _) = stats_entry_at("allowed", Timestamp { seconds: 0, nanoseconds: 0 }).unwrap();
    assert_eq!(day, "1970-01-01");
    assert!(stats_entry_at("other", now).is_none());
}

#[test]
fn year_zero_round_trips() {
    let t = Timestamp { seconds: -62_167_219_200, nanoseconds: 1_000 };
    let text = instant_text(t).unwrap();
    assert_eq!(text, "0000-01-01T00:00:00.000001+00:00");
    let r = stored_record(
        "i".to_string(),
        "u".to_string(),
        "t".to_string(),
        None,
        None,
        "allowed".to_string(),
        &text,
    )
    .unwrap();
    assert_eq!(r.timestamp, t);
}

#[test]
fn unrepresentable_instants_have_no_text() {
    assert_eq!(instant_text(Timestamp { seconds: i64::MAX, nanoseconds: 0 }), None);
}
