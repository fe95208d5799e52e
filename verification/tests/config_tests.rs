use norot::config::{Config, FilterAction, ModelType};

#[test]
fn default_configuration() {
    let c = Config::default();
    assert_eq!(c.server.host, "127.0.0.1");
    assert_eq!(c.server.port, 8080);
    assert_eq!(c.server.proxy_timeout, 30);
    assert!(c.filters.enabled);
    assert_eq!(c.filters.notification_threshold, 80);
    assert_eq!(c.filters.rules.len(), 2);
    let (name, rule) = &c.filters.rules[0];
    assert_eq!(name, "brainrot");
    assert!(rule.enabled);
    assert_eq!(rule.score_threshold, 70);
    assert_eq!(rule.action, FilterAction::Block);
    assert_eq!(rule.categories, vec!["clickbait".to_string(), "mindless_scrolling".to_string()]);
    let (name, rule) = &c.filters.rules[1];
    assert_eq!(name, "educational");
    assert_eq!(rule.score_threshold, 60);
    assert_eq!(rule.action, FilterAction::Allow);
    assert_eq!(
        rule.categories,
        vec!["learning".to_string(), "tutorial".to_string(), "informative".to_string()]
    );
    assert!(c.classifier.enabled);
    assert_eq!(c.classifier.model_type, ModelType::Mock);
    assert_eq!(c.classifier.api_key, None);
    assert_eq!(c.classifier.api_endpoint, None);
    assert_eq!(c.classifier.confidence_threshold, 60);
    assert!(c.ui.enabled);
    assert_eq!(c.ui.theme, "dark");
    assert!(c.ui.show_blocked_count);
}
