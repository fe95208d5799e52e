use norot::classifier::{
    classify_keywords, extract_between, extract_content_from_html, extract_meta_content,
    ClassificationResult, ContentClassifier, ContentData,
};
use norot::config::{ClassifierConfig, ModelType};

fn classifier(enabled: bool, model_type: ModelType) -> ContentClassifier {
    ContentClassifier::new(ClassifierConfig {
        enabled,
        model_type,
        api_key: None,
        api_endpoint: None,
        confidence_threshold: 60,
    })
}

fn content(url: &str, title: Option<&str>, description: Option<&str>) -> ContentData {
    ContentData {
        url: url.to_string(),
        title: title.map(|s| s.to_string()),
        description: description.map(|s| s.to_string()),
        text_content: None,
        metadata: Vec::new(),
    }
}

fn check(r: &ClassificationResult, category: &str, confidence: u32, reasoning: &str) {
    assert_eq!(r.category, category);
    assert_eq!(r.confidence, confidence);
    assert_eq!(r.reasoning.as_deref(), Some(reasoning));
}

#[test]
fn educational_title_is_educational() {
    let c = classifier(true, ModelType::Mock);
    let r = c.classify_content(&content(
        "https://example.com/python",
        Some("Learn Python Programming Tutorial"),
        None,
    ));
    check(&r, "educational", 85, "Contains educational keywords");
}

#[test]
fn uppercase_keywords_are_found_after_lowercasing() {
    let c = classifier(true, ModelType::Mock);
    let r = c.classify_content(&content("https://example.com/a", Some("SHOCKING"), None));
    check(&r, "clickbait", 90, "Contains clickbait keywords");
}

#[test]
fn informative_keywords() {
    let c = classifier(true, ModelType::Mock);
    let r = c.classify_content(&content("https://example.com/a", Some("Daily news"), None));
    check(&r, "informative", 80, "Contains informative keywords");
}

#[test]
fn clickbait_phrases() {
    let c = classifier(true, ModelType::Mock);
    let r = c.classify_content(&content(
        "https://example.com/a",
        Some("You Won't Believe What Happens Next!"),
        None,
    ));
    check(&r, "clickbait", 90, "Contains clickbait keywords");
    let r = c.classify_content(&content("https://example.com/a", None, Some("Doctors Hate Him...")));
    check(&r, "clickbait", 90, "Contains clickbait keywords");
}

#[test]
fn educational_wins_over_clickbait() {
    let c = classifier(true, ModelType::Mock);
    let r = c.classify_content(&content("https://example.com/a", Some("Shocking tutorial"), None));
    check(&r, "educational", 85, "Contains educational keywords");
}

#[test]
fn entertainment_keywords() {
    let c = classifier(true, ModelType::Mock);
    let r = c.classify_content(&content("https://example.com/a", Some("Funny memes"), None));
    check(&r, "entertainment", 75, "Contains entertainment keywords");
}

#[test]
fn social_feed_is_mindless_scrolling() {
    let c = classifier(true, ModelType::Mock);
    let r = c.classify_content(&content("https://instagram.com/p/1", Some("A reel"), None));
    check(
        &r,
        "mindless_scrolling",
        70,
        "Social media content likely to encourage mindless scrolling",
    );
}

#[test]
fn social_site_without_feed_words_is_neutral() {
    let c = classifier(true, ModelType::Mock);
    let r = c.classify_content(&content("https://instagram.com/p/1", Some("Hello"), None));
    check(&r, "neutral", 50, "No clear classification patterns found");
}

#[test]
fn keyword_in_url_counts() {
    let c = classifier(true, ModelType::OpenAI);
    let r = c.classify_content(&content("https://example.com/course/1", None, None));
    check(&r, "educational", 85, "Contains educational keywords");
    let c = classifier(true, ModelType::Local);
    let r = c.classify_content(&content("https://example.com/course/1", None, None));
    check(&r, "educational", 85, "Contains educational keywords");
}

#[test]
fn disabled_classifier_answers_unclassified() {
    let c = classifier(false, ModelType::Mock);
    let r = c.classify_content(&content("https://example.com/tutorial", None, None));
    check(&r, "unclassified", 0, "Classification disabled");
}

#[test]
fn classify_keywords_reads_lowered_text() {
    let r = classify_keywords("https://tiktok.com/x", "my story");
    check(
        &r,
        "mindless_scrolling",
        70,
        "Social media content likely to encourage mindless scrolling",
    );
    let r = classify_keywords("https://example.com", "TUTORIAL");
    check(&r, "neutral", 50, "No clear classification patterns found");
}

#[test]
fn how_to_titles_are_educational() {
    let c = classifier(true, ModelType::Mock);
    let r = c.classify_content(&content("https://example.com/rest", Some("How to Build REST APIs"), None));
    check(&r, "educational", 85, "Contains educational keywords");
}

#[test]
fn instagram_stories_are_mindless_scrolling() {
    let c = classifier(true, ModelType::Mock);
    let r = c.classify_content(&content("https://www.instagram.com/stories/someuser/", None, None));
    check(
        &r,
        "mindless_scrolling",
        70,
        "Social media content likely to encourage mindless scrolling",
    );
}

#[test]
fn x_feed_is_mindless_scrolling() {
    let c = classifier(true, ModelType::Mock);
    let r = c.classify_content(&content("https://x.com/home", Some("A post"), None));
    check(
        &r,
        "mindless_scrolling",
        70,
        "Social media content likely to encourage mindless scrolling",
    );
}

#[test]
fn look_alike_hosts_are_not_social_feeds() {
    let c = classifier(true, ModelType::Mock);
    let r = c.classify_content(&content("https://www.dropbox.com/post", None, None));
    check(&r, "neutral", 50, "No clear classification patterns found");
    let r = c.classify_content(&content("https://example.com/?u=instagram.com/reel", None, None));
    check(&r, "neutral", 50, "No clear classification patterns found");
}

#[test]
fn page_text_keywords_count() {
    let c = classifier(true, ModelType::Mock);
    let mut page = content("https://example.com/page", None, None);
    page.text_content = Some("A beginner tutorial to learn Rust".to_string());
    let r = c.classify_content(&page);
    check(&r, "educational", 85, "Contains educational keywords");
}

#[test]
fn ascii_case_does_not_matter() {
    let c = classifier(true, ModelType::Mock);
    let a = c.classify_content(&content("https://example.com/a", Some("FUNNY Memes"), Some("Cute")));
    let b = c.classify_content(&content("https://example.com/a", Some("funny memes"), Some("cUTE")));
    assert_eq!(a.category, b.category);
    assert_eq!(a.confidence, b.confidence);
    assert_eq!(a.reasoning, b.reasoning);
    check(&a, "entertainment", 75, "Contains entertainment keywords");
}

#[test]
fn non_ascii_capitals_are_lowered() {
    let c = classifier(true, ModelType::Mock);
    let r = c.classify_content(&content("https://example.com/a", Some("ŞHOCKING"), None));
    check(&r, "neutral", 50, "No clear classification patterns found");
    let r = c.classify_content(&content("https://example.com/a", Some("ÉDUCATION TUTORIAL"), None));
    check(&r, "educational", 85, "Contains educational keywords");
}

#[test]
fn brainrot_scores() {
    let c = classifier(true, ModelType::Mock);
    let score = |cat: &str| {
        c.get_brainrot_score(&ClassificationResult {
            category: cat.to_string(),
            confidence: 50,
            reasoning: None,
        })
    };
    assert_eq!(score("clickbait"), 90);
    assert_eq!(score("mindless_scrolling"), 80);
    assert_eq!(score("entertainment"), 40);
    assert_eq!(score("neutral"), 50);
    assert_eq!(score("informative"), 20);
    assert_eq!(score("educational"), 10);
    assert_eq!(score("something else"), 50);
}

#[test]
fn extract_between_trims() {
    assert_eq!(
        extract_between("<title>  Hello World \n</title>", "<title>", "</title>"),
        Some("Hello World".to_string())
    );
    assert_eq!(extract_between("<title>Hello", "<title>", "</title>"), None);
    assert_eq!(extract_between("no title", "<title>", "</title>"), None);
    assert_eq!(extract_between("a<b>c</b><b>d</b>", "<b>", "</b>"), Some("c".to_string()));
}

#[test]
fn extract_meta_content_reads_attribute() {
    let html = r#"<meta name="description" content=" A page ">"#;
    assert_eq!(extract_meta_content(html, "description"), Some(" A page ".to_string()));
    assert_eq!(extract_meta_content(html, "keywords"), None);
    assert_eq!(extract_meta_content(r#"<meta name="description">"#, "description"), None);
}

#[test]
fn extract_content_from_html_fills_fields() {
    let html = r#"<html><head><title> Learn Rust </title><meta name="description" content="A guide"></head><body>x</body></html>"#;
    let c = extract_content_from_html(html, "https://example.com/rust");
    assert_eq!(c.url, "https://example.com/rust");
    assert_eq!(c.title.as_deref(), Some("Learn Rust"));
    assert_eq!(c.description.as_deref(), Some("A guide"));
    assert_eq!(c.text_content.as_deref(), Some(html));
    assert!(c.metadata.is_empty());
    let r = classifier(true, ModelType::Mock).classify_content(&c);
    check(&r, "educational", 85, "Contains educational keywords");
}

#[test]
fn extract_content_without_title_or_description() {
    let c = extract_content_from_html("<p>plain</p>", "u");
    assert_eq!(c.title, None);
    assert_eq!(c.description, None);
}

#[test]
fn non_ascii_page_is_cut_at_characters() {
    let c = extract_content_from_html("<title>Café ☕</title>", "u");
    assert_eq!(c.title.as_deref(), Some("Café ☕"));
}
