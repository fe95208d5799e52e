//! Keyword classification of pages and the pulling of a page's title and
//! description out of its HTML.
use vstd::prelude::*;
use vstd::string::*;

use crate::config::{ClassifierConfig, ModelType};
use crate::site::{is_on_site, on_site};
use crate::text::{
    all_ascii, ascii_lowercase, chars_of, lemma_ascii_lowercase_ascii, contains, contains_str, eq_str, find_chars, find_from, lowercase, string_of, sub_chars,
    to_ascii_lowercase, to_lowercase, trim, trimmed_sub_chars,
};

verus! {

/// A category for a page, how sure the classifier is of it (in hundredths)
/// and why.
#[derive(Debug)]
pub struct ClassificationResult {
    pub category: String,
    /// In hundredths.
    pub confidence: u32,
    pub reasoning: Option<String>,
}

/// A classification as values.
pub struct ClassificationView {
    pub category: Seq<char>,
    pub confidence: u32,
    pub reasoning: Option<Seq<char>>,
}

impl View for ClassificationResult {
    type V = ClassificationView;

    open spec fn view(&self) -> ClassificationView {
        ClassificationView {
            category: self.category@,
            confidence: self.confidence,
            reasoning: self.reasoning.deep_view(),
        }
    }
}

impl Clone for ClassificationResult {
    fn clone(&self) -> (r: Self)
        ensures
            r@ == self@,
    {
        let reasoning = match &self.reasoning {
            Some(s) => Some(s.clone()),
            None => None,
        };
        ClassificationResult { category: self.category.clone(), confidence: self.confidence, reasoning }
    }
}

/// What is known of a page before it is classified.
#[derive(Debug, Clone)]
pub struct ContentData {
    pub url: String,
    pub title: Option<String>,
    pub description: Option<String>,
    pub text_content: Option<String>,
    /// Further properties of the page, as name and value.
    pub metadata: Vec<(String, String)>,
}

/// No two metadata entries share a name (the entries form a map).
pub open spec fn metadata_names_distinct(m: Seq<(String, String)>) -> bool {
    forall|i: int, j: int| 0 <= i < j < m.len() ==> m[i].0@ != m[j].0@
}

/// A classification built from its three parts.
pub open spec fn classification(category: Seq<char>, confidence: u32, reasoning: Seq<char>) -> ClassificationView {
    ClassificationView { category, confidence, reasoning: Some(reasoning) }
}

/// What the classifier answers while it is switched off.
pub open spec fn disabled_classification() -> ClassificationView {
    classification("unclassified"@, 0, "Classification disabled"@)
}

/// `o`'s contents, or nothing.
pub open spec fn or_empty(o: Option<Seq<char>>) -> Seq<char> {
    match o {
        Some(s) => s,
        None => Seq::empty(),
    }
}

/// The text that the keyword classifier reads before it is lowercased:
/// the URL, title, description and page text, joined by spaces.
pub open spec fn keyword_text(
    url: Seq<char>,
    title: Option<Seq<char>>,
    description: Option<Seq<char>>,
    text: Option<Seq<char>>,
) -> Seq<char> {
    url + " "@ + or_empty(title) + " "@ + or_empty(description) + " "@ + or_empty(text)
}

/// The keyword text of `content`.
pub open spec fn content_keyword_text(content: &ContentData) -> Seq<char> {
    keyword_text(
        content.url@,
        content.title.deep_view(),
        content.description.deep_view(),
        content.text_content.deep_view(),
    )
}

/// What the keyword classifier reads of `content`: its keyword text,
/// lowercased.
pub open spec fn lowered_keyword_text(content: &ContentData) -> Seq<char> {
    lowercase(ascii_lowercase(content_keyword_text(content)))
}

/// The text mentions learning.
pub open spec fn has_educational_words(t: Seq<char>) -> bool {
    ||| contains(t, "tutorial"@)
    ||| contains(t, "learn"@)
    ||| contains(t, "education"@)
    ||| contains(t, "guide"@)
    ||| contains(t, "how-to"@)
    ||| contains(t, "how to"@)
    ||| contains(t, "course"@)
}

/// The text mentions news or research.
pub open spec fn has_informative_words(t: Seq<char>) -> bool {
    ||| contains(t, "news"@)
    ||| contains(t, "analysis"@)
    ||| contains(t, "research"@)
    ||| contains(t, "science"@)
    ||| contains(t, "technology"@)
}

/// The text uses clickbait phrases.
pub open spec fn has_clickbait_words(t: Seq<char>) -> bool {
    ||| contains(t, "you won't believe"@)
    ||| contains(t, "shocking"@)
    ||| contains(t, "viral"@)
    ||| contains(t, "click here"@)
    ||| contains(t, "amazing trick"@)
    ||| contains(t, "hate him"@)
    ||| contains(t, "doctors don't want"@)
    ||| contains(t, "this one weird"@)
}

/// The text mentions entertainment.
pub open spec fn has_entertainment_words(t: Seq<char>) -> bool {
    ||| contains(t, "meme"@)
    ||| contains(t, "funny"@)
    ||| contains(t, "cute"@)
    ||| contains(t, "cat"@)
    ||| contains(t, "dog"@)
    ||| contains(t, "entertainment"@)
}

/// The URL is on one of the feed-driven social networks.
pub open spec fn is_social_feed_url(url: Seq<char>) -> bool {
    ||| on_site(url, "instagram.com"@)
    ||| on_site(url, "tiktok.com"@)
    ||| on_site(url, "twitter.com"@)
    ||| on_site(url, "x.com"@)
    ||| on_site(url, "facebook.com"@)
}

/// The text mentions feed items.
pub open spec fn has_feed_words(t: Seq<char>) -> bool {
    ||| contains(t, "story"@)
    ||| contains(t, "stories"@)
    ||| contains(t, "reel"@)
    ||| contains(t, "post"@)
}

/// The keyword classification of a page with the given URL whose lowercased
/// keyword text is `t`; the first group of keywords that matches decides.
pub open spec fn keyword_classification(url: Seq<char>, t: Seq<char>) -> ClassificationView {
    if has_educational_words(t) {
        classification("educational"@, 85, "Contains educational keywords"@)
    } else if has_informative_words(t) {
        classification("informative"@, 80, "Contains informative keywords"@)
    } else if has_clickbait_words(t) {
        classification("clickbait"@, 90, "Contains clickbait keywords"@)
    } else if has_entertainment_words(t) {
        classification("entertainment"@, 75, "Contains entertainment keywords"@)
    } else if is_social_feed_url(url) && has_feed_words(t) {
        classification(
            "mindless_scrolling"@,
            70,
            "Social media content likely to encourage mindless scrolling"@,
        )
    } else {
        classification("neutral"@, 50, "No clear classification patterns found"@)
    }
}

/// The brainrot score of a category, in hundredths.
pub open spec fn brainrot_score(category: Seq<char>) -> u32 {
    if category == "clickbait"@ {
        90
    } else if category == "mindless_scrolling"@ {
        80
    } else if category == "entertainment"@ {
        40
    } else if category == "neutral"@ {
        50
    } else if category == "informative"@ {
        20
    } else if category == "educational"@ {
        10
    } else {
        50
    }
}

fn make_classification(category: &str, confidence: u32, reasoning: &str) -> (r: ClassificationResult)
    ensures
        r@ == classification(category@, confidence, reasoning@),
{
    ClassificationResult {
        category: category.to_owned(),
        confidence,
        reasoning: Some(reasoning.to_owned()),
    }
}

/// Classifies by keywords a page with the given URL whose lowercased keyword
/// text is `lowered`.
pub fn classify_keywords(url: &str, lowered: &str) -> (r: ClassificationResult)
    ensures
        r@ == keyword_classification(url@, lowered@),
{
    let t = chars_of(lowered);
    let t = t.as_slice();
    if contains_str(t, "tutorial") || contains_str(t, "learn") || contains_str(t, "education")
        || contains_str(t, "guide") || contains_str(t, "how-to") || contains_str(t, "how to")
        || contains_str(t, "course") {
        return make_classification("educational", 85, "Contains educational keywords");
    }
    if contains_str(t, "news") || contains_str(t, "analysis") || contains_str(t, "research")
        || contains_str(t, "science") || contains_str(t, "technology") {
        return make_classification("informative", 80, "Contains informative keywords");
    }
    if contains_str(t, "you won't believe") || contains_str(t, "shocking") || contains_str(
        t,
        "viral",
    ) || contains_str(t, "click here") || contains_str(t, "amazing trick") || contains_str(
        t,
        "hate him",
    ) || contains_str(t, "doctors don't want") || contains_str(t, "this one weird") {
        return make_classification("clickbait", 90, "Contains clickbait keywords");
    }
    if contains_str(t, "meme") || contains_str(t, "funny") || contains_str(t, "cute")
        || contains_str(t, "cat") || contains_str(t, "dog") || contains_str(t, "entertainment") {
        return make_classification("entertainment", 75, "Contains entertainment keywords");
    }
    if is_on_site(url, "instagram.com") || is_on_site(url, "tiktok.com") || is_on_site(
        url,
        "twitter.com",
    ) || is_on_site(url, "x.com") || is_on_site(url, "facebook.com") {
        if contains_str(t, "story") || contains_str(t, "stories") || contains_str(t, "reel")
            || contains_str(t, "post") {
            return make_classification(
                "mindless_scrolling",
                70,
                "Social media content likely to encourage mindless scrolling",
            );
        }
    }
    make_classification("neutral", 50, "No clear classification patterns found")
}

/// Classifies pages by the keywords in their URL, title, description and text.
pub struct ContentClassifier {
    config: ClassifierConfig,
}

impl ContentClassifier {
    /// The settings the classifier was made with.
    pub closed spec fn config(&self) -> &ClassifierConfig {
        &self.config
    }

    /// Whether the classifier is switched on.
    pub closed spec fn enabled(&self) -> bool {
        self.config.enabled
    }

    pub fn new(config: ClassifierConfig) -> (c: Self)
        ensures
            c.enabled() == config.enabled,
            *c.config() == config,
    {
        ContentClassifier { config }
    }

    /// The classification of `content`: the keyword classification of its
    /// lowercased URL, title, description and page text while the classifier
    /// is on.
    pub open spec fn classification_of(&self, content: &ContentData) -> ClassificationView {
        if self.enabled() {
            keyword_classification(content.url@, lowered_keyword_text(content))
        } else {
            disabled_classification()
        }
    }

    /// Classifies `content`; on ASCII text the lowercasing is that of the
    /// letters `A` to `Z`.
    pub fn classify_content(&self, content: &ContentData) -> (r: ClassificationResult)
        ensures
            r@ == self.classification_of(content),
            self.enabled() && all_ascii(content_keyword_text(content)) ==> r@ == keyword_classification(
                content.url@,
                ascii_lowercase(content_keyword_text(content)),
            ),
    {
        if !self.config.enabled {
            return make_classification("unclassified", 0, "Classification disabled");
        }
        match self.config.model_type {
            ModelType::Mock => self.mock_classify(content),
            ModelType::OpenAI => self.openai_classify(content),
            ModelType::Local => self.local_classify(content),
        }
    }

    fn mock_classify(&self, content: &ContentData) -> (r: ClassificationResult)
        ensures
            r@ == keyword_classification(content.url@, lowered_keyword_text(content)),
            all_ascii(content_keyword_text(content)) ==> lowered_keyword_text(content) == ascii_lowercase(
                content_keyword_text(content),
            ),
    {
        let mut text = content.url.clone();
        text.append(" ");
        match &content.title {
            Some(t) => text.append(t.as_str()),
            None => {},
        }
        text.append(" ");
        match &content.description {
            Some(d) => text.append(d.as_str()),
            None => {},
        }
        text.append(" ");
        match &content.text_content {
            Some(p) => text.append(p.as_str()),
            None => {},
        }
        assert(text@ =~= content_keyword_text(content));
        // ASCII capitals are lowered first; `str::to_lowercase` lowers them
        // in the same way, so the text it returns is unchanged by this.
        let ascii_lowered = to_ascii_lowercase(text.as_str());
        proof {
            lemma_ascii_lowercase_ascii(text@);
        }
        let lowered = to_lowercase(ascii_lowered.as_str());
        classify_keywords(content.url.as_str(), lowered.as_str())
    }

    /// A remote model is not wired in; the keyword classifier answers.
    fn openai_classify(&self, content: &ContentData) -> (r: ClassificationResult)
        ensures
            r@ == keyword_classification(content.url@, lowered_keyword_text(content)),
            all_ascii(content_keyword_text(content)) ==> lowered_keyword_text(content) == ascii_lowercase(
                content_keyword_text(content),
            ),
    {
        self.mock_classify(content)
    }

    /// A local model is not wired in; the keyword classifier answers.
    fn local_classify(&self, content: &ContentData) -> (r: ClassificationResult)
        ensures
            r@ == keyword_classification(content.url@, lowered_keyword_text(content)),
            all_ascii(content_keyword_text(content)) ==> lowered_keyword_text(content) == ascii_lowercase(
                content_keyword_text(content),
            ),
    {
        self.mock_classify(content)
    }

    /// How likely a page of this classification is low-value, in hundredths.
    pub fn get_brainrot_score(&self, classification: &ClassificationResult) -> (s: u32)
        ensures
            s == brainrot_score(classification.category@),
    {
        let c = &classification.category;
        if eq_str(c, "clickbait") {
            90
        } else if eq_str(c, "mindless_scrolling") {
            80
        } else if eq_str(c, "entertainment") {
            40
        } else if eq_str(c, "neutral") {
            50
        } else if eq_str(c, "informative") {
            20
        } else if eq_str(c, "educational") {
            10
        } else {
            50
        }
    }
}


/// The trimmed text between the first `start` in `t` and the first `end`
/// after it, if both are there.
pub open spec fn text_between(t: Seq<char>, start: Seq<char>, end: Seq<char>) -> Option<Seq<char>> {
    match find_from(t, start, 0) {
        None => None,
        Some(i) => match find_from(t, end, i + start.len()) {
            None => None,
            Some(e) => Some(trim(t.subrange(i + start.len(), e))),
        },
    }
}

/// The value of the `content="..."` attribute that first follows the first
/// `name="<name>"` in `h`, if there is one.
pub open spec fn meta_content(h: Seq<char>, name: Seq<char>) -> Option<Seq<char>> {
    match find_from(h, "name=\""@ + name + "\""@, 0) {
        None => None,
        Some(s) => match find_from(h, "content=\""@, s) {
            None => None,
            Some(c) => match find_from(h, "\""@, c + 9) {
                None => None,
                Some(e) => Some(h.subrange(c + 9, e)),
            },
        },
    }
}

/// The description of a page: its `description` meta content, or else the
/// text of a `<meta name="description" content="...">` tag.
pub open spec fn page_description(h: Seq<char>) -> Option<Seq<char>> {
    match meta_content(h, "description"@) {
        Some(d) => Some(d),
        None => text_between(h, "<meta name=\"description\" content=\""@, "\""@),
    }
}

/// The trimmed text between the first `start` in `text` and the first `end`
/// after it.
pub fn extract_between(text: &str, start: &str, end: &str) -> (r: Option<String>)
    ensures
        r.deep_view() == text_between(text@, start@, end@),
{
    let t = chars_of(text);
    let t = t.as_slice();
    let st = chars_of(start);
    let en = chars_of(end);
    proof {
        crate::text::lemma_find_from(t@, st@, 0);
    }
    let i = match find_chars(t, st.as_slice(), 0) {
        Some(i) => i,
        None => return None,
    };
    let n = t.len();
    assert(i + st@.len() <= n);
    let start_pos = i + st.len();
    proof {
        crate::text::lemma_find_from(t@, en@, start_pos as int);
    }
    let end_pos = match find_chars(t, en.as_slice(), start_pos) {
        Some(e) => e,
        None => return None,
    };
    let v = trimmed_sub_chars(t, start_pos, end_pos);
    Some(string_of(v.as_slice()))
}

/// The value of the `content` attribute that follows `name="<name>"` in `html`.
pub fn extract_meta_content(html: &str, name: &str) -> (r: Option<String>)
    ensures
        r.deep_view() == meta_content(html@, name@),
{
    let h = chars_of(html);
    let h = h.as_slice();
    let mut pattern = "name=\"".to_owned();
    pattern.append(name);
    pattern.append("\"");
    let pat = chars_of(pattern.as_str());
    let attr = chars_of("content=\"");
    proof {
        reveal_strlit("content=\"");
    }
    let quote = chars_of("\"");
    proof {
        crate::text::lemma_find_from(h@, pat@, 0);
    }
    if let Some(start) = find_chars(h, pat.as_slice(), 0) {
        proof {
            crate::text::lemma_find_from(h@, attr@, start as int);
        }
        if let Some(content_start) = find_chars(h, attr.as_slice(), start) {
            let n = h.len();
            assert(content_start + attr@.len() <= n);
            let content_pos = content_start + 9;
            proof {
                crate::text::lemma_find_from(h@, quote@, content_pos as int);
            }
            if let Some(end_pos) = find_chars(h, quote.as_slice(), content_pos) {
                let v = sub_chars(h, content_pos, end_pos);
                return Some(string_of(v.as_slice()));
            }
        }
    }
    None
}

/// What the proxy reads of a fetched page: its URL, its title and
/// description, and the whole HTML.
pub fn extract_content_from_html(html: &str, url: &str) -> (c: ContentData)
    ensures
        c.url@ == url@,
        c.title.deep_view() == text_between(html@, "<title>"@, "</title>"@),
        c.description.deep_view() == page_description(html@),
        c.text_content.deep_view() == Some(html@),
        c.metadata@.len() == 0,
        metadata_names_distinct(c.metadata@),
{
    let title = extract_between(html, "<title>", "</title>");
    let description = match extract_meta_content(html, "description") {
        Some(d) => Some(d),
        None => extract_between(html, "<meta name=\"description\" content=\"", "\""),
    };
    ContentData {
        url: url.to_owned(),
        title,
        description,
        text_content: Some(html.to_owned()),
        metadata: Vec::new(),
    }
}

} // verus!
