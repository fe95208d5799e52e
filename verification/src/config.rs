//! Configuration of the proxy, the filter and the classifier.
//!
//! Scores, thresholds and confidences are given in hundredths: `70` stands
//! for a score of `0.70`.
use vstd::prelude::*;

verus! {

/// Where the proxy listens and how long it waits on upstream servers.
#[derive(Debug, Clone)]
pub struct ServerConfig {
    pub host: String,
    pub port: u16,
    pub proxy_timeout: u64,
}

/// The filter's switch, its named rules and the confidence from which a
/// blocked or throttled request is reported.
#[derive(Debug, Clone)]
pub struct FilterConfig {
    pub enabled: bool,
    /// Named rules, in the order in which they are tried.
    pub rules: Vec<(String, FilterRule)>,
    /// In hundredths.
    pub notification_threshold: u32,
}

/// A rule: the categories it covers, the confidence it needs and the action it takes.
#[derive(Debug, Clone)]
pub struct FilterRule {
    pub enabled: bool,
    /// In hundredths.
    pub score_threshold: u32,
    pub action: FilterAction,
    pub categories: Vec<String>,
}

/// What the proxy does with a page.
#[derive(Debug, Clone, Copy, PartialEq, Eq, Structural)]
pub enum FilterAction {
    Block,
    /// Seconds to delay.
    Throttle(u64),
    Warning,
    Allow,
}

/// The classifier's switch, the model it uses and that model's settings.
#[derive(Debug, Clone)]
pub struct ClassifierConfig {
    pub enabled: bool,
    pub model_type: ModelType,
    pub api_key: Option<String>,
    pub api_endpoint: Option<String>,
    /// In hundredths.
    pub confidence_threshold: u32,
}

/// The kind of model behind the classifier.
#[derive(Debug, Clone, Copy, PartialEq, Eq, Structural)]
pub enum ModelType {
    OpenAI,
    Local,
    /// Keyword matching, for testing.
    Mock,
}

/// Settings of the dashboard.
#[derive(Debug, Clone)]
pub struct UiConfig {
    pub enabled: bool,
    pub theme: String,
    pub show_blocked_count: bool,
}

/// The whole configuration.
#[derive(Debug, Clone)]
pub struct Config {
    pub server: ServerConfig,
    pub filters: FilterConfig,
    pub classifier: ClassifierConfig,
    pub ui: UiConfig,
}

/// A filter rule as values.
pub struct RuleView {
    pub enabled: bool,
    pub score_threshold: u32,
    pub action: FilterAction,
    pub categories: Seq<Seq<char>>,
}

impl View for FilterRule {
    type V = RuleView;

    open spec fn view(&self) -> RuleView {
        RuleView {
            enabled: self.enabled,
            score_threshold: self.score_threshold,
            action: self.action,
            categories: self.categories.deep_view(),
        }
    }
}

/// The named rules as values, in order.
pub open spec fn rules_view(rules: Seq<(String, FilterRule)>) -> Seq<(Seq<char>, RuleView)> {
    rules.map_values(|r: (String, FilterRule)| (r.0@, r.1@))
}

/// No two rules share a name (the rules form a map from names to rules).
pub open spec fn rule_names_distinct(rules: Seq<(Seq<char>, RuleView)>) -> bool {
    forall|i: int, j: int| 0 <= i < j < rules.len() ==> rules[i].0 != rules[j].0
}

impl FilterConfig {
    /// The rules as values, in order.
    pub open spec fn rules_spec(&self) -> Seq<(Seq<char>, RuleView)> {
        rules_view(self.rules@)
    }
}

/// A vector of strings from string literals.
fn strings_of(items: &[&str]) -> (v: Vec<String>)
    ensures
        v.deep_view() == items@.map_values(|s: &str| s@),
{
    let mut v: Vec<String> = Vec::new();
    let mut i: usize = 0;
    while i < items.len()
        invariant
            i <= items@.len(),
            v@.len() == i,
            forall|j: int| 0 <= j < i ==> #[trigger] v@[j]@ == items@[j]@,
        decreases items.len() - i,
    {
        v.push(items[i].to_owned());
        i = i + 1;
    }
    assert(v.deep_view() =~= items@.map_values(|s: &str| s@));
    v
}

/// The rules that a new configuration starts with.
pub open spec fn default_rules() -> Seq<(Seq<char>, RuleView)> {
    seq![
        ("brainrot"@, RuleView {
            enabled: true,
            score_threshold: 70,
            action: FilterAction::Block,
            categories: seq!["clickbait"@, "mindless_scrolling"@],
        }),
        ("educational"@, RuleView {
            enabled: true,
            score_threshold: 60,
            action: FilterAction::Allow,
            categories: seq!["learning"@, "tutorial"@, "informative"@],
        }),
    ]
}

impl Default for Config {
    fn default() -> (c: Config)
        ensures
            c.server.host@ == "127.0.0.1"@,
            c.server.port == 8080,
            c.server.proxy_timeout == 30,
            c.filters.enabled,
            c.filters.rules_spec() == default_rules(),
            rule_names_distinct(c.filters.rules_spec()),
            c.filters.notification_threshold == 80,
            c.classifier.enabled,
            c.classifier.model_type == ModelType::Mock,
            c.classifier.api_key is None,
            c.classifier.api_endpoint is None,
            c.classifier.confidence_threshold == 60,
            c.ui.enabled,
            c.ui.theme@ == "dark"@,
            c.ui.show_blocked_count,
    {
        let mut rules: Vec<(String, FilterRule)> = Vec::new();
        rules.push(
            (
                "brainrot".to_owned(),
                FilterRule {
                    enabled: true,
                    score_threshold: 70,
                    action: FilterAction::Block,
                    categories: strings_of(&["clickbait", "mindless_scrolling"]),
                },
            ),
        );
        rules.push(
            (
                "educational".to_owned(),
                FilterRule {
                    enabled: true,
                    score_threshold: 60,
                    action: FilterAction::Allow,
                    categories: strings_of(&["learning", "tutorial", "informative"]),
                },
            ),
        );
        let c = Config {
            server: ServerConfig {
                host: "127.0.0.1".to_owned(),
                port: 8080,
                proxy_timeout: 30,
            },
            filters: FilterConfig {
                enabled: true,
                rules: rules,
                notification_threshold: 80,
            },
            classifier: ClassifierConfig {
                enabled: true,
                model_type: ModelType::Mock,
                api_key: None,
                api_endpoint: None,
                confidence_threshold: 60,
            },
            ui: UiConfig { enabled: true, theme: "dark".to_owned(), show_blocked_count: true },
        };
        assert(c.filters.rules@[0].1.categories.deep_view() =~= seq!["clickbait"@, "mindless_scrolling"@]);
        assert(c.filters.rules@[1].1.categories.deep_view() =~= seq!["learning"@, "tutorial"@, "informative"@]);
        assert(c.filters.rules_spec() =~= default_rules());
        proof {
            reveal_strlit("brainrot");
            reveal_strlit("educational");
            assert(default_rules()[0].0 != default_rules()[1].0) by {
                assert(default_rules()[0].0[0] != default_rules()[1].0[0]);
            }
        }
        c
    }
}

} // verus!
