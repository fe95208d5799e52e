//! The pages that the proxy shows in place of, or on top of, a filtered page.
use vstd::prelude::*;
use vstd::string::*;

use crate::text::{decimal, push_decimal};

verus! {

pub const BLOCKED_PAGE_HEAD: &'static str = r#"
            <!DOCTYPE html>
            <html>
            <head>
                <title>Content Blocked - NoRot</title>
                <style>
                    body {
                        font-family: -apple-system, BlinkMacSystemFont, 'Segoe UI', Roboto, sans-serif;
                        max-width: 600px;
                        margin: 100px auto;
                        padding: 20px;
                        background: #1a1a1a;
                        color: #ffffff;
                        text-align: center;
                    }
                    .container {
                        background: #2d2d2d;
                        padding: 40px;
                        border-radius: 12px;
                        box-shadow: 0 8px 32px rgba(0,0,0,0.3);
                    }
                    .icon {
                        font-size: 64px;
                        margin-bottom: 20px;
                    }
                    h1 {
                        color: #ff6b6b;
                        margin-bottom: 16px;
                    }
                    .reason {
                        background: #3a3a3a;
                        padding: 20px;
                        border-radius: 8px;
                        margin: 20px 0;
                        border-left: 4px solid #ff6b6b;
                    }
                    .url {
                        color: #888;
                        word-break: break-all;
                        margin: 10px 0;
                    }
                    .actions {
                        margin-top: 30px;
                    }
                    button {
                        background: #4dabf7;
                        color: white;
                        border: none;
                        padding: 12px 24px;
                        border-radius: 6px;
                        margin: 0 10px;
                        cursor: pointer;
                        font-size: 16px;
                    }
                    button:hover {
                        background: #339af0;
                    }
                    .proceed-btn {
                        background: #ff8787;
                    }
                    .proceed-btn:hover {
                        background: #ff6b6b;
                    }
                </style>
            </head>
            <body>
                <div class="container">
                    <div class="icon">🛡️</div>
                    <h1>Content Blocked</h1>
                    <p>This content was identified as potentially low-value and has been blocked to help you avoid doomscrolling.</p>
                    
                    <div class="reason">
                        "#;

pub const REASON_LABEL: &'static str = "<strong>Reason:</strong> ";

pub const BLOCKED_PAGE_AFTER_REASON: &'static str = r#"<br>
                        "#;

pub const CATEGORY_LABEL: &'static str = "<strong>Category:</strong> ";

pub const BLOCKED_PAGE_AFTER_CATEGORY: &'static str = r#"<br>
                        "#;

pub const CONFIDENCE_LABEL: &'static str = "<strong>Confidence:</strong> ";

pub const BLOCKED_PAGE_AFTER_CONFIDENCE: &'static str = r#"%
                    </div>
                    
                    <div class="url">
                        "#;

pub const URL_LABEL: &'static str = "<strong>URL:</strong> ";

pub const BLOCKED_PAGE_AFTER_URL: &'static str = r#"
                    </div>
                    
                    <div class="actions">
                        <button onclick="history.back()">Go Back</button>
                        <button class="proceed-btn" onclick="proceedAnyway()">Proceed Anyway</button>
                    </div>
                </div>
                
                <script>
                    function proceedAnyway() {
                        if (confirm('Are you sure you want to view this content? It may lead to mindless scrolling.')) {
                            window.location.href = '"#;

pub const BYPASS_QUERY: &'static str = "?norot_bypass=1";

pub const BLOCKED_PAGE_TAIL: &'static str = r#"';
                        }
                    }
                </script>
            </body>
            </html>
            "#;

pub const WARNING_BANNER_HEAD: &'static str = r#"
        <div id="norot-warning" style="
            position: fixed;
            top: 0;
            left: 0;
            right: 0;
            background: linear-gradient(135deg, #ff9500, #ff6b35);
            color: white;
            padding: 12px 20px;
            text-align: center;
            font-family: -apple-system, BlinkMacSystemFont, 'Segoe UI', Roboto, sans-serif;
            font-size: 14px;
            box-shadow: 0 2px 10px rgba(0,0,0,0.3);
            z-index: 9999;
            cursor: pointer;
        " onclick="this.remove()">
            ⚠️ <strong>NoRot Warning:</strong> "#;

pub const CLASSIFIED_AS: &'static str = r#"This content was classified as ""#;

pub const WARNING_BANNER_AFTER_CATEGORY: &'static str = r#"" ("#;

pub const WARNING_BANNER_AFTER_CONFIDENCE: &'static str = r#"% confidence). "#;

pub const WARNING_BANNER_TAIL: &'static str = r#"
            <span style="float: right; font-size: 18px;">&times;</span>
        </div>
        <script>
            document.body.style.marginTop = '50px';
            setTimeout(() => {
                const warning = document.getElementById('norot-warning');
                if (warning) warning.remove();
                document.body.style.marginTop = '0';
            }, 5000);
        </script>
        "#;

/// The page shown in place of a blocked page: the reason, the category, the
/// confidence as a percentage with one decimal, and the URL, which the
/// "Proceed Anyway" button reopens with `?norot_bypass=1`.
pub open spec fn blocked_page(reason: Seq<char>, category: Seq<char>, confidence: u32, url: Seq<char>) -> Seq<char> {
    BLOCKED_PAGE_HEAD@ + REASON_LABEL@ + reason + BLOCKED_PAGE_AFTER_REASON@ + CATEGORY_LABEL@ + category
        + BLOCKED_PAGE_AFTER_CATEGORY@ + CONFIDENCE_LABEL@ + decimal(confidence as nat) + ".0"@
        + BLOCKED_PAGE_AFTER_CONFIDENCE@ + URL_LABEL@ + url + BLOCKED_PAGE_AFTER_URL@ + url + BYPASS_QUERY@
        + BLOCKED_PAGE_TAIL@
}

/// The banner laid over a page that the filter warns about: the category,
/// the confidence as a whole percentage, and the reason.
pub open spec fn warning_banner(category: Seq<char>, confidence: u32, reason: Seq<char>) -> Seq<char> {
    WARNING_BANNER_HEAD@ + CLASSIFIED_AS@ + category + WARNING_BANNER_AFTER_CATEGORY@ + decimal(confidence as nat)
        + WARNING_BANNER_AFTER_CONFIDENCE@ + reason + WARNING_BANNER_TAIL@
}

/// The page shown in place of a blocked page (`confidence` in hundredths).
pub fn blocked_page_html(reason: &str, category: &str, confidence: u32, url: &str) -> (s: String)
    ensures
        s@ == blocked_page(reason@, category@, confidence, url@),
{
    let mut s = BLOCKED_PAGE_HEAD.to_owned();
    s.append(REASON_LABEL);
    s.append(reason);
    s.append(BLOCKED_PAGE_AFTER_REASON);
    s.append(CATEGORY_LABEL);
    s.append(category);
    s.append(BLOCKED_PAGE_AFTER_CATEGORY);
    s.append(CONFIDENCE_LABEL);
    push_decimal(&mut s, confidence as u64);
    s.append(".0");
    s.append(BLOCKED_PAGE_AFTER_CONFIDENCE);
    s.append(URL_LABEL);
    s.append(url);
    s.append(BLOCKED_PAGE_AFTER_URL);
    s.append(url);
    s.append(BYPASS_QUERY);
    s.append(BLOCKED_PAGE_TAIL);
    s
}

/// The warning banner (`confidence` in hundredths).
pub fn warning_banner_html(category: &str, confidence: u32, reason: &str) -> (s: String)
    ensures
        s@ == warning_banner(category@, confidence, reason@),
{
    let mut s = WARNING_BANNER_HEAD.to_owned();
    s.append(CLASSIFIED_AS);
    s.append(category);
    s.append(WARNING_BANNER_AFTER_CATEGORY);
    push_decimal(&mut s, confidence as u64);
    s.append(WARNING_BANNER_AFTER_CONFIDENCE);
    s.append(reason);
    s.append(WARNING_BANNER_TAIL);
    s
}

} // verus!
