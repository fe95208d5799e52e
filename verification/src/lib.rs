//! Content filtering for a social media proxy: keyword classification,
//! rule-based filter decisions and the text processing around them.

pub mod classifier;
pub mod classifier_laws;
pub mod config;
pub mod db;
pub mod filter;
pub mod filter_laws;
pub mod laws;
pub mod pages;
pub mod proxy;
pub mod proxy_laws;
pub mod site;
pub mod text;
