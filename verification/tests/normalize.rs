//! The mapping from what uap-core reports to the worker's fields, bounding of
//! the input, trimming, and the keyword JSON.

use useragent_worker::meta::{keywords_json, object_tags};
use useragent_worker::text::trim_str;
use useragent_worker::uap::RawClient;
use useragent_worker::useragent::{
    bound, from_client, is_bot, norm_family, norm_opt, parse, version, UaParser, MAX_INPUT_BYTES,
};

fn raw(browser: &str, os: &str, device: &str, brand: Option<&str>) -> RawClient {
    RawClient {
        browser_family: browser.to_string(),
        browser_major: Some("120".to_string()),
        browser_minor: Some("0".to_string()),
        browser_patch: None,
        os_family: os.to_string(),
        os_major: Some(" 17 ".to_string()),
        os_minor: Some("".to_string()),
        os_patch: Some("3".to_string()),
        os_patch_minor: None,
        device_family: device.to_string(),
        device_brand: brand.map(|b| b.to_string()),
    }
}

#[test]
fn other_and_blank_families_are_unknown() {
    assert_eq!(norm_family("Other"), None);
    assert_eq!(norm_family("  "), None);
    assert_eq!(norm_family(""), None);
    assert_eq!(norm_family(" Chrome "), Some("Chrome".to_string()));
    assert_eq!(norm_family("Others"), Some("Others".to_string()));
    assert_eq!(norm_opt(Some(" ")), None);
    assert_eq!(norm_opt(Some(" Apple")), Some(" Apple".to_string()));
    assert_eq!(norm_opt(None), None);
}

#[test]
fn client_fields_map_into_parsed() {
    let p = from_client(&raw("Chrome", "iOS", "iPhone", Some("Apple")));
    assert_eq!(p.browser.as_deref(), Some("Chrome"));
    assert_eq!(p.browser_version.as_deref(), Some("120.0"));
    assert_eq!(p.os.as_deref(), Some("iOS"));
    assert_eq!(p.os_version.as_deref(), Some("17"));
    assert_eq!(p.device.as_deref(), Some("iPhone"));
    assert_eq!(p.brand.as_deref(), Some("Apple"));
    assert!(!p.is_bot);
}

#[test]
fn unknown_families_drop_their_versions() {
    let p = from_client(&raw("Other", "Other", "Other", None));
    assert_eq!(p.browser, None);
    assert_eq!(p.browser_version, None);
    assert_eq!(p.os, None);
    assert_eq!(p.os_version, None);
    assert_eq!(p.device, None);
    assert_eq!(p.brand, None);
    assert!(!p.is_bot);
}

#[test]
fn spider_family_is_a_bot_without_device() {
    let p = from_client(&raw("Googlebot", "Other", "Spider", Some("Spider")));
    assert!(p.is_bot);
    assert_eq!(p.device, None);
    assert_eq!(p.brand, None);
    assert_eq!(p.browser.as_deref(), Some("Googlebot"));
    // Only the exact family "Spider" marks a bot.
    assert!(!from_client(&raw("X", "Other", " Spider", None)).is_bot);
}

#[test]
fn version_keeps_the_leading_run() {
    assert_eq!(version(&[Some("17"), Some(" "), Some("3")]), Some("17".to_string()));
    assert_eq!(version(&[Some(" 1 "), Some("2"), Some("3"), Some("4")]), Some("1.2.3.4".to_string()));
    assert_eq!(version(&[Some(""), Some("2")]), None);
}

#[test]
fn trim_removes_unicode_white_space() {
    assert_eq!(trim_str("\u{3000} a b\t\n"), "a b");
    assert_eq!(trim_str("   "), "");
    assert_eq!(trim_str("x"), "x");
}

#[test]
fn bound_cuts_at_a_character_boundary() {
    let short = "Mozilla/5.0";
    assert_eq!(bound(short), short);
    let two_byte = "é".repeat(40_000);
    let b = bound(&two_byte);
    assert_eq!(b.len(), MAX_INPUT_BYTES);
    assert_eq!(b.chars().count(), MAX_INPUT_BYTES / 2);
    let three_byte = "€".repeat(30_000);
    let b = bound(&three_byte);
    assert_eq!(b.len(), MAX_INPUT_BYTES - 1);
    assert!(three_byte.starts_with(b));
    assert_eq!(bound(b), b);
}

#[test]
fn oversized_bot_is_still_a_bot() {
    let parser = UaParser::uap_core().unwrap();
    let mut big = String::from("Mozilla/5.0 (compatible; Googlebot/2.1; +http://www.google.com/bot.html)");
    big.push_str(&"y".repeat(MAX_INPUT_BYTES + 10));
    assert!(is_bot(&parser, &big));
    assert_eq!(is_bot(&parser, &big), parse(&parser, &big).is_bot);
}

#[test]
fn a_broken_database_is_refused() {
    assert!(UaParser::from_yaml("not: [valid").is_err());
    assert!(UaParser::from_yaml("user_agent_parsers: []\nos_parsers: []\ndevice_parsers:\n  - regex: '(unclosed'\n").is_err());
    let empty = UaParser::from_yaml("user_agent_parsers: []\nos_parsers: []\ndevice_parsers: []\n").unwrap();
    let p = parse(&empty, "Mozilla/5.0 (iPhone)");
    assert_eq!(p.browser, None);
    assert_eq!(p.device, None);
}

#[test]
fn keywords_become_a_json_array() {
    assert_eq!(keywords_json("a, b"), "[\"a\",\"b\"]");
    assert_eq!(keywords_json(" , x,, y "), "[\"x\",\"y\"]");
    assert_eq!(keywords_json(""), "[]");
    assert_eq!(keywords_json("say \"hi\", back\\slash"), "[\"say \\\"hi\\\"\",\"back\\\\slash\"]");
    assert_eq!(keywords_json("a\u{1}b"), "[\"a\\u0001b\"]");
}

#[test]
fn object_tags_are_in_order() {
    let tags = object_tags("T", "L", "M", "k1, k2", "C");
    let expected: Vec<(String, String)> = vec![
        ("vgi.title".to_string(), "T".to_string()),
        ("vgi.doc_llm".to_string(), "L".to_string()),
        ("vgi.doc_md".to_string(), "M".to_string()),
        ("vgi.keywords".to_string(), "[\"k1\",\"k2\"]".to_string()),
        ("vgi.category".to_string(), "C".to_string()),
    ];
    assert_eq!(tags, expected);
}
