//! The one-shot `ua_parse` scalar and the `useragent_version` scalar.

use useragent_worker::scalar::parse::{UaParse, EXECUTABLE_EXAMPLES};
use useragent_worker::scalar::version::UseragentVersion;
use useragent_worker::scalar::SqlType;
use useragent_worker::useragent::UaParser;

const CHROME_WIN: &str = "Mozilla/5.0 (Windows NT 10.0; Win64; x64) AppleWebKit/537.36 \
    (KHTML, like Gecko) Chrome/120.0.0.0 Safari/537.36";
const IPHONE: &str = "Mozilla/5.0 (iPhone; CPU iPhone OS 17_0 like Mac OS X) \
    AppleWebKit/605.1.15 (KHTML, like Gecko) Version/17.0 Mobile/15E148 Safari/604.1";
const GOOGLEBOT: &str = "Mozilla/5.0 (compatible; Googlebot/2.1; +http://www.google.com/bot.html)";

#[test]
fn bind_declares_the_struct_the_process_builds() {
    assert_eq!(UaParse.result_type(), SqlType::ParseStruct);
}

#[test]
fn process_parses_struct_fields() {
    let parser = UaParser::uap_core().expect("embedded uap-core regexes.yaml must compile");
    let out = UaParse.process_rows(
        &parser,
        &[Some(CHROME_WIN), Some(IPHONE), Some(GOOGLEBOT), None, Some("garbage")],
    );
    assert_eq!(UaParse.result_type(), SqlType::ParseStruct);
    assert_eq!(out.len(), 5);

    // Chrome / Windows.
    let p = out[0].as_ref().unwrap();
    assert_eq!(p.browser.as_deref(), Some("Chrome"));
    assert_eq!(p.os.as_deref(), Some("Windows"));
    assert!(!p.is_bot);

    // iPhone / iOS.
    let p = out[1].as_ref().unwrap();
    assert_eq!(p.os.as_deref(), Some("iOS"));
    assert_eq!(p.device.as_deref(), Some("iPhone"));
    assert_eq!(p.brand.as_deref(), Some("Apple"));

    // Googlebot is a bot.
    assert!(out[2].as_ref().unwrap().is_bot);

    // NULL input → NULL struct row.
    assert!(out[3].is_none());

    // garbage → non-null row but all-NULL fields, is_bot false.
    let p = out[4].as_ref().unwrap();
    assert!(p.browser.is_none());
    assert!(p.os.is_none());
    assert!(!p.is_bot);
}

#[test]
fn ua_parse_tags_end_with_the_executable_examples() {
    let tags = UaParse.object_tags();
    assert_eq!(tags.len(), 6);
    assert_eq!(tags[0].1, "Parse User-Agent Fields");
    assert_eq!(tags[4].1, "scalar/parse.rs");
    assert_eq!(tags[5].0, "vgi.executable_examples");
    assert_eq!(tags[5].1, EXECUTABLE_EXAMPLES);
    assert!(EXECUTABLE_EXAMPLES.trim_start().starts_with('['));
    assert_ne!(tags[1].1, tags[2].1);
    assert_eq!(UaParse.name(), "ua_parse");
}

#[test]
fn version_scalar_repeats_the_version_in_every_row() {
    let v = UseragentVersion;
    assert_eq!(v.name(), "useragent_version");
    assert_eq!(v.result_type(), SqlType::Varchar);
    assert_eq!(v.process_rows(3, "0.1.0"), vec!["0.1.0".to_string(); 3]);
    assert!(v.process_rows(0, "0.1.0").is_empty());
    assert_eq!(v.example().sql, "SELECT useragent.main.useragent_version();");
    let tags = v.object_tags();
    assert_eq!(tags[0].1, "User-Agent Worker Version");
    assert_eq!(tags[4].1, "scalar/version.rs");
}
