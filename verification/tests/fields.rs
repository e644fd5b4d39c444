//! The single-field accessor scalars and `ua_is_bot`, driven over columns of
//! User-Agent values.

use useragent_worker::scalar::fields::{Field, UaField, UaIsBot};
use useragent_worker::scalar::SqlType;
use useragent_worker::useragent::UaParser;

const CHROME_WIN: &str = "Mozilla/5.0 (Windows NT 10.0; Win64; x64) AppleWebKit/537.36 \
    (KHTML, like Gecko) Chrome/120.0.0.0 Safari/537.36";
const IPHONE: &str = "Mozilla/5.0 (iPhone; CPU iPhone OS 17_0 like Mac OS X) \
    AppleWebKit/605.1.15 (KHTML, like Gecko) Version/17.0 Mobile/15E148 Safari/604.1";
const GOOGLEBOT: &str = "Mozilla/5.0 (compatible; Googlebot/2.1; +http://www.google.com/bot.html)";

fn parser() -> UaParser {
    UaParser::uap_core().expect("embedded uap-core regexes.yaml must compile into a parser")
}

#[test]
fn browser_and_os_bind_utf8_and_extract() {
    let parser = parser();
    let f = UaField::browser();
    assert_eq!(f.result_type(), SqlType::Varchar);
    let out = f.process_rows(&parser, &[Some(CHROME_WIN), None]);
    assert_eq!(out[0].as_deref(), Some("Chrome"));
    assert!(out[1].is_none(), "NULL in → NULL out");

    let osf = UaField::os();
    let out = osf.process_rows(&parser, &[Some(CHROME_WIN), Some(IPHONE)]);
    assert_eq!(out[0].as_deref(), Some("Windows"));
    assert_eq!(out[1].as_deref(), Some("iOS"));
}

#[test]
fn device_and_brand() {
    let parser = parser();
    let out = UaField::device().process_rows(&parser, &[Some(IPHONE)]);
    assert_eq!(out[0].as_deref(), Some("iPhone"));
    let out = UaField::device_brand().process_rows(&parser, &[Some(IPHONE)]);
    assert_eq!(out[0].as_deref(), Some("Apple"));
}

#[test]
fn garbage_yields_null_field() {
    let parser = parser();
    let out = UaField::browser().process_rows(&parser, &[Some("garbage"), Some("")]);
    assert!(out[0].is_none());
    assert!(out[1].is_none());
}

#[test]
fn is_bot_binds_boolean_and_detects_googlebot() {
    let parser = parser();
    assert_eq!(UaIsBot.result_type(), SqlType::Boolean);
    let out = UaIsBot.process_rows(&parser, &[Some(GOOGLEBOT), Some(CHROME_WIN), None]);
    assert!(out[0].unwrap(), "Googlebot must be a bot");
    assert!(!out[1].unwrap(), "Chrome must not be a bot");
    assert!(out[2].is_none(), "NULL in → NULL out");
}

#[test]
fn field_builders_name_their_scalars() {
    assert_eq!(UaField::browser().name(), "ua_browser");
    assert_eq!(UaField::browser_version().name(), "ua_browser_version");
    assert_eq!(UaField::os().name(), "ua_os");
    assert_eq!(UaField::os_version().name(), "ua_os_version");
    assert_eq!(UaField::device().name(), "ua_device");
    assert_eq!(UaField::device_brand().name(), "ua_device_brand");
    assert_eq!(UaField::device_brand().field(), Field::DeviceBrand);
    assert_eq!(UaIsBot.name(), "ua_is_bot");
}

#[test]
fn field_example_queries_use_the_chrome_user_agent() {
    let e = Field::OsVersion.example();
    assert_eq!(
        e.sql,
        "SELECT useragent.main.ua_os_version('Mozilla/5.0 (Windows NT 10.0; Win64; x64) \
         AppleWebKit/537.36 (KHTML, like Gecko) Chrome/120.0.0.0 Safari/537.36');"
    );
    assert_eq!(e.description, "Extract the operating-system version ('10') from a User-Agent.");
    assert_eq!(
        Field::Browser.description(),
        "Browser/client family from a User-Agent (e.g. 'Chrome'), or NULL"
    );
}

#[test]
fn field_tags_carry_title_docs_keywords_and_category() {
    let fields = [
        Field::Browser,
        Field::BrowserVersion,
        Field::Os,
        Field::OsVersion,
        Field::Device,
        Field::DeviceBrand,
    ];
    for f in fields {
        let tags = f.object_tags();
        let keys: Vec<&str> = tags.iter().map(|(k, _)| k.as_str()).collect();
        assert_eq!(keys, ["vgi.title", "vgi.doc_llm", "vgi.doc_md", "vgi.keywords", "vgi.category"]);
        // The two narratives must differ.
        assert_ne!(tags[1].1, tags[2].1);
        // The title is more than the machine name.
        assert_ne!(tags[0].1.to_lowercase().replace(' ', "_"), f.name());
        assert!(tags[3].1.starts_with("[\"") && tags[3].1.ends_with("\"]"));
        assert_eq!(tags[4].1, "scalar/fields.rs");
    }
    let tags = Field::Browser.object_tags();
    assert_eq!(tags[0].1, "Browser Family Name");
    assert_eq!(
        tags[3].1,
        "[\"browser\",\"client\",\"browser family\",\"chrome\",\"safari\",\"firefox\",\"edge\",\
         \"ua_browser\",\"user-agent\"]"
    );
    let tags = UaIsBot.object_tags();
    assert_eq!(tags[0].1, "Detect Bot Crawler");
    assert_ne!(tags[1].1, tags[2].1);
}

#[test]
fn field_docs_open_with_the_name_and_titles_are_distinct() {
    let fields = [
        Field::Browser,
        Field::BrowserVersion,
        Field::Os,
        Field::OsVersion,
        Field::Device,
        Field::DeviceBrand,
    ];
    let key = |s: &str| -> String {
        s.chars()
            .filter(|c| c.is_ascii_alphanumeric())
            .map(|c| c.to_ascii_lowercase())
            .collect()
    };
    let mut titles: Vec<String> = Vec::new();
    for f in fields {
        let tags = f.object_tags();
        assert!(tags[1].1.starts_with(&format!("## {}\n", f.name())));
        assert!(tags[2].1.starts_with("# "));
        assert!(tags[3].1.contains(&format!("\"{}\"", f.name())));
        assert!(tags[3].1.contains("\"user-agent\""));
        assert_ne!(key(&tags[0].1), key(f.name()));
        assert!(!titles.contains(&tags[0].1));
        titles.push(tags[0].1.clone());
    }
    assert_eq!(titles.len(), 6);
}

#[test]
fn extract_matches_the_accessors() {
    let parser = parser();
    assert_eq!(Field::Device.extract(&parser, IPHONE).as_deref(), Some("iPhone"));
    assert_eq!(Field::Device.extract(&parser, GOOGLEBOT), None);
    assert_eq!(Field::DeviceBrand.extract(&parser, CHROME_WIN), None);
    assert!(Field::BrowserVersion.extract(&parser, CHROME_WIN).unwrap().starts_with("120"));
}
