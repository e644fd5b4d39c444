use useragent_worker::useragent::{
    browser, device, device_brand, is_bot, os, parse, version, UaParser, MAX_INPUT_BYTES,
};

// Stable, well-known UA strings with assertions that hold across uap-core
// updates (families, not exact versions).
const CHROME_WIN: &str = "Mozilla/5.0 (Windows NT 10.0; Win64; x64) AppleWebKit/537.36 \
    (KHTML, like Gecko) Chrome/120.0.0.0 Safari/537.36";
const IPHONE_SAFARI: &str = "Mozilla/5.0 (iPhone; CPU iPhone OS 17_0 like Mac OS X) \
    AppleWebKit/605.1.15 (KHTML, like Gecko) Version/17.0 Mobile/15E148 Safari/604.1";
const ANDROID_CHROME: &str = "Mozilla/5.0 (Linux; Android 13; Pixel 7) AppleWebKit/537.36 \
    (KHTML, like Gecko) Chrome/120.0.0.0 Mobile Safari/537.36";
const GOOGLEBOT: &str = "Mozilla/5.0 (compatible; Googlebot/2.1; +http://www.google.com/bot.html)";

fn parser() -> UaParser {
    UaParser::uap_core().expect("embedded uap-core regexes.yaml must compile into a parser")
}

#[test]
fn useragent_chrome_on_windows() {
    let parser = parser();
    let p = parse(&parser, CHROME_WIN);
    assert_eq!(p.browser.as_deref(), Some("Chrome"));
    assert_eq!(p.os.as_deref(), Some("Windows"));
    assert!(p.browser_version.as_deref().unwrap().starts_with("120"));
    assert!(!p.is_bot);
}

#[test]
fn iphone_safari() {
    let parser = parser();
    let p = parse(&parser, IPHONE_SAFARI);
    assert_eq!(p.os.as_deref(), Some("iOS"));
    assert_eq!(p.device.as_deref(), Some("iPhone"));
    assert_eq!(p.brand.as_deref(), Some("Apple"));
    assert!(!p.is_bot);
}

#[test]
fn useragent_android_chrome() {
    let parser = parser();
    let p = parse(&parser, ANDROID_CHROME);
    assert_eq!(p.os.as_deref(), Some("Android"));
    // Mobile Chrome reports family "Chrome Mobile" in uap-core.
    assert!(p.browser.as_deref().unwrap().starts_with("Chrome"));
    assert_eq!(p.brand.as_deref(), Some("Google"));
    assert!(!p.is_bot);
}

#[test]
fn googlebot_is_a_bot() {
    let parser = parser();
    assert!(is_bot(&parser, GOOGLEBOT));
    let p = parse(&parser, GOOGLEBOT);
    assert!(p.is_bot);
    // Bot device/brand are suppressed to NULL.
    assert_eq!(p.device, None);
    assert_eq!(p.brand, None);
}

#[test]
fn useragent_empty_and_garbage_are_null_not_panic() {
    let parser = parser();
    for ua in ["", "   ", "not a user agent", "%%%###@@@"] {
        let p = parse(&parser, ua);
        assert_eq!(p.browser, None, "ua={ua:?}");
        assert_eq!(p.os, None, "ua={ua:?}");
        assert_eq!(p.device, None, "ua={ua:?}");
        assert_eq!(p.brand, None, "ua={ua:?}");
        assert!(!p.is_bot, "ua={ua:?}");
    }
}

#[test]
fn scalar_accessors_match_parse() {
    let parser = parser();
    assert_eq!(browser(&parser, CHROME_WIN), Some("Chrome".into()));
    assert_eq!(os(&parser, CHROME_WIN), Some("Windows".into()));
    assert_eq!(os(&parser, IPHONE_SAFARI), Some("iOS".into()));
    assert_eq!(device(&parser, IPHONE_SAFARI), Some("iPhone".into()));
    assert_eq!(device_brand(&parser, IPHONE_SAFARI), Some("Apple".into()));
    assert!(is_bot(&parser, GOOGLEBOT));
    assert!(!is_bot(&parser, CHROME_WIN));
}

#[test]
fn oversized_input_is_bounded_not_panicking() {
    let parser = parser();
    let mut big = String::from(CHROME_WIN);
    big.push_str(&"x".repeat(MAX_INPUT_BYTES * 2));
    // Must not panic; still parses the meaningful prefix.
    let p = parse(&parser, &big);
    assert_eq!(p.browser.as_deref(), Some("Chrome"));
}

#[test]
fn version_assembly() {
    assert_eq!(version(&[Some("17"), Some("0"), None]), Some("17.0".into()));
    assert_eq!(version(&[Some("10"), None, None]), Some("10".into()));
    assert_eq!(version(&[None, Some("3")]), None);
    assert_eq!(version(&[]), None);
}
