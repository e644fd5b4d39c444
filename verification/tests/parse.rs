//! Black-box exercise of the pure User-Agent parsing over well-known
//! User-Agent strings.

use useragent_worker::useragent::{is_bot, parse, UaParser};

const CHROME_WIN: &str = "Mozilla/5.0 (Windows NT 10.0; Win64; x64) AppleWebKit/537.36 \
    (KHTML, like Gecko) Chrome/120.0.0.0 Safari/537.36";
const IPHONE_SAFARI: &str = "Mozilla/5.0 (iPhone; CPU iPhone OS 17_0 like Mac OS X) \
    AppleWebKit/605.1.15 (KHTML, like Gecko) Version/17.0 Mobile/15E148 Safari/604.1";
const ANDROID_CHROME: &str = "Mozilla/5.0 (Linux; Android 13; Pixel 7) AppleWebKit/537.36 \
    (KHTML, like Gecko) Chrome/120.0.0.0 Mobile Safari/537.36";
const GOOGLEBOT: &str = "Mozilla/5.0 (compatible; Googlebot/2.1; +http://www.google.com/bot.html)";

fn parser() -> UaParser {
    UaParser::uap_core().expect("embedded uap-core regexes.yaml must compile into a parser")
}

#[test]
fn parse_chrome_on_windows() {
    let parser = parser();
    let p = parse(&parser, CHROME_WIN);
    assert_eq!(p.browser.as_deref(), Some("Chrome"));
    assert_eq!(p.os.as_deref(), Some("Windows"));
    assert!(!p.is_bot);
}

#[test]
fn iphone_safari_is_ios_iphone() {
    let parser = parser();
    let p = parse(&parser, IPHONE_SAFARI);
    assert_eq!(p.os.as_deref(), Some("iOS"));
    assert_eq!(p.device.as_deref(), Some("iPhone"));
    assert_eq!(p.brand.as_deref(), Some("Apple"));
    assert!(!p.is_bot);
}

#[test]
fn parse_android_chrome() {
    let parser = parser();
    let p = parse(&parser, ANDROID_CHROME);
    assert_eq!(p.os.as_deref(), Some("Android"));
    assert!(p.browser.as_deref().unwrap().starts_with("Chrome"));
    assert_eq!(p.brand.as_deref(), Some("Google"));
    assert!(!p.is_bot);
}

#[test]
fn googlebot_is_bot() {
    let parser = parser();
    assert!(is_bot(&parser, GOOGLEBOT));
    let p = parse(&parser, GOOGLEBOT);
    assert!(p.is_bot);
    assert_eq!(p.device, None);
}

#[test]
fn parse_empty_and_garbage_are_null_not_panic() {
    let parser = parser();
    for ua in ["", "garbage", "%%%%"] {
        let p = parse(&parser, ua);
        assert_eq!(p.browser, None);
        assert_eq!(p.os, None);
        assert_eq!(p.device, None);
        assert!(!p.is_bot);
    }
}

#[test]
fn parse_struct_fields_one_shot() {
    let parser = parser();
    let p = parse(&parser, IPHONE_SAFARI);
    assert_eq!(p.os.as_deref(), Some("iOS"));
    assert!(p.os_version.is_some());
    assert!(p.browser.is_some());
    assert!(p.browser_version.is_some());
    assert_eq!(p.device.as_deref(), Some("iPhone"));
    assert_eq!(p.brand.as_deref(), Some("Apple"));
    assert!(!p.is_bot);
}
