use aoi::options::{is_valid_fill, ColorMode, RenderOptions};

#[test]
fn invalid_fills_are_dropped() {
    let red = RenderOptions::from_params(None, Some("red"), false);
    assert!(red.fill.is_none());
    let short = RenderOptions::from_params(None, Some("#12"), false);
    assert!(short.fill.is_none());
    let five = RenderOptions::from_params(None, Some("#12345"), false);
    assert!(five.fill.is_none());
    let long = RenderOptions::from_params(None, Some("#1234567"), false);
    assert!(long.fill.is_none());
    let bad_digit = RenderOptions::from_params(None, Some("#abg"), false);
    assert!(bad_digit.fill.is_none());
}

#[test]
fn valid_fills_are_kept_verbatim() {
    let three = RenderOptions::from_params(None, Some("#abc"), false);
    assert_eq!(three.fill.as_deref(), Some("#abc"));
    let six = RenderOptions::from_params(None, Some("#1a2b3c"), false);
    assert_eq!(six.fill.as_deref(), Some("#1a2b3c"));
    let upper = RenderOptions::from_params(None, Some("#ABCDEF"), false);
    assert_eq!(upper.fill.as_deref(), Some("#ABCDEF"));
}

#[test]
fn fill_validation() {
    assert!(is_valid_fill("#fff"));
    assert!(!is_valid_fill("fff"));
    assert!(!is_valid_fill(""));
    assert!(!is_valid_fill("#"));
}

#[test]
fn color_modes_parse() {
    assert_eq!(ColorMode::parse("light"), Some(ColorMode::Light));
    assert_eq!(ColorMode::parse("dark"), Some(ColorMode::Dark));
    assert_eq!(ColorMode::parse("Dark"), None);
    assert_eq!(ColorMode::parse(""), None);
    let o = RenderOptions::from_params(Some("dark"), None, true);
    assert_eq!(o.color_mode, Some(ColorMode::Dark));
    assert!(o.transparent);
    let unknown = RenderOptions::from_params(Some("sepia"), None, false);
    assert_eq!(unknown.color_mode, None);
    assert!(!unknown.transparent);
}

#[test]
fn cache_keys_depend_on_identity_and_options() {
    let plain = RenderOptions::from_params(None, None, false);
    assert_eq!(plain.cache_key("alice"), "default|default|default|alice");
    let full = RenderOptions::from_params(Some("light"), Some("#abc"), true);
    assert_eq!(full.cache_key("bob"), "light|#abc|transparent|bob");
    let invalid = RenderOptions::from_params(Some("x"), Some("red"), false);
    assert_eq!(invalid.cache_key("alice"), plain.cache_key("alice"));
    assert_ne!(plain.cache_key("alice"), plain.cache_key("bob"));
}
