use aoi::fit::TextFit;
use aoi::widget::{
    artist_font, text_budget, title_font, widget_context, HEIGHT, WIDTH,
};
use aoi::options::{ColorMode, RenderOptions};

/// Runs a search with a width of ten pixels per character.
fn fit_with(text: &str, budget: u64) -> String {
    let mut f = TextFit::new(text);
    loop {
        let w = f.candidate().chars().count() as u64 * 10;
        if let Some(t) = f.measured(Some(w), budget) {
            return t;
        }
    }
}

#[test]
fn fitting_text_is_unchanged() {
    let f = TextFit::new("héllo wörld");
    assert_eq!(f.candidate(), "héllo wörld");
    assert_eq!(fit_with("abc", 30), "abc");
    assert_eq!(fit_with("abc", 1000), "abc");
}

#[test]
fn long_text_gets_ellipsis() {
    assert_eq!(fit_with("abcdef", 40), "abc\u{2026}");
    assert_eq!(fit_with("abcdef", 59), "abcd\u{2026}");
}

#[test]
fn zero_budget_gives_empty_text() {
    assert_eq!(fit_with("abcdef", 0), "");
}

#[test]
fn failed_measurement_counts_as_fitting() {
    let mut f = TextFit::new("abcdef");
    assert_eq!(f.measured(None, 0), Some("abcdef".to_string()));
}

#[test]
fn clusters_are_not_split() {
    let mut f = TextFit::new("ae\u{301}x");
    assert_eq!(f.graphemes.len(), 3);
    assert_eq!(f.measured(Some(100), 10), None);
    assert_eq!(f.candidate(), "ae\u{301}\u{2026}");
    assert_eq!(f.measured(Some(100), 10), None);
    assert_eq!(f.candidate(), "a\u{2026}");
    assert_eq!(f.measured(Some(100), 10), None);
    assert_eq!(f.candidate(), "");
    assert_eq!(f.measured(Some(100), 10), Some(String::new()));
}

#[test]
fn budget_of_the_canvas() {
    assert_eq!(text_budget(WIDTH, HEIGHT), 776);
    assert_eq!(text_budget(100, 90), 0);
    assert_eq!(title_font().size, 36);
    assert_eq!(artist_font().weight, 400);
}

#[test]
fn context_of_the_widget() {
    let o = RenderOptions::from_params(Some("light"), Some("#123456"), true);
    let c = widget_context("T".to_string(), "A".to_string(), Some("QUJD"), &o, false);
    assert_eq!(c.image, "data:image/jpeg;base64,QUJD");
    assert_eq!(c.color_mode, Some(ColorMode::Light));
    assert_eq!(c.fill.as_deref(), Some("#123456"));
    assert!(c.transparent);
    assert!(!c.listening);
    let bare = widget_context("T".to_string(), "A".to_string(), None, &o, true);
    assert_eq!(bare.image, "");
    assert!(bare.listening);
}
