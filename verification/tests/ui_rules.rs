use waylyrics::actions::{extract_str_array, signal_action, SignalAction};
use waylyrics::appearance::{adjust_font_size, appearance_css, reset_font_sizes};
use waylyrics::filter::{filter_enabled, label_visible, FilterError, WordFilter};
use waylyrics::theme::{choose_theme, should_migrate_theme, theme_file_name, ThemeChoice, MIGRATED_THEME};

fn original_css(above: i32, below: i32, above_color: &str, below_color: &str, glow_color: &str, below_glow_color: &str) -> String {
    format!(
        "label#above {{
            font-size: {above}px;
            color: {above_color};
            text-shadow:
                -1px -1px 0 rgba(0, 0, 0, 0.95),
                 1px -1px 0 rgba(0, 0, 0, 0.95),
                -1px  1px 0 rgba(0, 0, 0, 0.95),
                 1px  1px 0 rgba(0, 0, 0, 0.95),
                 0 0 5px {glow_color},
                 0 0 14px {glow_color};
        }}
        label#below {{
            font-size: {below}px;
            color: {below_color};
            text-shadow:
                -1px -1px 0 rgba(0, 0, 0, 0.90),
                 1px -1px 0 rgba(0, 0, 0, 0.90),
                -1px  1px 0 rgba(0, 0, 0, 0.90),
                 1px  1px 0 rgba(0, 0, 0, 0.90),
                 0 0 5px {below_glow_color},
                 0 0 12px {below_glow_color};
        }}"
    )
}

#[test]
fn appearance_css_matches_the_template() {
    let css = appearance_css(28, 24, "#ffffff", "rgba(200, 200, 200, 0.800)", "#00aaff", "rgba(0, 170, 255, 0.500)");
    assert_eq!(css, original_css(28, 24, "#ffffff", "rgba(200, 200, 200, 0.800)", "#00aaff", "rgba(0, 170, 255, 0.500)"));
    assert!(css.starts_with("label#above {\n            font-size: 28px;"));
    for (a, b) in [(0, 9), (10, 100), (-7, i32::MIN), (i32::MAX, 72)] {
        assert_eq!(appearance_css(a, b, "x", "y", "z", "w"), original_css(a, b, "x", "y", "z", "w"));
    }
}

#[test]
fn font_size_steps_stay_in_range() {
    assert_eq!(adjust_font_size(28, 24, 2), (30, 26));
    assert_eq!(adjust_font_size(28, 24, -2), (26, 22));
    assert_eq!(adjust_font_size(72, 64, 2), (72, 64));
    assert_eq!(adjust_font_size(14, 12, -2), (14, 12));
    assert_eq!(adjust_font_size(15, 13, -2), (14, 12));
    assert_eq!(adjust_font_size(100, 0, 0), (72, 12));
    let (a, b) = adjust_font_size(30, 30, 2);
    assert_eq!(adjust_font_size(a, b, -2), (30, 30));
    assert_eq!(reset_font_sizes(), (28, 24));
}

fn strings(items: &[&str]) -> Vec<String> {
    items.iter().map(|s| s.to_string()).collect()
}

#[test]
fn set_label_arguments() {
    assert_eq!(
        extract_str_array(&strings(&["above", "hello"])),
        Some(("above".to_owned(), "hello".to_owned()))
    );
    assert_eq!(
        extract_str_array(&strings(&["below", "", "extra"])),
        Some(("below".to_owned(), "".to_owned()))
    );
    assert_eq!(extract_str_array(&strings(&["middle", "hello"])), None);
    assert_eq!(extract_str_array(&strings(&["above"])), None);
    assert_eq!(extract_str_array(&strings(&[])), None);
}

#[test]
fn dbus_signals() {
    assert!(matches!(
        signal_action("SetAboveLabel", Some("up".to_owned())),
        SignalAction::SetAboveLabel(t) if t == "up"
    ));
    assert!(matches!(
        signal_action("SetBelowLabel", Some("down".to_owned())),
        SignalAction::SetBelowLabel(t) if t == "down"
    ));
    assert!(matches!(signal_action("SetBelowLabel", None), SignalAction::InvalidArguments));
    assert!(matches!(signal_action("LoadLyricCache", Some("p".to_owned())), SignalAction::Ignore));
    assert!(matches!(signal_action("NewLyricCache", None), SignalAction::Unknown));
    assert!(matches!(signal_action("setabovelabel", Some("x".to_owned())), SignalAction::Unknown));
}

#[test]
fn word_filter_hides_matching_labels() {
    let filter = match WordFilter::new(&strings(&["(?i)advert", r"^\d+$"])) {
        Ok(f) => f,
        Err(_) => panic!("valid patterns were refused"),
    };
    assert!(filter.has_filtered_word("an ADVERT here"));
    assert!(filter.has_filtered_word("12345"));
    assert!(!filter.has_filtered_word("a lyric line"));
    assert!(!label_visible("an advert", true, &filter));
    assert!(label_visible("an advert", false, &filter));
    assert!(label_visible("a lyric line", true, &filter));
    assert!(!label_visible("", true, &filter));
    assert!(!label_visible("", false, &filter));
}

#[test]
fn empty_filter_hides_only_empty_labels() {
    let filter = WordFilter::empty();
    assert!(!filter.has_filtered_word("anything"));
    assert!(label_visible("anything", true, &filter));
    assert!(!label_visible("", true, &filter));
}

#[test]
fn invalid_pattern_is_refused() {
    match WordFilter::new(&strings(&["ok", "(unclosed"])) {
        Err(FilterError::InvalidPattern(message)) => assert!(!message.is_empty()),
        Ok(_) => panic!("an invalid pattern was accepted"),
    }
}

#[test]
fn filtering_needs_a_pattern() {
    assert!(filter_enabled(true, &strings(&["x"])));
    assert!(!filter_enabled(true, &strings(&[])));
    assert!(!filter_enabled(false, &strings(&["x"])));
}

#[test]
fn theme_rules() {
    assert_eq!(theme_file_name("default"), "default.css");
    assert_eq!(theme_file_name(MIGRATED_THEME), "cool-glow.css");
    assert!(matches!(choose_theme(true, true), ThemeChoice::User));
    assert!(matches!(choose_theme(true, false), ThemeChoice::User));
    assert!(matches!(choose_theme(false, true), ThemeChoice::Preset));
    assert!(matches!(choose_theme(false, false), ThemeChoice::Missing));
    assert!(should_migrate_theme("default", false, true));
    assert!(!should_migrate_theme("default", true, true));
    assert!(!should_migrate_theme("default", false, false));
    assert!(!should_migrate_theme("cool-glow", false, true));
    assert!(!should_migrate_theme("Default", false, true));
}

use waylyrics::passthrough::{input_region, InputRect};

fn rect(r: InputRect) -> (i32, i32, i32, i32) {
    (r.x, r.y, r.width, r.height)
}

#[test]
fn passthrough_input_regions() {
    let bar = InputRect { x: 3, y: 4, width: 300, height: 40 };
    assert_eq!(rect(input_region(false, true, bar)), (0, 0, i32::MAX, i32::MAX));
    assert_eq!(rect(input_region(false, false, bar)), (0, 0, i32::MAX, i32::MAX));
    assert_eq!(rect(input_region(true, false, bar)), (0, 0, 0, 0));
    assert_eq!(rect(input_region(true, true, bar)), (3, 4, 300, 40));
}

use waylyrics::passthrough::click_through_ex_style;
use waylyrics::theme::{choose_presets_dir, PresetsSource};

#[test]
fn windows_click_through_style_bits() {
    assert_eq!(click_through_ex_style(0x100, true), 0x80120);
    assert_eq!(click_through_ex_style(0x80120, false), 0x100);
    assert_eq!(click_through_ex_style(0x80020, true), 0x80020);
    assert_eq!(click_through_ex_style(0, false), 0);
    assert_eq!(click_through_ex_style(-1, false), -1 & !0x20 & !0x80000);
}

#[test]
fn presets_dir_preference() {
    assert!(matches!(choose_presets_dir(true, true, true, true), Some(PresetsSource::Env)));
    assert!(matches!(choose_presets_dir(false, true, true, true), Some(PresetsSource::BesideExe)));
    assert!(matches!(choose_presets_dir(false, false, true, true), Some(PresetsSource::AboveExe)));
    assert!(matches!(choose_presets_dir(false, false, false, true), Some(PresetsSource::Compiled)));
    assert!(choose_presets_dir(false, false, false, false).is_none());
}
