use onedark_nvim_rs::config::{OneDarkConfig, OneDarkStyle};
use onedark_nvim_rs::highlights::FmtType;

#[test]
fn all_styles_in_order() {
    let all = OneDarkStyle::all_styles();
    assert_eq!(
        all,
        vec![
            OneDarkStyle::Dark,
            OneDarkStyle::Darker,
            OneDarkStyle::Cool,
            OneDarkStyle::Deep,
            OneDarkStyle::Warm,
            OneDarkStyle::Warmer,
            OneDarkStyle::Light,
        ]
    );
}

#[test]
fn every_style_listed_once() {
    let all = OneDarkStyle::all_styles();
    for (i, a) in all.iter().enumerate() {
        for (j, b) in all.iter().enumerate() {
            assert_eq!(i == j, a == b);
        }
    }
}

#[test]
fn default_style_is_dark() {
    assert_eq!(OneDarkStyle::default(), OneDarkStyle::Dark);
}

#[test]
fn default_config_values() {
    let c = OneDarkConfig::default();
    assert_eq!(c.style, OneDarkStyle::Dark);
    assert_eq!(c.toggle_style_list, OneDarkStyle::all_styles());
    assert_eq!(c.toggle_style_index, 0);
    assert!(c.toggle_style_key.is_none());
    assert!(!c.transparent);
    assert!(c.term_colors);
    assert!(!c.ending_tildes);
    assert!(!c.cmp_itemkind_reverse);
    assert_eq!(c.code_style.comments, Some(vec![FmtType::Italic]));
    assert!(c.code_style.keywords.is_none());
    assert!(c.code_style.functions.is_none());
    assert!(c.code_style.strings.is_none());
    assert!(c.code_style.variables.is_none());
    assert!(!c.lualine.transparent);
    assert!(c.colors.is_none());
    assert!(c.highlights.is_none());
    assert!(c.diagnostics.darker);
    assert!(c.diagnostics.undercurl);
    assert!(c.diagnostics.background);
}

#[test]
fn toggle_moves_to_next_style() {
    let mut c = OneDarkConfig::default();
    let bg = c.toggle_style();
    assert_eq!(c.toggle_style_index, 1);
    assert_eq!(c.style, OneDarkStyle::Darker);
    assert_eq!(bg, "dark");
}

#[test]
fn toggle_to_light_asks_for_light_background() {
    let mut c = OneDarkConfig::default();
    c.toggle_style_index = 5;
    let bg = c.toggle_style();
    assert_eq!(c.toggle_style_index, 6);
    assert_eq!(c.style, OneDarkStyle::Light);
    assert_eq!(bg, "light");
}

#[test]
fn toggle_wraps_at_end_of_list() {
    let mut c = OneDarkConfig::default();
    c.toggle_style_index = 6;
    c.style = OneDarkStyle::Light;
    let bg = c.toggle_style();
    assert_eq!(c.toggle_style_index, 0);
    assert_eq!(c.style, OneDarkStyle::Dark);
    assert_eq!(bg, "dark");
}

#[test]
fn toggle_cycle_returns_to_start() {
    let mut c = OneDarkConfig::default();
    c.toggle_style_index = 3;
    let start = c.toggle_style_list[3];
    for _ in 0..7 {
        c.toggle_style();
    }
    assert_eq!(c.toggle_style_index, 3);
    assert_eq!(c.style, start);
}

#[test]
fn toggle_custom_list() {
    let mut c = OneDarkConfig::default();
    c.toggle_style_list = vec![OneDarkStyle::Light, OneDarkStyle::Cool];
    assert_eq!(c.toggle_style(), "dark");
    assert_eq!(c.style, OneDarkStyle::Cool);
    assert_eq!(c.toggle_style(), "light");
    assert_eq!(c.style, OneDarkStyle::Light);
    assert_eq!(c.toggle_style_index, 0);
    assert!(c.term_colors);
}
