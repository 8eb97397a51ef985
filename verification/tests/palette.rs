use onedark_nvim_rs::config::{OneDarkConfig, OneDarkStyle};
use onedark_nvim_rs::palette::{
    get_palette, merge_palletes, Color, ConfigColorPalette, BAD_DIGITS, BAD_SHAPE,
};

fn unset_colors() -> ConfigColorPalette {
    ConfigColorPalette {
        black: None,
        bg0: None,
        bg1: None,
        bg2: None,
        bg3: None,
        bg_d: None,
        bg_blue: None,
        bg_yellow: None,
        fg: None,
        purple: None,
        green: None,
        orange: None,
        blue: None,
        yellow: None,
        cyan: None,
        red: None,
        grey: None,
        light_grey: None,
        dark_cyan: None,
        dark_red: None,
        dark_yellow: None,
        dark_purple: None,
        diff_add: None,
        diff_delete: None,
        diff_change: None,
        diff_text: None,
    }
}

#[test]
fn parse_accepts_lower_hex_color() {
    let c = Color::parse("#181a1f").unwrap();
    assert_eq!(c.as_str(), "#181a1f");
}

#[test]
fn parse_accepts_upper_hex_color() {
    let c = Color::parse("#ABCDEF").unwrap();
    assert_eq!(c.as_str(), "#ABCDEF");
}

#[test]
fn parse_rejects_short_color() {
    assert_eq!(Color::parse("#12345").unwrap_err(), BAD_SHAPE);
    assert_eq!(BAD_SHAPE, "Must be # followed by 6 hex digits");
}

#[test]
fn parse_rejects_missing_hash() {
    assert_eq!(Color::parse("1234567").unwrap_err(), BAD_SHAPE);
    assert_eq!(Color::parse("").unwrap_err(), BAD_SHAPE);
}

#[test]
fn parse_rejects_non_hex_digits() {
    assert_eq!(Color::parse("#12345g").unwrap_err(), BAD_DIGITS);
    assert_eq!(Color::parse("##12345").unwrap_err(), BAD_DIGITS);
    assert_eq!(BAD_DIGITS, "Invalid hex characters");
}

#[test]
fn parse_counts_bytes_not_characters() {
    // seven characters, but 'é' takes two bytes
    assert_eq!(Color::parse("#12345é").unwrap_err(), BAD_SHAPE);
}

#[test]
fn try_from_and_as_ref_agree_with_parse() {
    let c = Color::try_from("#00ff7F").unwrap();
    assert_eq!(c.as_ref(), "#00ff7F");
    assert!(Color::try_from("#00ff7").is_err());
}

#[test]
fn dark_palette_colors() {
    let p = get_palette(OneDarkStyle::Dark);
    assert_eq!(p.black.as_str(), "#181a1f");
    assert_eq!(p.bg0.as_str(), "#282c34");
    assert_eq!(p.red.as_str(), "#e86671");
    assert_eq!(p.diff_text.as_str(), "#2c5372");
}

#[test]
fn light_palette_colors() {
    let p = get_palette(OneDarkStyle::Light);
    assert_eq!(p.bg0.as_str(), "#fafafa");
    assert_eq!(p.fg.as_str(), "#383a42");
    assert_eq!(p.diff_add.as_str(), "#e2fbe4");
}

#[test]
fn every_style_has_its_own_background() {
    let expected = [
        (OneDarkStyle::Dark, "#282c34"),
        (OneDarkStyle::Darker, "#1f2329"),
        (OneDarkStyle::Cool, "#242b38"),
        (OneDarkStyle::Deep, "#1a212e"),
        (OneDarkStyle::Warm, "#2c2d30"),
        (OneDarkStyle::Warmer, "#232326"),
        (OneDarkStyle::Light, "#fafafa"),
    ];
    for (style, bg0) in expected {
        assert_eq!(get_palette(style).bg0.as_str(), bg0);
    }
}

#[test]
fn merge_without_user_colors_is_style_palette() {
    let mut config = OneDarkConfig::default();
    config.style = OneDarkStyle::Warm;
    let merged = merge_palletes(&config);
    let base = get_palette(OneDarkStyle::Warm);
    assert_eq!(merged.fg.as_str(), base.fg.as_str());
    assert_eq!(merged.black.as_str(), "#191a1c");
}

#[test]
fn merge_with_unset_user_colors_is_style_palette() {
    let mut config = OneDarkConfig::default();
    config.colors = Some(unset_colors());
    let merged = merge_palletes(&config);
    assert_eq!(merged.bg0.as_str(), "#282c34");
    assert_eq!(merged.diff_change.as_str(), "#1c3448");
}

#[test]
fn merge_puts_user_colors_first() {
    let mut colors = unset_colors();
    colors.fg = Some(Color::parse("#123456").unwrap());
    colors.red = Some(Color::parse("#ff0000").unwrap());
    let mut config = OneDarkConfig::default();
    config.style = OneDarkStyle::Deep;
    config.colors = Some(colors);
    let merged = merge_palletes(&config);
    assert_eq!(merged.fg.as_str(), "#123456");
    assert_eq!(merged.red.as_str(), "#ff0000");
    assert_eq!(merged.blue.as_str(), "#41a7fc");
}

#[test]
fn merge_is_idempotent() {
    let mut colors = unset_colors();
    colors.green = Some(Color::parse("#00aa00").unwrap());
    let mut config = OneDarkConfig::default();
    config.colors = Some(colors);
    let once = merge_palletes(&config);
    assert_eq!(once.green.as_str(), "#00aa00");
    let mut again = unset_colors();
    again.green = Some(once.green);
    config.colors = Some(again);
    let twice = merge_palletes(&config);
    assert_eq!(twice.green.as_str(), once.green.as_str());
    assert_eq!(twice.fg.as_str(), once.fg.as_str());
}
