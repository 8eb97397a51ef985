use onedark_nvim_rs::palette::Color;
use onedark_nvim_rs::util::{hex_to_rgb, DEFAULT_BG};

#[test]
fn channels_read_two_digits_each() {
    assert_eq!(hex_to_rgb(Color::parse("#ff8000").unwrap()), [255, 128, 0]);
    assert_eq!(hex_to_rgb(Color::parse("#282c34").unwrap()), [40, 44, 52]);
    assert_eq!(hex_to_rgb(Color::parse("#aBcDeF").unwrap()), [171, 205, 239]);
    assert_eq!(hex_to_rgb(Color::parse("#FFFFFF").unwrap()), [255, 255, 255]);
}

#[test]
fn default_background_is_black() {
    assert_eq!(hex_to_rgb(Color::parse(DEFAULT_BG).unwrap()), [0, 0, 0]);
    assert_eq!(DEFAULT_BG, "#000000");
}
