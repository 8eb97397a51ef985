use onedark_nvim_rs::config::{OneDarkConfig, OneDarkStyle};
use onedark_nvim_rs::terminal::setup;

#[test]
fn terminal_colors_of_dark() {
    let vars = setup(&OneDarkConfig::default());
    assert_eq!(vars.len(), 16);
    for (i, (name, _)) in vars.iter().enumerate() {
        assert_eq!(*name, format!("terminal_color_{}", i));
    }
    assert_eq!(vars[0].1.as_str(), "#181a1f");
    assert_eq!(vars[1].1.as_str(), "#e86671");
    assert_eq!(vars[7].1.as_str(), "#abb2bf");
    assert_eq!(vars[8].1.as_str(), "#5c6370");
}

#[test]
fn bright_terminal_colors_repeat_standard() {
    let mut c = OneDarkConfig::default();
    c.style = OneDarkStyle::Cool;
    let vars = setup(&c);
    for k in 1..8 {
        assert_eq!(vars[k].1.as_str(), vars[k + 8].1.as_str());
    }
    assert_ne!(vars[0].1.as_str(), vars[8].1.as_str());
}

#[test]
fn terminal_colors_off() {
    let mut c = OneDarkConfig::default();
    c.term_colors = false;
    assert!(setup(&c).is_empty());
}
