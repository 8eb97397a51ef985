use onedark_nvim_rs::colors::{
    convert_lua_palette_to_struct, get_base_palette, get_colors, get_terminal_colors,
    select_colors,
};

fn table(pairs: &[(&str, &str)]) -> Vec<(String, String)> {
    pairs.iter().map(|(k, v)| (k.to_string(), v.to_string())).collect()
}

#[test]
fn lua_table_becomes_palette() {
    let t = table(&[("black", "#000000"), ("fg", "#ffffff"), ("unknown", "#123456")]);
    let p = convert_lua_palette_to_struct(&t);
    assert_eq!(p.black, "#000000");
    assert_eq!(p.fg, "#ffffff");
    assert_eq!(p.red, "");
    assert_eq!(p.diff_text, "");
    let q = get_base_palette(&t);
    assert_eq!(q.fg, "#ffffff");
}

#[test]
fn custom_colors_laid_over() {
    let base = table(&[("red", "#aa0000"), ("green", "#00aa00"), ("blue", "#0000aa")]);
    let custom = table(&[("red", "#ff0000"), ("nonsense", "#111111"), ("blue", "#0000ff"), ("blue", "#0000ee")]);
    let p = select_colors(&base, Some(&custom));
    assert_eq!(p.red, "#ff0000");
    assert_eq!(p.green, "#00aa00");
    assert_eq!(p.blue, "#0000ee");
    assert_eq!(p.black, "");
    let q = get_colors(&base, None);
    assert_eq!(q.red, "#aa0000");
}

#[test]
fn every_colour_settable_by_name() {
    let names = [
        "black", "bg0", "bg1", "bg2", "bg3", "bg_d", "bg_blue", "bg_yellow", "fg", "purple",
        "green", "orange", "blue", "yellow", "cyan", "red", "grey", "light_grey", "dark_cyan",
        "dark_red", "dark_yellow", "dark_purple", "diff_add", "diff_delete", "diff_change",
        "diff_text",
    ];
    let custom: Vec<(String, String)> =
        names.iter().map(|n| (n.to_string(), format!("v-{}", n))).collect();
    let p = select_colors(&Vec::new(), Some(&custom));
    assert_eq!(p.black, "v-black");
    assert_eq!(p.bg_d, "v-bg_d");
    assert_eq!(p.light_grey, "v-light_grey");
    assert_eq!(p.diff_text, "v-diff_text");
}

#[test]
fn terminal_map_of_colors() {
    assert!(get_terminal_colors(None).is_empty());
    let t = table(&[("black", "#000000"), ("red", "#ff0000"), ("grey", "#777777"), ("fg", "#eeeeee")]);
    let p = convert_lua_palette_to_struct(&t);
    let m = get_terminal_colors(Some(&p));
    assert_eq!(m.len(), 16);
    assert_eq!(m[&0], "#000000");
    assert_eq!(m[&1], "#ff0000");
    assert_eq!(m[&9], "#ff0000");
    assert_eq!(m[&8], "#777777");
    assert_eq!(m[&15], "#eeeeee");
    assert_eq!(m[&4], "");
}
