use onedark_nvim_rs::config::OneDarkConfig;
use onedark_nvim_rs::groups::DiagnosticColors;
use onedark_nvim_rs::highlights::{
    clone_fmt, diagnostic_colors, fmt_contains, merge_highlights, setup, vim_highlights,
    ColorSetting, ConfigHighlights, FmtType, HighlightCommand, HighlightGroup, HighlightTable,
    TableSet,
};
use onedark_nvim_rs::palette::{get_palette, merge_palletes, Color, ColorPalette};
use onedark_nvim_rs::config::OneDarkStyle;

fn color(s: &str) -> Color {
    Color::parse(s).unwrap()
}

fn text(c: &Option<Color>) -> Option<String> {
    c.as_ref().map(|c| c.as_str().to_string())
}

fn setting(s: &Option<ColorSetting>) -> Option<String> {
    match s {
        None => None,
        Some(ColorSetting::NoColor) => Some("none".to_string()),
        Some(ColorSetting::Hex(c)) => Some(c.as_str().to_string()),
    }
}

fn shades() -> DiagnosticColors {
    DiagnosticColors {
        error: color("#111111"),
        warn: color("#222222"),
        info: color("#333333"),
        hint: color("#444444"),
    }
}

fn find<'a>(t: &'a HighlightTable, name: &str) -> &'a HighlightGroup {
    for i in 0..t.len() {
        if t.name(i) == name {
            return t.group(i);
        }
    }
    panic!("no group {}", name)
}

fn find_set<'a>(s: &'a TableSet, name: &str) -> &'a HighlightTable {
    for i in 0..s.len() {
        if s.name(i) == name {
            return s.table(i);
        }
    }
    panic!("no table {}", name)
}

fn palette() -> ColorPalette {
    get_palette(OneDarkStyle::Dark)
}

#[test]
fn builders_set_one_field() {
    let g = HighlightGroup::with_fg(&color("#010203"));
    assert_eq!(text(&g.fg), Some("#010203".to_string()));
    assert!(g.bg.is_none() && g.sp.is_none() && g.fmt.is_none());
    let g = HighlightGroup::with_bg(Some(&color("#040506")));
    assert_eq!(text(&g.bg), Some("#040506".to_string()));
    assert!(g.fg.is_none() && g.sp.is_none() && g.fmt.is_none());
    let g = HighlightGroup::with_sp(None::<&Color>);
    assert!(g.fg.is_none() && g.bg.is_none() && g.sp.is_none() && g.fmt.is_none());
    let g = HighlightGroup::with_fmt(Some(vec![FmtType::Bold]));
    assert_eq!(g.fmt, Some(vec![FmtType::Bold]));
    assert!(g.fg.is_none() && g.bg.is_none() && g.sp.is_none());
}

#[test]
fn setters_replace_one_field() {
    let g = HighlightGroup::with_fg(&color("#010203"))
        .bg(&color("#040506"))
        .sp(Some(color("#070809")))
        .fmt(Some(vec![FmtType::Italic, FmtType::Underline]));
    assert_eq!(text(&g.fg), Some("#010203".to_string()));
    assert_eq!(text(&g.bg), Some("#040506".to_string()));
    assert_eq!(text(&g.sp), Some("#070809".to_string()));
    assert_eq!(g.fmt, Some(vec![FmtType::Italic, FmtType::Underline]));
    let g = g.fg(None::<Color>).bg(None::<&Color>);
    assert!(g.fg.is_none() && g.bg.is_none());
    assert_eq!(text(&g.sp), Some("#070809".to_string()));
    let d = HighlightGroup::default();
    assert!(d.fg.is_none() && d.bg.is_none() && d.sp.is_none() && d.fmt.is_none());
}

#[test]
fn attribute_lists() {
    let v = vec![FmtType::Bold, FmtType::Reverse];
    assert!(fmt_contains(&v, FmtType::Reverse));
    assert!(!fmt_contains(&v, FmtType::Italic));
    assert_eq!(clone_fmt(&Some(v.clone())), Some(v));
    assert_eq!(clone_fmt(&None), None);
}

#[test]
fn tables_keep_order() {
    let mut t = HighlightTable::new();
    t.push("A", HighlightGroup::with_fg(&color("#000001")));
    let mut u = HighlightTable::new();
    u.push("B", HighlightGroup::with_bg(&color("#000002")));
    t.append(u);
    assert_eq!(t.len(), 2);
    assert_eq!(t.name(0), "A");
    assert_eq!(t.name(1), "B");
    assert_eq!(text(&t.group(1).bg), Some("#000002".to_string()));
    let mut s = TableSet::new();
    s.push("x", t);
    assert_eq!(s.len(), 1);
    assert_eq!(s.name(0), "x");
    assert_eq!(s.table(0).len(), 2);
}

#[test]
fn normal_background_follows_transparency() {
    let p = palette();
    let mut c = OneDarkConfig::default();
    let h = onedark_nvim_rs::highlights::default(&p, &c, &shades());
    let normal = find(&h.common, "Normal");
    assert_eq!(h.common.name(0), "Normal");
    assert_eq!(text(&normal.fg), Some("#abb2bf".to_string()));
    assert!(normal.bg.is_none());
    c.transparent = true;
    let h = onedark_nvim_rs::highlights::default(&p, &c, &shades());
    assert_eq!(text(&find(&h.common, "Normal").bg), Some("#282c34".to_string()));
    assert_eq!(text(&find(&h.common, "Folded").bg), Some("#31353f".to_string()));
}

#[test]
fn end_of_buffer_follows_tildes() {
    let p = palette();
    let mut c = OneDarkConfig::default();
    let h = onedark_nvim_rs::highlights::default(&p, &c, &shades());
    assert_eq!(text(&find(&h.common, "EndOfBuffer").fg), Some("#282c34".to_string()));
    c.ending_tildes = true;
    let h = onedark_nvim_rs::highlights::default(&p, &c, &shades());
    assert_eq!(text(&find(&h.common, "EndOfBuffer").fg), Some("#393f4a".to_string()));
}

#[test]
fn table_sizes_and_names() {
    let h = onedark_nvim_rs::highlights::default(&palette(), &OneDarkConfig::default(), &shades());
    assert_eq!(h.common.len(), 70);
    assert_eq!(h.syntax.len(), 33);
    assert_eq!(h.treesitter.len(), 59);
    assert!(h.lsp.is_none());
    let plugins: Vec<String> = (0..h.plugins.len()).map(|i| h.plugins.name(i).clone()).collect();
    assert_eq!(
        plugins,
        vec![
            "lsp", "cmp", "whichkey", "gitgutter", "diffview", "gitsigns", "telescope",
            "indent_blankline", "mini"
        ]
    );
    let langs: Vec<String> = (0..h.langs.len()).map(|i| h.langs.name(i).clone()).collect();
    assert_eq!(langs, vec!["c", "cpp", "markdown", "php", "scala", "tex", "vim"]);
    assert_eq!(find_set(&h.plugins, "cmp").len(), 41);
    assert_eq!(find_set(&h.plugins, "mini").len(), 110);
    assert_eq!(find_set(&h.plugins, "lsp").len(), 32);
}

#[test]
fn code_style_reaches_groups() {
    let c = OneDarkConfig::default();
    let h = onedark_nvim_rs::highlights::default(&palette(), &c, &shades());
    assert_eq!(find(&h.syntax, "Comment").fmt, Some(vec![FmtType::Italic]));
    assert_eq!(find(&h.syntax, "Keyword").fmt, None);
    assert_eq!(find(&h.treesitter, "TSStrong").fmt, Some(vec![FmtType::Bold]));
}

#[test]
fn diagnostics_darker_and_background() {
    let p = palette();
    let mut c = OneDarkConfig::default();
    let d = diagnostic_colors(&p, &c.diagnostics);
    assert_eq!(d.error.as_str(), "#993939");
    assert_eq!(d.hint.as_str(), "#8a3fa0");
    let h = onedark_nvim_rs::highlights::default(&p, &c, &shades());
    let lsp = find_set(&h.plugins, "lsp");
    let g = find(lsp, "DiagnosticVirtualTextError");
    assert_eq!(text(&g.fg), Some("#993939".to_string()));
    assert_eq!(text(&g.bg), Some("#111111".to_string()));
    assert_eq!(find(lsp, "LspDiagnosticsUnderlineError").fmt, Some(vec![FmtType::Undercurl]));
    c.diagnostics.darker = false;
    c.diagnostics.background = false;
    c.diagnostics.undercurl = false;
    assert_eq!(diagnostic_colors(&p, &c.diagnostics).warn.as_str(), "#e5c07b");
    let h = onedark_nvim_rs::highlights::default(&p, &c, &shades());
    let lsp = find_set(&h.plugins, "lsp");
    let g = find(lsp, "DiagnosticVirtualTextWarn");
    assert_eq!(text(&g.fg), Some("#e5c07b".to_string()));
    assert!(g.bg.is_none());
    let u = find(lsp, "LspDiagnosticsUnderlineWarning");
    assert_eq!(u.fmt, Some(vec![FmtType::Underline]));
    assert_eq!(text(&u.sp), Some("#e5c07b".to_string()));
}

#[test]
fn completion_kinds_follow_reverse() {
    let p = palette();
    let mut c = OneDarkConfig::default();
    let h = onedark_nvim_rs::highlights::default(&p, &c, &shades());
    let cmp = find_set(&h.plugins, "cmp");
    assert_eq!(cmp.name(6), "CmpItemKindDefault");
    let g = find(cmp, "CmpItemKindDefault");
    assert_eq!(text(&g.fg), Some("#c678dd".to_string()));
    assert_eq!(g.fmt, Some(vec![]));
    c.cmp_itemkind_reverse = true;
    let h = onedark_nvim_rs::highlights::default(&p, &c, &shades());
    let cmp = find_set(&h.plugins, "cmp");
    assert_eq!(find(cmp, "CmpItemKindVariable").fmt, Some(vec![FmtType::Reverse]));
    assert_eq!(find(cmp, "CmpItemKind").fmt, Some(vec![FmtType::Reverse]));
}

#[test]
fn vim_highlights_set_everything() {
    let mut t = HighlightTable::new();
    t.push("G", HighlightGroup::with_fg(&color("#0a0b0c")).fmt(Some(vec![FmtType::Bold, FmtType::NoCombine])));
    let cmds = vim_highlights(&t);
    assert_eq!(cmds.len(), 1);
    let o = &cmds[0].opts;
    assert_eq!(cmds[0].name, "G");
    assert_eq!(setting(&o.foreground), Some("#0a0b0c".to_string()));
    assert_eq!(setting(&o.background), Some("none".to_string()));
    assert_eq!(setting(&o.special), Some("none".to_string()));
    assert_eq!(o.bold, Some(true));
    assert_eq!(o.nocombine, Some(true));
    assert_eq!(o.italic, Some(false));
    assert_eq!(o.underline, Some(false));
    assert_eq!(o.undercurl, Some(false));
    assert_eq!(o.reverse, Some(false));
}

#[test]
fn merge_highlights_never_clear() {
    let mut t = HighlightTable::new();
    t.push("U", HighlightGroup::with_bg(&color("#0d0e0f")));
    t.push("V", HighlightGroup::with_fmt(Some(vec![FmtType::Italic])));
    let cmds = merge_highlights(&t);
    assert_eq!(cmds.len(), 2);
    let o = &cmds[0].opts;
    assert_eq!(setting(&o.foreground), None);
    assert_eq!(setting(&o.background), Some("#0d0e0f".to_string()));
    assert_eq!(setting(&o.special), None);
    assert_eq!(o.bold, None);
    assert_eq!(o.italic, None);
    let o = &cmds[1].opts;
    assert_eq!(setting(&o.foreground), None);
    assert_eq!(o.italic, Some(true));
    assert_eq!(o.bold, Some(false));
}

#[test]
fn complete_group_applies_alike() {
    let mut t = HighlightTable::new();
    t.push(
        "W",
        HighlightGroup::with_fg(&color("#000001"))
            .bg(&color("#000002"))
            .sp(&color("#000003"))
            .fmt(Some(vec![FmtType::Undercurl])),
    );
    let a = &vim_highlights(&t)[0].opts;
    let b = &merge_highlights(&t)[0].opts;
    assert_eq!(setting(&a.foreground), setting(&b.foreground));
    assert_eq!(setting(&a.background), setting(&b.background));
    assert_eq!(setting(&a.special), setting(&b.special));
    assert_eq!(a.undercurl, b.undercurl);
    assert_eq!(a.bold, b.bold);
}

fn total(h: &onedark_nvim_rs::highlights::Highlights) -> usize {
    let mut n = h.common.len() + h.syntax.len() + h.treesitter.len();
    for i in 0..h.plugins.len() {
        n += h.plugins.table(i).len();
    }
    for i in 0..h.langs.len() {
        n += h.langs.table(i).len();
    }
    n
}

#[test]
fn setup_defines_scheme_groups() {
    let c = OneDarkConfig::default();
    let p = merge_palletes(&c);
    let h = onedark_nvim_rs::highlights::default(&p, &c, &shades());
    let cmds: Vec<HighlightCommand> = setup(&p, &c, &shades());
    assert_eq!(cmds.len(), total(&h));
    assert_eq!(cmds[0].name, "Normal");
    assert_eq!(cmds[70].name, "String");
}

#[test]
fn setup_lays_user_groups_last() {
    let mut c = OneDarkConfig::default();
    let mut mine = HighlightTable::new();
    mine.push("Normal", HighlightGroup::with_bg(&color("#101010")));
    let mut plugin = HighlightTable::new();
    plugin.push("MyPlugin", HighlightGroup::with_fg(&color("#202020")));
    let mut plugins = TableSet::new();
    plugins.push("mine", plugin);
    c.highlights = Some(ConfigHighlights {
        common: Some(mine),
        syntax: None,
        treesitter: None,
        lsp: None,
        plugins: Some(plugins),
        langs: None,
    });
    let p = merge_palletes(&c);
    let h = onedark_nvim_rs::highlights::default(&p, &c, &shades());
    let n = total(&h);
    let cmds = setup(&p, &c, &shades());
    assert_eq!(cmds.len(), n + 2);
    assert_eq!(cmds[n].name, "Normal");
    assert_eq!(setting(&cmds[n].opts.background), Some("#101010".to_string()));
    assert_eq!(setting(&cmds[n].opts.foreground), None);
    assert_eq!(cmds[n + 1].name, "MyPlugin");
}
