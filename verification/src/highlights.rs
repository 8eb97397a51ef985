use vstd::prelude::*;

use crate::config::{DiagnosticsConfig, OneDarkConfig};
use crate::groups::{
    c_groups, common_groups, completion_groups, completion_kind_group,
    cpp_groups, diagnostic_colors_of, diffview_groups, gitgutter_groups, gitsigns_groups,
    indent_line_groups, lsp_groups, markdown_groups, mini_groups, mini_groups_first,
    mini_groups_second, php_groups, scala_groups,
    scheme_highlights, syntax_groups, telescope_groups, tex_groups, treesitter_groups, vim_groups,
    whichkey_groups, DiagnosticColors, HighlightsView,
};
use crate::palette::{merged_palette, style_palette, Color, ColorPalette};

verus! {

/// A text attribute of a highlight group.
#[derive(Clone, Copy, Debug, PartialEq, Eq, Structural)]
pub enum FmtType {
    Bold,
    Italic,
    Underline,
    Undercurl,
    Reverse,
    NoCombine,
    StrikeThrough,
}

/// The attributes of an optional attribute list.
pub open spec fn fmt_view(fmt: Option<Vec<FmtType>>) -> Option<Seq<FmtType>> {
    match fmt {
        Some(v) => Some(v@),
        None => None,
    }
}

/// Copies an attribute list.
pub fn clone_fmt_list(v: &Vec<FmtType>) -> (res: Vec<FmtType>)
    ensures
        res@ == v@,
{
    let mut res: Vec<FmtType> = Vec::new();
    let mut i: usize = 0;
    while i < v.len()
        invariant
            i <= v@.len(),
            res@ == v@.take(i as int),
        decreases v@.len() - i,
    {
        res.push(v[i]);
        proof {
            assert(v@.take(i + 1) =~= v@.take(i as int).push(v@[i as int]));
        }
        i = i + 1;
    }
    proof {
        assert(v@.take(v@.len() as int) =~= v@);
    }
    res
}

/// Copies an optional attribute list.
pub fn clone_fmt(fmt: &Option<Vec<FmtType>>) -> (res: Option<Vec<FmtType>>)
    ensures
        fmt_view(res) == fmt_view(*fmt),
{
    match fmt {
        Some(v) => Some(clone_fmt_list(v)),
        None => None,
    }
}

/// The list of the one attribute `a`.
pub fn one_attr(a: FmtType) -> (res: Vec<FmtType>)
    ensures
        res@ == seq![a],
{
    vec![a]
}

/// The list of the attributes `a` and `b`.
pub fn two_attrs(a: FmtType, b: FmtType) -> (res: Vec<FmtType>)
    ensures
        res@ == seq![a, b],
{
    vec![a, b]
}

/// Whether an attribute list holds `f`.
pub fn fmt_contains(v: &Vec<FmtType>, f: FmtType) -> (res: bool)
    ensures
        res == v@.contains(f),
{
    let mut i: usize = 0;
    while i < v.len()
        invariant
            i <= v@.len(),
            forall|j: int| 0 <= j < i ==> v@[j] != f,
        decreases v@.len() - i,
    {
        if v[i] == f {
            return true;
        }
        i = i + 1;
    }
    false
}

/// What a highlight group sets: its colours and its attribute list.
pub struct GroupView {
    pub fg: Option<Color>,
    pub bg: Option<Color>,
    pub sp: Option<Color>,
    pub fmt: Option<Seq<FmtType>>,
}

/// The group that sets the given colours and attributes.
pub open spec fn group(
    fg: Option<Color>,
    bg: Option<Color>,
    sp: Option<Color>,
    fmt: Option<Seq<FmtType>>,
) -> GroupView {
    GroupView { fg, bg, sp, fmt }
}

/// A highlight group: foreground, background and special colour, and text
/// attributes; what is `None` is left to the editor.
#[derive(Debug)]
pub struct HighlightGroup {
    pub fg: Option<Color>,
    pub bg: Option<Color>,
    pub sp: Option<Color>,
    pub fmt: Option<Vec<FmtType>>,
}

impl View for HighlightGroup {
    type V = GroupView;

    open spec fn view(&self) -> GroupView {
        GroupView { fg: self.fg, bg: self.bg, sp: self.sp, fmt: fmt_view(self.fmt) }
    }
}

impl Clone for HighlightGroup {
    fn clone(&self) -> (res: Self)
        ensures
            res@ == self@,
    {
        HighlightGroup { fg: self.fg, bg: self.bg, sp: self.sp, fmt: clone_fmt(&self.fmt) }
    }
}

impl Default for HighlightGroup {
    fn default() -> (res: Self)
        ensures
            res@ == group(None, None, None, None),
    {
        HighlightGroup { fg: None, bg: None, sp: None, fmt: None }
    }
}

/// What can stand for an optional colour: a colour, or an optional one.
pub trait IntoOptionColor: Sized {
    spec fn option_color(self) -> Option<Color>;

    fn into_option_color(self) -> (res: Option<Color>)
        ensures
            res == self.option_color(),
    ;
}

impl<'a> IntoOptionColor for &'a Color {
    open spec fn option_color(self) -> Option<Color> {
        Some(*self)
    }

    fn into_option_color(self) -> (res: Option<Color>) {
        Some(*self)
    }
}

impl<'a> IntoOptionColor for Option<&'a Color> {
    open spec fn option_color(self) -> Option<Color> {
        match self {
            Some(c) => Some(*c),
            None => None,
        }
    }

    fn into_option_color(self) -> (res: Option<Color>) {
        match self {
            Some(c) => Some(*c),
            None => None,
        }
    }
}

impl IntoOptionColor for Option<Color> {
    open spec fn option_color(self) -> Option<Color> {
        self
    }

    fn into_option_color(self) -> (res: Option<Color>) {
        self
    }
}

impl HighlightGroup {
    /// A group that sets only its foreground.
    pub fn with_fg<T: IntoOptionColor>(fg: T) -> (res: Self)
        ensures
            res@ == group(fg.option_color(), None, None, None),
    {
        HighlightGroup { fg: fg.into_option_color(), bg: None, sp: None, fmt: None }
    }

    /// A group that sets only its background.
    pub fn with_bg<T: IntoOptionColor>(bg: T) -> (res: Self)
        ensures
            res@ == group(None, bg.option_color(), None, None),
    {
        HighlightGroup { fg: None, bg: bg.into_option_color(), sp: None, fmt: None }
    }

    /// A group that sets only its special colour.
    pub fn with_sp<T: IntoOptionColor>(sp: T) -> (res: Self)
        ensures
            res@ == group(None, None, sp.option_color(), None),
    {
        HighlightGroup { fg: None, bg: None, sp: sp.into_option_color(), fmt: None }
    }

    /// A group that sets only its attributes.
    pub fn with_fmt(fmt: Option<Vec<FmtType>>) -> (res: Self)
        ensures
            res@ == group(None, None, None, fmt_view(fmt)),
    {
        HighlightGroup { fg: None, bg: None, sp: None, fmt }
    }

    /// This group with its foreground replaced.
    pub fn fg<T: IntoOptionColor>(self, fg: T) -> (res: Self)
        ensures
            res@ == (GroupView { fg: fg.option_color(), ..self@ }),
    {
        HighlightGroup { fg: fg.into_option_color(), ..self }
    }

    /// This group with its background replaced.
    pub fn bg<T: IntoOptionColor>(self, bg: T) -> (res: Self)
        ensures
            res@ == (GroupView { bg: bg.option_color(), ..self@ }),
    {
        HighlightGroup { bg: bg.into_option_color(), ..self }
    }

    /// This group with its special colour replaced.
    pub fn sp<T: IntoOptionColor>(self, sp: T) -> (res: Self)
        ensures
            res@ == (GroupView { sp: sp.option_color(), ..self@ }),
    {
        HighlightGroup { sp: sp.into_option_color(), ..self }
    }

    /// This group with its attributes replaced.
    pub fn fmt(self, fmt: Option<Vec<FmtType>>) -> (res: Self)
        ensures
            res@ == (GroupView { fmt: fmt_view(fmt), ..self@ }),
    {
        HighlightGroup { fmt, ..self }
    }
}

/// Named highlight groups, in the order they were added.
#[derive(Clone, Debug)]
pub struct HighlightTable {
    entries: Vec<(String, HighlightGroup)>,
}

impl View for HighlightTable {
    type V = Seq<(Seq<char>, GroupView)>;

    closed spec fn view(&self) -> Seq<(Seq<char>, GroupView)> {
        Seq::new(self.entries@.len(), |i: int| (self.entries@[i].0@, self.entries@[i].1@))
    }
}

impl HighlightTable {
    /// A table with no group.
    pub fn new() -> (res: Self)
        ensures
            res@ == Seq::<(Seq<char>, GroupView)>::empty(),
    {
        let res = HighlightTable { entries: Vec::new() };
        proof {
            assert(res@ =~= Seq::<(Seq<char>, GroupView)>::empty());
        }
        res
    }

    /// Adds a named group at the end.
    pub fn push(&mut self, name: &str, group: HighlightGroup)
        ensures
            final(self)@ == old(self)@.push((name@, group@)),
    {
        let ghost before = self@;
        let ghost g = group@;
        self.entries.push((name.to_owned(), group));
        proof {
            assert(self@ =~= before.push((name@, g)));
        }
    }

    /// Adds the groups of `other` at the end, in their order.
    pub fn append(&mut self, other: HighlightTable)
        ensures
            final(self)@ == old(self)@ + other@,
    {
        let ghost before = self@;
        let ghost added = other@;
        let mut other = other;
        self.entries.append(&mut other.entries);
        proof {
            assert(self@ =~= before + added);
        }
    }

    /// The number of groups.
    pub fn len(&self) -> (res: usize)
        ensures
            res == self@.len(),
    {
        self.entries.len()
    }

    /// The name of the group at `i`.
    pub fn name(&self, i: usize) -> (res: &String)
        requires
            i < self@.len(),
        ensures
            res@ == self@[i as int].0,
    {
        &self.entries[i].0
    }

    /// The group at `i`.
    pub fn group(&self, i: usize) -> (res: &HighlightGroup)
        requires
            i < self@.len(),
        ensures
            res@ == self@[i as int].1,
    {
        &self.entries[i].1
    }
}

/// Named highlight tables, such as one per plugin or per language.
#[derive(Clone, Debug)]
pub struct TableSet {
    entries: Vec<(String, HighlightTable)>,
}

impl View for TableSet {
    type V = Seq<(Seq<char>, Seq<(Seq<char>, GroupView)>)>;

    closed spec fn view(&self) -> Seq<(Seq<char>, Seq<(Seq<char>, GroupView)>)> {
        Seq::new(self.entries@.len(), |i: int| (self.entries@[i].0@, self.entries@[i].1@))
    }
}

impl TableSet {
    /// A set with no table.
    pub fn new() -> (res: Self)
        ensures
            res@ == Seq::<(Seq<char>, Seq<(Seq<char>, GroupView)>)>::empty(),
    {
        let res = TableSet { entries: Vec::new() };
        proof {
            assert(res@ =~= Seq::<(Seq<char>, Seq<(Seq<char>, GroupView)>)>::empty());
        }
        res
    }

    /// Adds a named table at the end.
    pub fn push(&mut self, name: &str, table: HighlightTable)
        ensures
            final(self)@ == old(self)@.push((name@, table@)),
    {
        let ghost before = self@;
        let ghost t = table@;
        self.entries.push((name.to_owned(), table));
        proof {
            assert(self@ =~= before.push((name@, t)));
        }
    }

    /// The number of tables.
    pub fn len(&self) -> (res: usize)
        ensures
            res == self@.len(),
    {
        self.entries.len()
    }

    /// The name of the table at `i`.
    pub fn name(&self, i: usize) -> (res: &String)
        requires
            i < self@.len(),
        ensures
            res@ == self@[i as int].0,
    {
        &self.entries[i].0
    }

    /// The table at `i`.
    pub fn table(&self, i: usize) -> (res: &HighlightTable)
        requires
            i < self@.len(),
        ensures
            res@ == self@[i as int].1,
    {
        &self.entries[i].1
    }
}

/// The highlight groups of the colour scheme, by kind.
#[derive(Clone, Debug)]
pub struct Highlights {
    pub common: HighlightTable,
    pub syntax: HighlightTable,
    pub treesitter: HighlightTable,
    pub lsp: Option<HighlightTable>,
    pub plugins: TableSet,
    pub langs: TableSet,
}

/// Highlight groups that the user adds or overrides, by kind.
#[derive(Clone, Debug)]
pub struct ConfigHighlights {
    pub common: Option<HighlightTable>,
    pub syntax: Option<HighlightTable>,
    pub treesitter: Option<HighlightTable>,
    pub lsp: Option<HighlightTable>,
    pub plugins: Option<TableSet>,
    pub langs: Option<TableSet>,
}

/// The attributes of an optional list, or none if there is no list.
pub fn fmt_or_empty(fmt: &Option<Vec<FmtType>>) -> (res: Vec<FmtType>)
    ensures
        res@ == match fmt_view(*fmt) {
            Some(v) => v,
            None => Seq::<FmtType>::empty(),
        },
{
    match fmt {
        Some(v) => clone_fmt_list(v),
        None => Vec::new(),
    }
}

/// Adds one group per completion item kind, in the kind's colour, with the
/// attributes reversed if asked.
pub fn push_kind_groups(table: &mut HighlightTable, kinds: &Vec<(&'static str, Color)>, reverse: bool)
    ensures
        final(table)@ == old(table)@ + kinds@.map_values(
            |k: (&'static str, Color)| completion_kind_group(k, reverse),
        ),
{
    let ghost start = table@;
    let mut i: usize = 0;
    while i < kinds.len()
        invariant
            i <= kinds@.len(),
            table@ == start + kinds@.take(i as int).map_values(
                |k: (&'static str, Color)| completion_kind_group(k, reverse),
            ),
        decreases kinds@.len() - i,
    {
        let (kind, color) = kinds[i];
        let kind_fmt: Option<Vec<FmtType>> = if reverse {
            Some(one_attr(FmtType::Reverse))
        } else {
            None
        };
        let ghost before = table@;
        table.push(kind, HighlightGroup::with_fg(&color).fmt(Some(fmt_or_empty(&kind_fmt))));
        proof {
            let done = kinds@.take(i as int).map_values(
                |k: (&'static str, Color)| completion_kind_group(k, reverse),
            );
            assert(start + done.push(completion_kind_group(kinds@[i as int], reverse)) =~= (start
                + done).push(completion_kind_group(kinds@[i as int], reverse)));
            assert(kinds@.take(i + 1).map_values(
                |k: (&'static str, Color)| completion_kind_group(k, reverse),
            ) =~= kinds@.take(i as int).map_values(
                |k: (&'static str, Color)| completion_kind_group(k, reverse),
            ).push(completion_kind_group(kinds@[i as int], reverse)));
        }
        i = i + 1;
    }
    proof {
        assert(kinds@.take(kinds@.len() as int) =~= kinds@);
    }
}

impl View for Highlights {
    type V = HighlightsView;

    open spec fn view(&self) -> HighlightsView {
        HighlightsView {
            common: self.common@,
            syntax: self.syntax@,
            treesitter: self.treesitter@,
            lsp: match self.lsp {
                Some(t) => Some(t@),
                None => None,
            },
            plugins: self.plugins@,
            langs: self.langs@,
        }
    }
}

/// The colours in which a palette shows diagnostics under the given settings.
pub fn diagnostic_colors(palette: &ColorPalette, diagnostics: &DiagnosticsConfig) -> (res: DiagnosticColors)
    ensures
        res == diagnostic_colors_of(*palette, *diagnostics),
{
    if diagnostics.darker {
        DiagnosticColors {
            error: palette.dark_red,
            warn: palette.dark_yellow,
            info: palette.dark_cyan,
            hint: palette.dark_purple,
        }
    } else {
        DiagnosticColors {
            error: palette.red,
            warn: palette.yellow,
            info: palette.cyan,
            hint: palette.purple,
        }
    }
}


/// The editor's own groups.
#[verifier::rlimit(60)]
fn common_table(palette: &ColorPalette, config: &OneDarkConfig) -> (res: HighlightTable)
    ensures
        res@ == common_groups(*palette, *config),
{
    let transparent = config.transparent;
    let ending_tildes = config.ending_tildes;
    let common_float_border = HighlightGroup::with_fg(&palette.grey).bg(&palette.bg1);
    let common_normal_float = HighlightGroup::with_fg(&palette.fg).bg(&palette.bg1);
    let common_added = HighlightGroup::with_fg(&palette.green);
    let common_removed = HighlightGroup::with_fg(&palette.red);
    let common_diff_delete = HighlightGroup::with_bg(&palette.diff_delete);
    let common_diff_text = HighlightGroup::with_bg(&palette.diff_text);
    let common_diff_add = HighlightGroup::with_bg(&palette.diff_add);
    let common_diff_change = HighlightGroup::with_bg(&palette.diff_change);
    let common_inc_search = HighlightGroup::with_fg(&palette.bg0).bg(&palette.orange);
    let common_directory = HighlightGroup::with_fg(&palette.blue);
    let mut hl_common = HighlightTable::new();
    hl_common.push("Normal", HighlightGroup::with_fg(&palette.fg).bg(if transparent { Some(&palette.bg0) } else { None }));
    hl_common.push("Terminal", HighlightGroup::with_fg(&palette.fg).bg(if transparent { Some(&palette.bg0) } else { None }));
    hl_common.push("EndOfBuffer", HighlightGroup::with_fg(if ending_tildes { &palette.bg2 } else { &palette.bg0 }).bg(if transparent { Some(&palette.bg0) } else { None }));
    hl_common.push("FoldColumn", HighlightGroup::with_fg(&palette.fg).bg(if transparent { Some(&palette.bg1) } else { None }));
    hl_common.push("Folded", HighlightGroup::with_fg(&palette.fg).bg(if transparent { Some(&palette.bg1) } else { None }));
    hl_common.push("SignColumn", HighlightGroup::with_fg(&palette.fg).bg(if transparent { Some(&palette.bg0) } else { None }));
    hl_common.push("ToolbarLine", HighlightGroup::with_fg(&palette.fg));
    hl_common.push("Cursor", HighlightGroup::with_fmt(Some(one_attr(FmtType::Reverse))));
    hl_common.push("vCursor", HighlightGroup::with_fmt(Some(one_attr(FmtType::Reverse))));
    hl_common.push("iCursor", HighlightGroup::with_fmt(Some(one_attr(FmtType::Reverse))));
    hl_common.push("lCursor", HighlightGroup::with_fmt(Some(one_attr(FmtType::Reverse))));
    hl_common.push("CursorIM", HighlightGroup::with_fmt(Some(one_attr(FmtType::Reverse))));
    hl_common.push("CursorColumn", HighlightGroup::with_bg(&palette.bg1));
    hl_common.push("CursorLine", HighlightGroup::with_bg(&palette.bg1));
    hl_common.push("ColorColumn", HighlightGroup::with_bg(&palette.bg1));
    hl_common.push("CursorLineNr", HighlightGroup::with_fg(&palette.fg));
    hl_common.push("LineNr", HighlightGroup::with_fg(&palette.grey));
    hl_common.push("Conceal", HighlightGroup::with_fg(&palette.grey).bg(&palette.bg1));
    hl_common.push("Added", common_added.clone());
    hl_common.push("Removed", common_removed.clone());
    hl_common.push("Changed", HighlightGroup::with_fg(&palette.blue));
    hl_common.push("DiffAdd", common_diff_add.clone());
    hl_common.push("DiffChange", common_diff_change.clone());
    hl_common.push("DiffDelete", common_diff_delete.clone());
    hl_common.push("DiffText", common_diff_text.clone());
    hl_common.push("DiffAdded", HighlightGroup::with_fg(&palette.green));
    hl_common.push("DiffChanged", HighlightGroup::with_fg(&palette.blue));
    hl_common.push("DiffRemoved", HighlightGroup::with_fg(&palette.red));
    hl_common.push("DiffDeleted", HighlightGroup::with_fg(&palette.red));
    hl_common.push("DiffFile", HighlightGroup::with_fg(&palette.cyan));
    hl_common.push("DiffIndexLine", HighlightGroup::with_fg(&palette.grey));
    hl_common.push("Directory", common_directory.clone());
    hl_common.push("ErrorMsg", HighlightGroup::with_fg(&palette.red).fmt(Some(one_attr(FmtType::Bold))));
    hl_common.push("WarningMsg", HighlightGroup::with_fg(&palette.yellow).fmt(Some(one_attr(FmtType::Bold))));
    hl_common.push("MoreMsg", HighlightGroup::with_fg(&palette.blue).fmt(Some(one_attr(FmtType::Bold))));
    hl_common.push("CurSearch", HighlightGroup::with_fg(&palette.bg0).bg(&palette.orange));
    hl_common.push("IncSearch", common_inc_search.clone());
    hl_common.push("Search", HighlightGroup::with_fg(&palette.bg0).bg(&palette.bg_yellow));
    hl_common.push("Substitute", HighlightGroup::with_fg(&palette.bg0).bg(&palette.green));
    hl_common.push("MatchParen", HighlightGroup::with_bg(&palette.grey));
    hl_common.push("NonText", HighlightGroup::with_fg(&palette.grey));
    hl_common.push("Whitespace", HighlightGroup::with_fg(&palette.grey));
    hl_common.push("SpecialKey", HighlightGroup::with_fg(&palette.grey));
    hl_common.push("Pmenu", HighlightGroup::with_fg(&palette.fg).bg(&palette.bg1));
    hl_common.push("PmenuSbar", HighlightGroup::with_bg(&palette.bg1));
    hl_common.push("PmenuSel", HighlightGroup::with_fg(&palette.bg0).bg(&palette.bg_blue));
    hl_common.push("WildMenu", HighlightGroup::with_fg(&palette.bg0).bg(&palette.blue));
    hl_common.push("PmenuThumb", HighlightGroup::with_bg(&palette.grey));
    hl_common.push("Question", HighlightGroup::with_fg(&palette.yellow));
    hl_common.push("SpellBad", HighlightGroup::with_sp(&palette.red).fmt(Some(one_attr(FmtType::Undercurl))));
    hl_common.push("SpellCap", HighlightGroup::with_sp(&palette.yellow).fmt(Some(one_attr(FmtType::Undercurl))));
    hl_common.push("SpellLocal", HighlightGroup::with_sp(&palette.blue).fmt(Some(one_attr(FmtType::Undercurl))));
    hl_common.push("SpellRare", HighlightGroup::with_sp(&palette.purple).fmt(Some(one_attr(FmtType::Undercurl))));
    hl_common.push("StatusLine", HighlightGroup::with_fg(&palette.fg).bg(&palette.bg2));
    hl_common.push("StatusLineTerm", HighlightGroup::with_fg(&palette.fg).bg(&palette.bg2));
    hl_common.push("StatusLineNC", HighlightGroup::with_fg(&palette.grey).bg(&palette.bg1));
    hl_common.push("StatusLineTermNC", HighlightGroup::with_fg(&palette.grey).bg(&palette.bg1));
    hl_common.push("TabLine", HighlightGroup::with_fg(&palette.fg).bg(&palette.bg1));
    hl_common.push("TabLineFill", HighlightGroup::with_fg(&palette.grey).bg(&palette.bg1));
    hl_common.push("TabLineSel", HighlightGroup::with_fg(&palette.bg0).bg(&palette.fg));
    hl_common.push("WinSeparator", HighlightGroup::with_fg(&palette.bg3));
    hl_common.push("Visual", HighlightGroup::with_bg(&palette.bg3));
    hl_common.push("VisualNOS", HighlightGroup::with_bg(&palette.bg2).fmt(Some(one_attr(FmtType::Underline))));
    hl_common.push("QuickFixLine", HighlightGroup::with_fg(&palette.blue).fmt(Some(one_attr(FmtType::Underline))));
    hl_common.push("Debug", HighlightGroup::with_fg(&palette.yellow));
    hl_common.push("debugPC", HighlightGroup::with_fg(&palette.bg0).bg(&palette.green));
    hl_common.push("debugBreakpoint", HighlightGroup::with_fg(&palette.bg0).bg(&palette.red));
    hl_common.push("ToolbarButton", HighlightGroup::with_fg(&palette.bg0).bg(&palette.bg_blue));
    hl_common.push("FloatBorder", common_float_border.clone());
    hl_common.push("NormalFloat", common_normal_float.clone());
    hl_common
}

/// The groups of the classic syntax highlighting.
fn syntax_table(palette: &ColorPalette, config: &OneDarkConfig) -> (res: HighlightTable)
    ensures
        res@ == syntax_groups(*palette, *config),
{
    let code_style = &config.code_style;
    let syntax_comment = HighlightGroup::with_fg(&palette.grey).fmt(clone_fmt(&code_style.comments));
    let syntax_title = HighlightGroup::with_fg(&palette.cyan);
    let syntax_special = HighlightGroup::with_fg(&palette.red);
    let syntax_delimiter = HighlightGroup::with_fg(&palette.light_grey);
    let mut hl_syntax = HighlightTable::new();
    hl_syntax.push("String", HighlightGroup::with_fg(&palette.green).fmt(clone_fmt(&code_style.strings)));
    hl_syntax.push("Character", HighlightGroup::with_fg(&palette.orange));
    hl_syntax.push("Number", HighlightGroup::with_fg(&palette.orange));
    hl_syntax.push("Float", HighlightGroup::with_fg(&palette.orange));
    hl_syntax.push("Boolean", HighlightGroup::with_fg(&palette.orange));
    hl_syntax.push("Type", HighlightGroup::with_fg(&palette.yellow));
    hl_syntax.push("Structure", HighlightGroup::with_fg(&palette.yellow));
    hl_syntax.push("StorageClass", HighlightGroup::with_fg(&palette.yellow));
    hl_syntax.push("Identifier", HighlightGroup::with_fg(&palette.red).fmt(clone_fmt(&code_style.variables)));
    hl_syntax.push("Constant", HighlightGroup::with_fg(&palette.cyan));
    hl_syntax.push("PreProc", HighlightGroup::with_fg(&palette.purple));
    hl_syntax.push("PreCondit", HighlightGroup::with_fg(&palette.purple));
    hl_syntax.push("Include", HighlightGroup::with_fg(&palette.purple));
    hl_syntax.push("Keyword", HighlightGroup::with_fg(&palette.purple).fmt(clone_fmt(&code_style.keywords)));
    hl_syntax.push("Define", HighlightGroup::with_fg(&palette.purple));
    hl_syntax.push("Typedef", HighlightGroup::with_fg(&palette.yellow));
    hl_syntax.push("Exception", HighlightGroup::with_fg(&palette.purple));
    hl_syntax.push("Conditional", HighlightGroup::with_fg(&palette.purple).fmt(clone_fmt(&code_style.keywords)));
    hl_syntax.push("Repeat", HighlightGroup::with_fg(&palette.purple).fmt(clone_fmt(&code_style.keywords)));
    hl_syntax.push("Statement", HighlightGroup::with_fg(&palette.purple));
    hl_syntax.push("Macro", HighlightGroup::with_fg(&palette.red));
    hl_syntax.push("Error", HighlightGroup::with_fg(&palette.purple));
    hl_syntax.push("Label", HighlightGroup::with_fg(&palette.purple));
    hl_syntax.push("Special", syntax_special.clone());
    hl_syntax.push("SpecialChar", HighlightGroup::with_fg(&palette.red));
    hl_syntax.push("Function", HighlightGroup::with_fg(&palette.blue).fmt(clone_fmt(&code_style.functions)));
    hl_syntax.push("Operator", HighlightGroup::with_fg(&palette.purple));
    hl_syntax.push("Title", syntax_title.clone());
    hl_syntax.push("Tag", HighlightGroup::with_fg(&palette.green));
    hl_syntax.push("Delimiter", syntax_delimiter.clone());
    hl_syntax.push("Comment", syntax_comment.clone());
    hl_syntax.push("SpecialComment", HighlightGroup::with_fg(&palette.grey).fmt(clone_fmt(&code_style.comments)));
    hl_syntax.push("Todo", HighlightGroup::with_fg(&palette.red).fmt(clone_fmt(&code_style.comments)));
    hl_syntax
}

/// The groups of tree-sitter highlighting.
#[verifier::rlimit(60)]
fn treesitter_table(palette: &ColorPalette, config: &OneDarkConfig) -> (res: HighlightTable)
    ensures
        res@ == treesitter_groups(*palette, *config),
{
    let code_style = &config.code_style;
    let mut hl_treesitter = HighlightTable::new();
    hl_treesitter.push("TSAnnotation", HighlightGroup::with_fg(&palette.fg));
    hl_treesitter.push("TSAttribute", HighlightGroup::with_fg(&palette.cyan));
    hl_treesitter.push("TSBoolean", HighlightGroup::with_fg(&palette.orange));
    hl_treesitter.push("TSCharacter", HighlightGroup::with_fg(&palette.orange));
    hl_treesitter.push("TSComment", HighlightGroup::with_fg(&palette.grey).fmt(clone_fmt(&code_style.comments)));
    hl_treesitter.push("TSConditional", HighlightGroup::with_fg(&palette.purple).fmt(clone_fmt(&code_style.keywords)));
    hl_treesitter.push("TSConstant", HighlightGroup::with_fg(&palette.orange));
    hl_treesitter.push("TSConstBuiltin", HighlightGroup::with_fg(&palette.orange));
    hl_treesitter.push("TSConstMacro", HighlightGroup::with_fg(&palette.orange));
    hl_treesitter.push("TSConstructor", HighlightGroup::with_fg(&palette.yellow).fmt(Some(one_attr(FmtType::Bold))));
    hl_treesitter.push("TSError", HighlightGroup::with_fg(&palette.fg));
    hl_treesitter.push("TSException", HighlightGroup::with_fg(&palette.purple));
    hl_treesitter.push("TSField", HighlightGroup::with_fg(&palette.cyan));
    hl_treesitter.push("TSFloat", HighlightGroup::with_fg(&palette.orange));
    hl_treesitter.push("TSFunction", HighlightGroup::with_fg(&palette.blue).fmt(clone_fmt(&code_style.functions)));
    hl_treesitter.push("TSFuncBuiltin", HighlightGroup::with_fg(&palette.cyan).fmt(clone_fmt(&code_style.functions)));
    hl_treesitter.push("TSFuncMacro", HighlightGroup::with_fg(&palette.cyan).fmt(clone_fmt(&code_style.functions)));
    hl_treesitter.push("TSInclude", HighlightGroup::with_fg(&palette.purple));
    hl_treesitter.push("TSKeyword", HighlightGroup::with_fg(&palette.purple).fmt(clone_fmt(&code_style.keywords)));
    hl_treesitter.push("TSKeywordFunction", HighlightGroup::with_fg(&palette.purple).fmt(clone_fmt(&code_style.functions)));
    hl_treesitter.push("TSKeywordOperator", HighlightGroup::with_fg(&palette.purple).fmt(clone_fmt(&code_style.keywords)));
    hl_treesitter.push("TSLabel", HighlightGroup::with_fg(&palette.red));
    hl_treesitter.push("TSMethod", HighlightGroup::with_fg(&palette.blue).fmt(clone_fmt(&code_style.functions)));
    hl_treesitter.push("TSNamespace", HighlightGroup::with_fg(&palette.yellow));
    hl_treesitter.push("TSNone", HighlightGroup::with_fg(&palette.fg));
    hl_treesitter.push("TSNumber", HighlightGroup::with_fg(&palette.orange));
    hl_treesitter.push("TSOperator", HighlightGroup::with_fg(&palette.fg));
    hl_treesitter.push("TSParameter", HighlightGroup::with_fg(&palette.red));
    hl_treesitter.push("TSParameterReference", HighlightGroup::with_fg(&palette.fg));
    hl_treesitter.push("TSProperty", HighlightGroup::with_fg(&palette.cyan));
    hl_treesitter.push("TSPunctDelimiter", HighlightGroup::with_fg(&palette.light_grey));
    hl_treesitter.push("TSPunctBracket", HighlightGroup::with_fg(&palette.light_grey));
    hl_treesitter.push("TSPunctSpecial", HighlightGroup::with_fg(&palette.red));
    hl_treesitter.push("TSRepeat", HighlightGroup::with_fg(&palette.purple).fmt(clone_fmt(&code_style.keywords)));
    hl_treesitter.push("TSString", HighlightGroup::with_fg(&palette.green).fmt(clone_fmt(&code_style.strings)));
    hl_treesitter.push("TSStringRegex", HighlightGroup::with_fg(&palette.orange).fmt(clone_fmt(&code_style.strings)));
    hl_treesitter.push("TSStringEscape", HighlightGroup::with_fg(&palette.red).fmt(clone_fmt(&code_style.strings)));
    hl_treesitter.push("TSSymbol", HighlightGroup::with_fg(&palette.cyan));
    hl_treesitter.push("TSTag", HighlightGroup::with_fg(&palette.purple));
    hl_treesitter.push("TSTagDelimiter", HighlightGroup::with_fg(&palette.purple));
    hl_treesitter.push("TSText", HighlightGroup::with_fg(&palette.fg));
    hl_treesitter.push("TSStrong", HighlightGroup::with_fg(&palette.fg).fmt(Some(one_attr(FmtType::Bold))));
    hl_treesitter.push("TSEmphasis", HighlightGroup::with_fg(&palette.fg).fmt(Some(one_attr(FmtType::Italic))));
    hl_treesitter.push("TSUnderline", HighlightGroup::with_fg(&palette.fg).fmt(Some(one_attr(FmtType::Underline))));
    hl_treesitter.push("TSStrike", HighlightGroup::with_fg(&palette.fg).fmt(Some(one_attr(FmtType::StrikeThrough))));
    hl_treesitter.push("TSTitle", HighlightGroup::with_fg(&palette.orange).fmt(Some(one_attr(FmtType::Bold))));
    hl_treesitter.push("TSLiteral", HighlightGroup::with_fg(&palette.green));
    hl_treesitter.push("TSURI", HighlightGroup::with_fg(&palette.cyan).fmt(Some(one_attr(FmtType::Underline))));
    hl_treesitter.push("TSMath", HighlightGroup::with_fg(&palette.fg));
    hl_treesitter.push("TSTextReference", HighlightGroup::with_fg(&palette.blue));
    hl_treesitter.push("TSEnvironment", HighlightGroup::with_fg(&palette.fg));
    hl_treesitter.push("TSEnvironmentName", HighlightGroup::with_fg(&palette.fg));
    hl_treesitter.push("TSNote", HighlightGroup::with_fg(&palette.fg));
    hl_treesitter.push("TSWarning", HighlightGroup::with_fg(&palette.fg));
    hl_treesitter.push("TSDanger", HighlightGroup::with_fg(&palette.fg));
    hl_treesitter.push("TSType", HighlightGroup::with_fg(&palette.yellow));
    hl_treesitter.push("TSTypeBuiltin", HighlightGroup::with_fg(&palette.orange));
    hl_treesitter.push("TSVariable", HighlightGroup::with_fg(&palette.fg).fmt(clone_fmt(&code_style.variables)));
    hl_treesitter.push("TSVariableBuiltin", HighlightGroup::with_fg(&palette.red).fmt(clone_fmt(&code_style.variables)));
    hl_treesitter
}

/// The groups of language-server diagnostics and references.
fn lsp_table(palette: &ColorPalette, config: &OneDarkConfig, shades: &DiagnosticColors) -> (res: HighlightTable)
    ensures
        res@ == lsp_groups(*palette, *config, *shades),
{
    let diagnostics = &config.diagnostics;
    let code_style = &config.code_style;
    let diag = diagnostic_colors(palette, diagnostics);
    let diagnostics_error_color = &diag.error;
    let diagnostics_hint_color = &diag.hint;
    let diagnostics_warn_color = &diag.warn;
    let diagnostics_info_color = &diag.info;
    let error_bg: Option<Color> = if diagnostics.background { Some(shades.error) } else { None };
    let warn_bg: Option<Color> = if diagnostics.background { Some(shades.warn) } else { None };
    let info_bg: Option<Color> = if diagnostics.background { Some(shades.info) } else { None };
    let hint_bg: Option<Color> = if diagnostics.background { Some(shades.hint) } else { None };
    let underline_fmt = if diagnostics.undercurl {
        one_attr(FmtType::Undercurl)
    } else {
        one_attr(FmtType::Underline)
    };
    let diagnostic_error = HighlightGroup::with_fg(&palette.red);
    let diagnostic_hint = HighlightGroup::with_fg(&palette.purple);
    let diagnostic_info = HighlightGroup::with_fg(&palette.cyan);
    let diagnostic_warn = HighlightGroup::with_fg(&palette.yellow);
    let diagnostic_virtual_text_error = HighlightGroup::with_fg(diagnostics_error_color).bg(error_bg);
    let diagnostic_virtual_text_warn = HighlightGroup::with_fg(diagnostics_warn_color).bg(warn_bg);
    let diagnostic_virtual_text_info = HighlightGroup::with_fg(diagnostics_info_color).bg(info_bg);
    let diagnostic_virtual_text_hint = HighlightGroup::with_fg(diagnostics_hint_color).bg(hint_bg);
    let diagnostic_underline_error = HighlightGroup::with_fmt(Some(clone_fmt_list(&underline_fmt))).sp(&palette.red);
    let diagnostic_underline_warn = HighlightGroup::with_fmt(Some(clone_fmt_list(&underline_fmt))).sp(&palette.yellow);
    let diagnostic_underline_info = HighlightGroup::with_fmt(Some(clone_fmt_list(&underline_fmt))).sp(&palette.blue);
    let diagnostic_underline_hint = HighlightGroup::with_fmt(Some(clone_fmt_list(&underline_fmt))).sp(&palette.purple);
    let mut lsp_plugin = HighlightTable::new();
    lsp_plugin.push("LspCxxHlGroupEnumConstant", HighlightGroup::with_fg(&palette.orange));
    lsp_plugin.push("LspCxxHlGroupMemberVariable", HighlightGroup::with_fg(&palette.orange));
    lsp_plugin.push("LspCxxHlGroupNamespace", HighlightGroup::with_fg(&palette.blue));
    lsp_plugin.push("LspCxxHlSkippedRegion", HighlightGroup::with_fg(&palette.grey));
    lsp_plugin.push("LspCxxHlSkippedRegionBeginEnd", HighlightGroup::with_fg(&palette.red));
    lsp_plugin.push("DiagnosticError", diagnostic_error.clone());
    lsp_plugin.push("DiagnosticHint", diagnostic_hint.clone());
    lsp_plugin.push("DiagnosticInfo", diagnostic_info.clone());
    lsp_plugin.push("DiagnosticWarn", diagnostic_warn.clone());
    lsp_plugin.push("DiagnosticVirtualTextError", diagnostic_virtual_text_error.clone());
    lsp_plugin.push("DiagnosticVirtualTextWarn", diagnostic_virtual_text_warn.clone());
    lsp_plugin.push("DiagnosticVirtualTextInfo", diagnostic_virtual_text_info.clone());
    lsp_plugin.push("DiagnosticVirtualTextHint", diagnostic_virtual_text_hint.clone());
    lsp_plugin.push("DiagnosticUnderlineInfo", diagnostic_virtual_text_info.clone());
    lsp_plugin.push("DiagnosticUnderlineWarn", diagnostic_virtual_text_warn.clone());
    lsp_plugin.push("LspReferenceText", HighlightGroup::with_bg(&palette.bg2));
    lsp_plugin.push("LspReferenceWrite", HighlightGroup::with_bg(&palette.bg2));
    lsp_plugin.push("LspReferenceRead", HighlightGroup::with_bg(&palette.bg2));
    lsp_plugin.push("LspCodeLens", HighlightGroup::with_fg(&palette.grey).fmt(clone_fmt(&code_style.comments)));
    lsp_plugin.push("LspCodeLensSeparator", HighlightGroup::with_fg(&palette.grey));
    lsp_plugin.push("LspDiagnosticsDefaultError", diagnostic_error.clone());
    lsp_plugin.push("LspDiagnosticsDefaultHint", diagnostic_hint.clone());
    lsp_plugin.push("LspDiagnosticsDefaultInformation", diagnostic_info.clone());
    lsp_plugin.push("LspDiagnosticsDefaultWarning", diagnostic_warn.clone());
    lsp_plugin.push("LspDiagnosticsUnderlineError", diagnostic_underline_error.clone());
    lsp_plugin.push("LspDiagnosticsUnderlineHint", diagnostic_underline_hint.clone());
    lsp_plugin.push("LspDiagnosticsUnderlineInformation", diagnostic_underline_info.clone());
    lsp_plugin.push("LspDiagnosticsUnderlineWarning", diagnostic_underline_warn.clone());
    lsp_plugin.push("LspDiagnosticsVirtualTextError", diagnostic_virtual_text_error.clone());
    lsp_plugin.push("LspDiagnosticsVirtualTextWarning", diagnostic_virtual_text_warn.clone());
    lsp_plugin.push("LspDiagnosticsVirtualTextInformation", diagnostic_virtual_text_info.clone());
    lsp_plugin.push("LspDiagnosticsVirtualTextHint", diagnostic_virtual_text_hint.clone());
    lsp_plugin
}

/// The groups of the completion menu.
fn completion_table(palette: &ColorPalette, config: &OneDarkConfig) -> (res: HighlightTable)
    ensures
        res@ == completion_groups(*palette, *config),
{
    let cmp_itemkind_reverse = config.cmp_itemkind_reverse;
    let cmp_item_kind_fmt: Option<Vec<FmtType>> = if cmp_itemkind_reverse {
        Some(one_attr(FmtType::Reverse))
    } else {
        None
    };
    let mut cmp_highlights = HighlightTable::new();
    cmp_highlights.push("CmpItemAbbr", HighlightGroup::with_fg(&palette.fg));
    cmp_highlights.push("CmpItemAbbrDeprecated", HighlightGroup::with_fg(&palette.light_grey).fmt(Some(one_attr(FmtType::StrikeThrough))));
    cmp_highlights.push("CmpItemAbbrMatch", HighlightGroup::with_fg(&palette.cyan));
    cmp_highlights.push("CmpItemAbbrMatchFuzzy", HighlightGroup::with_fg(&palette.cyan).fmt(Some(one_attr(FmtType::Underline))));
    cmp_highlights.push("CmpItemMenu", HighlightGroup::with_fg(&palette.light_grey));
    cmp_highlights.push("CmpItemKind", HighlightGroup::with_fg(&palette.purple).fmt(Some(fmt_or_empty(&cmp_item_kind_fmt))));
    let mut lsp_kind: Vec<(&'static str, Color)> = Vec::new();
    lsp_kind.push(("CmpItemKindDefault", palette.purple));
    lsp_kind.push(("CmpItemKindArray", palette.yellow));
    lsp_kind.push(("CmpItemKindBoolean", palette.orange));
    lsp_kind.push(("CmpItemKindClass", palette.yellow));
    lsp_kind.push(("CmpItemKindColor", palette.green));
    lsp_kind.push(("CmpItemKindConstant", palette.orange));
    lsp_kind.push(("CmpItemKindConstructor", palette.blue));
    lsp_kind.push(("CmpItemKindEnum", palette.purple));
    lsp_kind.push(("CmpItemKindEnumMember", palette.yellow));
    lsp_kind.push(("CmpItemKindEvent", palette.yellow));
    lsp_kind.push(("CmpItemKindField", palette.purple));
    lsp_kind.push(("CmpItemKindFile", palette.blue));
    lsp_kind.push(("CmpItemKindFolder", palette.orange));
    lsp_kind.push(("CmpItemKindFunction", palette.blue));
    lsp_kind.push(("CmpItemKindInterface", palette.green));
    lsp_kind.push(("CmpItemKindKey", palette.cyan));
    lsp_kind.push(("CmpItemKindKeyword", palette.cyan));
    lsp_kind.push(("CmpItemKindMethod", palette.blue));
    lsp_kind.push(("CmpItemKindModule", palette.orange));
    lsp_kind.push(("CmpItemKindNamespace", palette.red));
    lsp_kind.push(("CmpItemKindNull", palette.grey));
    lsp_kind.push(("CmpItemKindNumber", palette.orange));
    lsp_kind.push(("CmpItemKindObject", palette.red));
    lsp_kind.push(("CmpItemKindOperator", palette.red));
    lsp_kind.push(("CmpItemKindPackage", palette.yellow));
    lsp_kind.push(("CmpItemKindProperty", palette.cyan));
    lsp_kind.push(("CmpItemKindReference", palette.orange));
    lsp_kind.push(("CmpItemKindSnippet", palette.red));
    lsp_kind.push(("CmpItemKindString", palette.green));
    lsp_kind.push(("CmpItemKindStruct", palette.purple));
    lsp_kind.push(("CmpItemKindText", palette.light_grey));
    lsp_kind.push(("CmpItemKindTypeParameter", palette.red));
    lsp_kind.push(("CmpItemKindUnit", palette.green));
    lsp_kind.push(("CmpItemKindValue", palette.orange));
    lsp_kind.push(("CmpItemKindVariable", palette.purple));
    push_kind_groups(&mut cmp_highlights, &lsp_kind, cmp_itemkind_reverse);
    cmp_highlights
}

/// The groups of the which-key plugin.
fn whichkey_table(palette: &ColorPalette, config: &OneDarkConfig) -> (res: HighlightTable)
    ensures
        res@ == whichkey_groups(*palette, *config),
{
    let mut whichkey_highlights = HighlightTable::new();
    whichkey_highlights.push("WhichKey", HighlightGroup::with_fg(&palette.red));
    whichkey_highlights.push("WhichKeyDesc", HighlightGroup::with_fg(&palette.blue));
    whichkey_highlights.push("WhichKeyGroup", HighlightGroup::with_fg(&palette.orange));
    whichkey_highlights.push("WhichKeySeparator", HighlightGroup::with_fg(&palette.green));
    whichkey_highlights
}

/// The groups of the gitgutter plugin.
fn gitgutter_table(palette: &ColorPalette, config: &OneDarkConfig) -> (res: HighlightTable)
    ensures
        res@ == gitgutter_groups(*palette, *config),
{
    let mut gitgutter_highlights = HighlightTable::new();
    gitgutter_highlights.push("GitGutterAdd", HighlightGroup::with_fg(&palette.green));
    gitgutter_highlights.push("GitGutterChange", HighlightGroup::with_fg(&palette.blue));
    gitgutter_highlights.push("GitGutterDelete", HighlightGroup::with_fg(&palette.red));
    gitgutter_highlights
}

/// The groups of the diffview plugin.
fn diffview_table(palette: &ColorPalette, config: &OneDarkConfig) -> (res: HighlightTable)
    ensures
        res@ == diffview_groups(*palette, *config),
{
    let transparent = config.transparent;
    let ending_tildes = config.ending_tildes;
    let mut diffview_highlights = HighlightTable::new();
    diffview_highlights.push("DiffviewFilePanelTitle", HighlightGroup::with_fg(&palette.blue).fmt(Some(one_attr(FmtType::Bold))));
    diffview_highlights.push("DiffviewFilePanelCounter", HighlightGroup::with_fg(&palette.purple).fmt(Some(one_attr(FmtType::Bold))));
    diffview_highlights.push("DiffviewFilePanelFileName", HighlightGroup::with_fg(&palette.fg));
    diffview_highlights.push("DiffviewNormal", HighlightGroup::with_fg(&palette.fg).bg(if transparent { Some(&palette.bg0) } else { None }));
    diffview_highlights.push("DiffviewCursorLine", HighlightGroup::with_bg(&palette.bg1));
    diffview_highlights.push("DiffviewVertSplit", HighlightGroup::with_fg(&palette.bg3));
    diffview_highlights.push("DiffviewSignColumn", HighlightGroup::with_fg(&palette.fg).bg(if transparent { Some(&palette.bg0) } else { None }));
    diffview_highlights.push("DiffviewStatusLine", HighlightGroup::with_fg(&palette.fg).bg(&palette.bg2));
    diffview_highlights.push("DiffviewStatusLineNC", HighlightGroup::with_fg(&palette.grey).bg(&palette.bg1));
    diffview_highlights.push("DiffviewEndOfBuffer", HighlightGroup::with_fg(if ending_tildes { &palette.bg2 } else { &palette.bg0 }).bg(if transparent { Some(&palette.bg0) } else { None }));
    diffview_highlights.push("DiffviewFilePanelRootPath", HighlightGroup::with_fg(&palette.grey));
    diffview_highlights.push("DiffviewFilePanelPath", HighlightGroup::with_fg(&palette.grey));
    diffview_highlights.push("DiffviewFilePanelInsertions", HighlightGroup::with_fg(&palette.green));
    diffview_highlights.push("DiffviewFilePanelDeletions", HighlightGroup::with_fg(&palette.red));
    diffview_highlights.push("DiffviewStatusAdded", HighlightGroup::with_fg(&palette.green));
    diffview_highlights.push("DiffviewStatusUntracked", HighlightGroup::with_fg(&palette.blue));
    diffview_highlights.push("DiffviewStatusModified", HighlightGroup::with_fg(&palette.blue));
    diffview_highlights.push("DiffviewStatusRenamed", HighlightGroup::with_fg(&palette.blue));
    diffview_highlights.push("DiffviewStatusCopied", HighlightGroup::with_fg(&palette.blue));
    diffview_highlights.push("DiffviewStatusTypeChange", HighlightGroup::with_fg(&palette.blue));
    diffview_highlights.push("DiffviewStatusUnmerged", HighlightGroup::with_fg(&palette.blue));
    diffview_highlights.push("DiffviewStatusUnknown", HighlightGroup::with_fg(&palette.red));
    diffview_highlights.push("DiffviewStatusDeleted", HighlightGroup::with_fg(&palette.red));
    diffview_highlights.push("DiffviewStatusBroken", HighlightGroup::with_fg(&palette.red));
    diffview_highlights
}

/// The groups of the gitsigns plugin.
fn gitsigns_table(palette: &ColorPalette, config: &OneDarkConfig) -> (res: HighlightTable)
    ensures
        res@ == gitsigns_groups(*palette, *config),
{
    let mut gitsigns_highlights = HighlightTable::new();
    gitsigns_highlights.push("GitSignsAdd", HighlightGroup::with_fg(&palette.green));
    gitsigns_highlights.push("GitSignsAddLn", HighlightGroup::with_fg(&palette.green));
    gitsigns_highlights.push("GitSignsAddNr", HighlightGroup::with_fg(&palette.green));
    gitsigns_highlights.push("GitSignsChange", HighlightGroup::with_fg(&palette.blue));
    gitsigns_highlights.push("GitSignsChangeLn", HighlightGroup::with_fg(&palette.blue));
    gitsigns_highlights.push("GitSignsChangeNr", HighlightGroup::with_fg(&palette.blue));
    gitsigns_highlights.push("GitSignsDelete", HighlightGroup::with_fg(&palette.red));
    gitsigns_highlights.push("GitSignsDeleteLn", HighlightGroup::with_fg(&palette.red));
    gitsigns_highlights.push("GitSignsDeleteNr", HighlightGroup::with_fg(&palette.red));
    gitsigns_highlights
}

/// The groups of the telescope plugin.
fn telescope_table(palette: &ColorPalette, config: &OneDarkConfig) -> (res: HighlightTable)
    ensures
        res@ == telescope_groups(*palette, *config),
{
    let mut telescope_highlights = HighlightTable::new();
    telescope_highlights.push("TelescopeBorder", HighlightGroup::with_fg(&palette.red));
    telescope_highlights.push("TelescopePromptBorder", HighlightGroup::with_fg(&palette.cyan));
    telescope_highlights.push("TelescopeResultsBorder", HighlightGroup::with_fg(&palette.cyan));
    telescope_highlights.push("TelescopePreviewBorder", HighlightGroup::with_fg(&palette.cyan));
    telescope_highlights.push("TelescopeMatching", HighlightGroup::with_fg(&palette.orange).fmt(Some(one_attr(FmtType::Bold))));
    telescope_highlights.push("TelescopePromptPrefix", HighlightGroup::with_fg(&palette.green));
    telescope_highlights.push("TelescopeSelection", HighlightGroup::with_bg(&palette.bg2));
    telescope_highlights.push("TelescopeSelectionCaret", HighlightGroup::with_fg(&palette.yellow));
    telescope_highlights
}

/// The groups of the indent-blankline plugin.
fn indent_line_table(palette: &ColorPalette, config: &OneDarkConfig) -> (res: HighlightTable)
    ensures
        res@ == indent_line_groups(*palette, *config),
{
    let mut plugin_indent_line = HighlightTable::new();
    plugin_indent_line.push("IndentBlankLine1", HighlightGroup::with_fg(&palette.blue));
    plugin_indent_line.push("IndentBlankLine2", HighlightGroup::with_fg(&palette.green));
    plugin_indent_line.push("IndentBlankLine3", HighlightGroup::with_fg(&palette.cyan));
    plugin_indent_line.push("IndentBlankLine4", HighlightGroup::with_fg(&palette.light_grey));
    plugin_indent_line.push("IndentBlankLine5", HighlightGroup::with_fg(&palette.purple));
    plugin_indent_line.push("IndentBlankLine6", HighlightGroup::with_fg(&palette.red));
    plugin_indent_line.push("IndentBlanklineChar", HighlightGroup::with_fg(&palette.bg1).fmt(Some(one_attr(FmtType::NoCombine))));
    plugin_indent_line.push("IndentBlanklineContextChar", HighlightGroup::with_fg(&palette.grey).fmt(Some(one_attr(FmtType::NoCombine))));
    plugin_indent_line.push("IndentBlanklineContextStart", HighlightGroup::with_sp(&palette.grey).fmt(Some(one_attr(FmtType::Underline))));
    plugin_indent_line.push("IndentBlanklineContextSpaceChar", HighlightGroup::with_fmt(Some(one_attr(FmtType::NoCombine))));
    plugin_indent_line.push("IblIndent", HighlightGroup::with_fg(&palette.bg1).fmt(Some(one_attr(FmtType::NoCombine))));
    plugin_indent_line.push("IblWhitespace", HighlightGroup::with_fg(&palette.grey).fmt(Some(one_attr(FmtType::NoCombine))));
    plugin_indent_line.push("IblScope", HighlightGroup::with_fg(&palette.grey).fmt(Some(one_attr(FmtType::NoCombine))));
    plugin_indent_line
}

/// The first part of the groups of the mini plugins.
#[verifier::rlimit(60)]
fn mini_first_table(palette: &ColorPalette, config: &OneDarkConfig) -> (res: HighlightTable)
    ensures
        res@ == mini_groups_first(*palette, *config),
{
    let code_style = &config.code_style;
    let common_float_border = HighlightGroup::with_fg(&palette.grey).bg(&palette.bg1);
    let common_normal_float = HighlightGroup::with_fg(&palette.fg).bg(&palette.bg1);
    let common_added = HighlightGroup::with_fg(&palette.green);
    let common_removed = HighlightGroup::with_fg(&palette.red);
    let common_diff_delete = HighlightGroup::with_bg(&palette.diff_delete);
    let common_diff_text = HighlightGroup::with_bg(&palette.diff_text);
    let common_diff_add = HighlightGroup::with_bg(&palette.diff_add);
    let common_diff_change = HighlightGroup::with_bg(&palette.diff_change);
    let common_directory = HighlightGroup::with_fg(&palette.blue);
    let syntax_comment = HighlightGroup::with_fg(&palette.grey).fmt(clone_fmt(&code_style.comments));
    let syntax_title = HighlightGroup::with_fg(&palette.cyan);
    let diagnostic_error = HighlightGroup::with_fg(&palette.red);
    let diagnostic_hint = HighlightGroup::with_fg(&palette.purple);
    let diagnostic_info = HighlightGroup::with_fg(&palette.cyan);
    let diagnostic_warn = HighlightGroup::with_fg(&palette.yellow);
    let mut mini = HighlightTable::new();
    mini.push("MiniAnimateCursor", HighlightGroup::with_fmt(Some(two_attrs(FmtType::Reverse, FmtType::NoCombine))));
    mini.push("MiniAnimateNormalFloat", common_normal_float.clone());
    mini.push("MiniClueBorder", common_float_border.clone());
    mini.push("MiniClueDescGroup", diagnostic_warn.clone());
    mini.push("MiniClueDescSingle", common_normal_float.clone());
    mini.push("MiniClueNextKey", diagnostic_hint.clone());
    mini.push("MiniClueNextKeyWithPostkeys", diagnostic_error.clone());
    mini.push("MiniClueSeparator", diagnostic_info.clone());
    mini.push("MiniClueTitle", HighlightGroup::with_fg(&palette.cyan));
    mini.push("MiniCompletionActiveParameter", HighlightGroup::with_fmt(Some(one_attr(FmtType::Underline))));
    mini.push("MiniCursorword", HighlightGroup::with_fmt(Some(one_attr(FmtType::Underline))));
    mini.push("MiniCursorwordCurrent", HighlightGroup::with_fmt(Some(one_attr(FmtType::Underline))));
    mini.push("MiniDepsChangeAdded", common_added.clone());
    mini.push("MiniDepsChangeRemoved", common_removed.clone());
    mini.push("MiniDepsHint", diagnostic_hint.clone());
    mini.push("MiniDepsInfo", diagnostic_info.clone());
    mini.push("MiniDepsMsgBreaking", diagnostic_warn.clone());
    mini.push("MiniDepsPlaceholder", syntax_comment.clone());
    mini.push("MiniDepsTitle", syntax_title.clone());
    mini.push("MiniDepsTitleError", common_diff_delete.clone());
    mini.push("MiniDepsTitleSame", common_diff_text.clone());
    mini.push("MiniDepsTitleUpdate", common_diff_add.clone());
    mini.push("MiniDiffSignAdd", HighlightGroup::with_fg(&palette.green));
    mini.push("MiniDiffSignChange", HighlightGroup::with_fg(&palette.blue));
    mini.push("MiniDiffSignDelete", HighlightGroup::with_fg(&palette.red));
    mini.push("MiniDiffOverAdd", common_diff_add.clone());
    mini.push("MiniDiffOverChange", common_diff_text.clone());
    mini.push("MiniDiffOverContext", common_diff_change.clone());
    mini.push("MiniDiffOverDelete", common_diff_delete.clone());
    mini.push("MiniFilesBorder", common_float_border.clone());
    mini.push("MiniFilesBorderModified", diagnostic_warn.clone());
    mini.push("MiniFilesCursorLine", HighlightGroup::with_bg(&palette.bg2));
    mini.push("MiniFilesDirectory", common_directory.clone());
    mini.push("MiniFilesFile", HighlightGroup::with_fg(&palette.fg));
    mini.push("MiniFilesNormal", common_normal_float.clone());
    mini.push("MiniFilesTitle", HighlightGroup::with_fg(&palette.cyan));
    mini.push("MiniFilesTitleFocused", HighlightGroup::with_fg(&palette.cyan).fmt(Some(one_attr(FmtType::Bold))));
    mini.push("MiniHipatternsFixme", HighlightGroup::with_fg(&palette.bg0).bg(&palette.red).fmt(Some(one_attr(FmtType::Bold))));
    mini.push("MiniHipatternsHack", HighlightGroup::with_fg(&palette.bg0).bg(&palette.yellow).fmt(Some(one_attr(FmtType::Bold))));
    mini.push("MiniHipatternsNote", HighlightGroup::with_fg(&palette.bg0).bg(&palette.cyan).fmt(Some(one_attr(FmtType::Bold))));
    mini.push("MiniHipatternsTodo", HighlightGroup::with_fg(&palette.bg0).bg(&palette.purple).fmt(Some(one_attr(FmtType::Bold))));
    mini.push("MiniIconsAzure", HighlightGroup::with_fg(&palette.bg_blue));
    mini.push("MiniIconsBlue", HighlightGroup::with_fg(&palette.blue));
    mini.push("MiniIconsCyan", HighlightGroup::with_fg(&palette.cyan));
    mini.push("MiniIconsGreen", HighlightGroup::with_fg(&palette.green));
    mini.push("MiniIconsGrey", HighlightGroup::with_fg(&palette.fg));
    mini.push("MiniIconsOrange", HighlightGroup::with_fg(&palette.orange));
    mini.push("MiniIconsPurple", HighlightGroup::with_fg(&palette.purple));
    mini.push("MiniIconsRed", HighlightGroup::with_fg(&palette.red));
    mini.push("MiniIconsYellow", HighlightGroup::with_fg(&palette.yellow));
    mini.push("MiniIndentscopeSymbol", HighlightGroup::with_fg(&palette.grey));
    mini.push("MiniIndentscopePrefix", HighlightGroup::with_fmt(Some(one_attr(FmtType::NoCombine))));
    mini.push("MiniJump", HighlightGroup::with_fg(&palette.purple).fmt(Some(one_attr(FmtType::Underline))).sp(&palette.purple));
    mini.push("MiniJump2dDim", HighlightGroup::with_fg(&palette.grey).fmt(Some(one_attr(FmtType::NoCombine))));
    mini.push("MiniJump2dSpot", HighlightGroup::with_fg(&palette.red).fmt(Some(two_attrs(FmtType::Bold, FmtType::NoCombine))));
    mini
}

/// The second part of the groups of the mini plugins.
#[verifier::rlimit(60)]
fn mini_second_table(palette: &ColorPalette, config: &OneDarkConfig) -> (res: HighlightTable)
    ensures
        res@ == mini_groups_second(*palette, *config),
{
    let code_style = &config.code_style;
    let common_float_border = HighlightGroup::with_fg(&palette.grey).bg(&palette.bg1);
    let common_normal_float = HighlightGroup::with_fg(&palette.fg).bg(&palette.bg1);
    let common_inc_search = HighlightGroup::with_fg(&palette.bg0).bg(&palette.orange);
    let common_directory = HighlightGroup::with_fg(&palette.blue);
    let syntax_title = HighlightGroup::with_fg(&palette.cyan);
    let syntax_special = HighlightGroup::with_fg(&palette.red);
    let syntax_delimiter = HighlightGroup::with_fg(&palette.light_grey);
    let diagnostic_hint = HighlightGroup::with_fg(&palette.purple);
    let diagnostic_info = HighlightGroup::with_fg(&palette.cyan);
    let diagnostic_warn = HighlightGroup::with_fg(&palette.yellow);
    let mut mini = HighlightTable::new();
    mini.push("MiniJump2dSpotAhead", HighlightGroup::with_fg(&palette.cyan).bg(&palette.bg0).fmt(Some(one_attr(FmtType::NoCombine))));
    mini.push("MiniJump2dSpotUnique", HighlightGroup::with_fg(&palette.yellow).fmt(Some(two_attrs(FmtType::Bold, FmtType::NoCombine))));
    mini.push("MiniMapNormal", common_normal_float.clone());
    mini.push("MiniMapSymbolCount", syntax_special.clone());
    mini.push("MiniMapSymbolLine", syntax_title.clone());
    mini.push("MiniMapSymbolView", syntax_delimiter.clone());
    mini.push("MiniNotifyBorder", common_float_border.clone());
    mini.push("MiniNotifyNormal", common_normal_float.clone());
    mini.push("MiniNotifyTitle", HighlightGroup::with_fg(&palette.cyan));
    mini.push("MiniOperatorsExchangeFrom", common_inc_search.clone());
    mini.push("MiniPickBorder", common_float_border.clone());
    mini.push("MiniPickBorderBusy", diagnostic_warn.clone());
    mini.push("MiniPickBorderText", HighlightGroup::with_fg(&palette.cyan).fmt(Some(one_attr(FmtType::Bold))));
    mini.push("MiniPickIconDirectory", common_directory.clone());
    mini.push("MiniPickIconFile", common_normal_float.clone());
    mini.push("MiniPickHeader", diagnostic_hint.clone());
    mini.push("MiniPickMatchCurrent", HighlightGroup::with_bg(&palette.bg2));
    mini.push("MiniPickMatchMarked", HighlightGroup::with_bg(&palette.diff_text));
    mini.push("MiniPickMatchRanges", diagnostic_hint.clone());
    mini.push("MiniPickNormal", common_normal_float.clone());
    mini.push("MiniPickPreviewLine", HighlightGroup::with_bg(&palette.bg2));
    mini.push("MiniPickPreviewRegion", common_inc_search.clone());
    mini.push("MiniPickPrompt", diagnostic_info.clone());
    mini.push("MiniStarterCurrent", HighlightGroup::with_fmt(Some(one_attr(FmtType::NoCombine))));
    mini.push("MiniStarterFooter", HighlightGroup::with_fg(&palette.dark_red).fmt(Some(one_attr(FmtType::Italic))));
    mini.push("MiniStarterHeader", HighlightGroup::with_fg(&palette.yellow));
    mini.push("MiniStarterInactive", HighlightGroup::with_fg(&palette.grey).fmt(clone_fmt(&code_style.comments)));
    mini.push("MiniStarterItem", HighlightGroup::with_fg(&palette.fg).bg(&palette.bg0));
    mini.push("MiniStarterItemBullet", HighlightGroup::with_fg(&palette.grey));
    mini.push("MiniStarterItemPrefix", HighlightGroup::with_fg(&palette.yellow));
    mini.push("MiniStarterSection", HighlightGroup::with_fg(&palette.light_grey));
    mini.push("MiniStarterQuery", HighlightGroup::with_fg(&palette.cyan));
    mini.push("MiniStatuslineDevinfo", HighlightGroup::with_fg(&palette.fg).bg(&palette.bg2));
    mini.push("MiniStatuslineFileinfo", HighlightGroup::with_fg(&palette.fg).bg(&palette.bg2));
    mini.push("MiniStatuslineFilename", HighlightGroup::with_fg(&palette.grey).bg(&palette.bg1));
    mini.push("MiniStatuslineInactive", HighlightGroup::with_fg(&palette.grey).bg(&palette.bg0));
    mini.push("MiniStatuslineModeCommand", HighlightGroup::with_fg(&palette.bg0).bg(&palette.yellow).fmt(Some(one_attr(FmtType::Bold))));
    mini.push("MiniStatuslineModeInsert", HighlightGroup::with_fg(&palette.bg0).bg(&palette.blue).fmt(Some(one_attr(FmtType::Bold))));
    mini.push("MiniStatuslineModeNormal", HighlightGroup::with_fg(&palette.bg0).bg(&palette.green).fmt(Some(one_attr(FmtType::Bold))));
    mini.push("MiniStatuslineModeOther", HighlightGroup::with_fg(&palette.bg0).bg(&palette.cyan).fmt(Some(one_attr(FmtType::Bold))));
    mini.push("MiniStatuslineModeReplace", HighlightGroup::with_fg(&palette.bg0).bg(&palette.red).fmt(Some(one_attr(FmtType::Bold))));
    mini.push("MiniStatuslineModeVisual", HighlightGroup::with_fg(&palette.bg0).bg(&palette.purple).fmt(Some(one_attr(FmtType::Bold))));
    mini.push("MiniSurround", HighlightGroup::with_fg(&palette.bg0).bg(&palette.orange));
    mini.push("MiniTablineCurrent", HighlightGroup::with_fmt(Some(one_attr(FmtType::Bold))));
    mini.push("MiniTablineFill", HighlightGroup::with_fg(&palette.grey).bg(&palette.bg1));
    mini.push("MiniTablineHidden", HighlightGroup::with_fg(&palette.fg).bg(&palette.bg1));
    mini.push("MiniTablineModifiedCurrent", HighlightGroup::with_fg(&palette.orange).fmt(Some(two_attrs(FmtType::Bold, FmtType::Italic))));
    mini.push("MiniTablineModifiedHidden", HighlightGroup::with_fg(&palette.light_grey).bg(&palette.bg1).fmt(Some(one_attr(FmtType::Italic))));
    mini.push("MiniTablineModifiedVisible", HighlightGroup::with_fg(&palette.yellow).bg(&palette.bg0).fmt(Some(one_attr(FmtType::Italic))));
    mini.push("MiniTablineTabpagesection", HighlightGroup::with_fg(&palette.bg0).bg(&palette.bg_yellow));
    mini.push("MiniTablineVisible", HighlightGroup::with_fg(&palette.light_grey).bg(&palette.bg0));
    mini.push("MiniTestEmphasis", HighlightGroup::with_fmt(Some(one_attr(FmtType::Bold))));
    mini.push("MiniTestFail", HighlightGroup::with_fg(&palette.red).fmt(Some(one_attr(FmtType::Bold))));
    mini.push("MiniTestPass", HighlightGroup::with_fg(&palette.green).fmt(Some(one_attr(FmtType::Bold))));
    mini.push("MiniTrailspace", HighlightGroup::with_bg(&palette.red));
    mini
}

/// The groups of C.
fn c_table(palette: &ColorPalette, config: &OneDarkConfig) -> (res: HighlightTable)
    ensures
        res@ == c_groups(*palette, *config),
{
    let mut c_highlights = HighlightTable::new();
    c_highlights.push("cInclude", HighlightGroup::with_fg(&palette.blue));
    c_highlights.push("cStorageClass", HighlightGroup::with_fg(&palette.purple));
    c_highlights.push("cTypedef", HighlightGroup::with_fg(&palette.purple));
    c_highlights.push("cDefine", HighlightGroup::with_fg(&palette.cyan));
    c_highlights.push("cTSInclude", HighlightGroup::with_fg(&palette.blue));
    c_highlights.push("cTSConstant", HighlightGroup::with_fg(&palette.cyan));
    c_highlights.push("cTSConstMacro", HighlightGroup::with_fg(&palette.purple));
    c_highlights.push("cTSOperator", HighlightGroup::with_fg(&palette.purple));
    c_highlights
}

/// The groups of C++.
fn cpp_table(palette: &ColorPalette, config: &OneDarkConfig) -> (res: HighlightTable)
    ensures
        res@ == cpp_groups(*palette, *config),
{
    let mut cpp_highlights = HighlightTable::new();
    cpp_highlights.push("cppStatement", HighlightGroup::with_fg(&palette.purple).fmt(Some(one_attr(FmtType::Bold))));
    cpp_highlights.push("cppTSInclude", HighlightGroup::with_fg(&palette.blue));
    cpp_highlights.push("cppTSConstant", HighlightGroup::with_fg(&palette.cyan));
    cpp_highlights.push("cppTSConstMacro", HighlightGroup::with_fg(&palette.purple));
    cpp_highlights.push("cppTSOperator", HighlightGroup::with_fg(&palette.purple));
    cpp_highlights
}

/// The groups of Markdown.
fn markdown_table(palette: &ColorPalette, config: &OneDarkConfig) -> (res: HighlightTable)
    ensures
        res@ == markdown_groups(*palette, *config),
{
    let mut markdown_highlights = HighlightTable::new();
    markdown_highlights.push("markdownBlockquote", HighlightGroup::with_fg(&palette.grey));
    markdown_highlights.push("markdownBold", HighlightGroup::with_fmt(Some(one_attr(FmtType::Bold))));
    markdown_highlights.push("markdownBoldDelimiter", HighlightGroup::with_fg(&palette.grey));
    markdown_highlights.push("markdownCode", HighlightGroup::with_fg(&palette.green));
    markdown_highlights.push("markdownCodeBlock", HighlightGroup::with_fg(&palette.green));
    markdown_highlights.push("markdownCodeDelimiter", HighlightGroup::with_fg(&palette.yellow));
    markdown_highlights.push("markdownH1", HighlightGroup::with_fg(&palette.red).fmt(Some(one_attr(FmtType::Bold))));
    markdown_highlights.push("markdownH2", HighlightGroup::with_fg(&palette.purple).fmt(Some(one_attr(FmtType::Bold))));
    markdown_highlights.push("markdownH3", HighlightGroup::with_fg(&palette.orange).fmt(Some(one_attr(FmtType::Bold))));
    markdown_highlights.push("markdownH4", HighlightGroup::with_fg(&palette.red).fmt(Some(one_attr(FmtType::Bold))));
    markdown_highlights.push("markdownH5", HighlightGroup::with_fg(&palette.purple).fmt(Some(one_attr(FmtType::Bold))));
    markdown_highlights.push("markdownH6", HighlightGroup::with_fg(&palette.orange).fmt(Some(one_attr(FmtType::Bold))));
    markdown_highlights.push("markdownHeadingDelimiter", HighlightGroup::with_fg(&palette.grey));
    markdown_highlights.push("markdownHeadingRule", HighlightGroup::with_fg(&palette.grey));
    markdown_highlights.push("markdownId", HighlightGroup::with_fg(&palette.yellow));
    markdown_highlights.push("markdownIdDeclaration", HighlightGroup::with_fg(&palette.red));
    markdown_highlights.push("markdownItalic", HighlightGroup::with_fmt(Some(one_attr(FmtType::Italic))));
    markdown_highlights.push("markdownItalicDelimiter", HighlightGroup::with_fg(&palette.grey).fmt(Some(one_attr(FmtType::Italic))));
    markdown_highlights.push("markdownLinkDelimiter", HighlightGroup::with_fg(&palette.grey));
    markdown_highlights.push("markdownLinkText", HighlightGroup::with_fg(&palette.red));
    markdown_highlights.push("markdownLinkTextDelimiter", HighlightGroup::with_fg(&palette.grey));
    markdown_highlights.push("markdownListMarker", HighlightGroup::with_fg(&palette.red));
    markdown_highlights.push("markdownOrderedListMarker", HighlightGroup::with_fg(&palette.red));
    markdown_highlights.push("markdownRule", HighlightGroup::with_fg(&palette.purple));
    markdown_highlights.push("markdownUrl", HighlightGroup::with_fg(&palette.blue).fmt(Some(one_attr(FmtType::Underline))));
    markdown_highlights.push("markdownUrlDelimiter", HighlightGroup::with_fg(&palette.grey));
    markdown_highlights.push("markdownUrlTitleDelimiter", HighlightGroup::with_fg(&palette.green));
    markdown_highlights
}

/// The groups of PHP.
fn php_table(palette: &ColorPalette, config: &OneDarkConfig) -> (res: HighlightTable)
    ensures
        res@ == php_groups(*palette, *config),
{
    let code_style = &config.code_style;
    let mut php_highlights = HighlightTable::new();
    php_highlights.push("phpFunctions", HighlightGroup::with_fg(&palette.fg).fmt(clone_fmt(&code_style.functions)));
    php_highlights.push("phpMethods", HighlightGroup::with_fg(&palette.cyan));
    php_highlights.push("phpStructure", HighlightGroup::with_fg(&palette.purple));
    php_highlights.push("phpOperator", HighlightGroup::with_fg(&palette.purple));
    php_highlights.push("phpMemberSelector", HighlightGroup::with_fg(&palette.fg));
    php_highlights.push("phpVarSelector", HighlightGroup::with_fg(&palette.orange).fmt(clone_fmt(&code_style.variables)));
    php_highlights.push("phpIdentifier", HighlightGroup::with_fg(&palette.orange).fmt(clone_fmt(&code_style.variables)));
    php_highlights.push("phpBoolean", HighlightGroup::with_fg(&palette.cyan));
    php_highlights.push("phpNumber", HighlightGroup::with_fg(&palette.orange));
    php_highlights.push("phpHereDoc", HighlightGroup::with_fg(&palette.green));
    php_highlights.push("phpNowDoc", HighlightGroup::with_fg(&palette.green));
    php_highlights.push("phpSCKeyword", HighlightGroup::with_fg(&palette.purple).fmt(clone_fmt(&code_style.keywords)));
    php_highlights.push("phpFCKeyword", HighlightGroup::with_fg(&palette.purple).fmt(clone_fmt(&code_style.keywords)));
    php_highlights.push("phpRegion", HighlightGroup::with_fg(&palette.blue));
    php_highlights
}

/// The groups of Scala.
fn scala_table(palette: &ColorPalette, config: &OneDarkConfig) -> (res: HighlightTable)
    ensures
        res@ == scala_groups(*palette, *config),
{
    let code_style = &config.code_style;
    let mut scala_highlights = HighlightTable::new();
    scala_highlights.push("scalaNameDefinition", HighlightGroup::with_fg(&palette.fg));
    scala_highlights.push("scalaInterpolationBoundary", HighlightGroup::with_fg(&palette.purple));
    scala_highlights.push("scalaInterpolation", HighlightGroup::with_fg(&palette.purple));
    scala_highlights.push("scalaTypeOperator", HighlightGroup::with_fg(&palette.red));
    scala_highlights.push("scalaOperator", HighlightGroup::with_fg(&palette.red));
    scala_highlights.push("scalaKeywordModifier", HighlightGroup::with_fg(&palette.red).fmt(clone_fmt(&code_style.keywords)));
    scala_highlights
}

/// The groups of TeX.
fn tex_table(palette: &ColorPalette, config: &OneDarkConfig) -> (res: HighlightTable)
    ensures
        res@ == tex_groups(*palette, *config),
{
    let code_style = &config.code_style;
    let mut tex_highlights = HighlightTable::new();
    tex_highlights.push("latexTSInclude", HighlightGroup::with_fg(&palette.blue));
    tex_highlights.push("latexTSFuncMacro", HighlightGroup::with_fg(&palette.fg).fmt(clone_fmt(&code_style.functions)));
    tex_highlights.push("latexTSEnvironment", HighlightGroup::with_fg(&palette.cyan).fmt(Some(one_attr(FmtType::Bold))));
    tex_highlights.push("latexTSEnvironmentName", HighlightGroup::with_fg(&palette.yellow));
    tex_highlights.push("texCmdEnv", HighlightGroup::with_fg(&palette.cyan));
    tex_highlights.push("texEnvArgName", HighlightGroup::with_fg(&palette.yellow));
    tex_highlights.push("latexTSTitle", HighlightGroup::with_fg(&palette.green));
    tex_highlights.push("latexTSType", HighlightGroup::with_fg(&palette.blue));
    tex_highlights.push("latexTSMath", HighlightGroup::with_fg(&palette.orange));
    tex_highlights.push("texMathZoneX", HighlightGroup::with_fg(&palette.orange));
    tex_highlights.push("texMathZoneXX", HighlightGroup::with_fg(&palette.orange));
    tex_highlights.push("texMathDelimZone", HighlightGroup::with_fg(&palette.light_grey));
    tex_highlights.push("texMathDelim", HighlightGroup::with_fg(&palette.purple));
    tex_highlights.push("texMathOper", HighlightGroup::with_fg(&palette.red));
    tex_highlights.push("texCmd", HighlightGroup::with_fg(&palette.purple));
    tex_highlights.push("texCmdPart", HighlightGroup::with_fg(&palette.blue));
    tex_highlights.push("texCmdPackage", HighlightGroup::with_fg(&palette.blue));
    tex_highlights.push("texPgfType", HighlightGroup::with_fg(&palette.yellow));
    tex_highlights
}

/// The groups of Vim script.
fn vim_table(palette: &ColorPalette, config: &OneDarkConfig) -> (res: HighlightTable)
    ensures
        res@ == vim_groups(*palette, *config),
{
    let code_style = &config.code_style;
    let mut vim_highlights = HighlightTable::new();
    vim_highlights.push("vimOption", HighlightGroup::with_fg(&palette.red));
    vim_highlights.push("vimSetEqual", HighlightGroup::with_fg(&palette.yellow));
    vim_highlights.push("vimMap", HighlightGroup::with_fg(&palette.purple));
    vim_highlights.push("vimMapModKey", HighlightGroup::with_fg(&palette.orange));
    vim_highlights.push("vimNotation", HighlightGroup::with_fg(&palette.red));
    vim_highlights.push("vimMapLhs", HighlightGroup::with_fg(&palette.fg));
    vim_highlights.push("vimMapRhs", HighlightGroup::with_fg(&palette.blue));
    vim_highlights.push("vimVar", HighlightGroup::with_fg(&palette.fg).fmt(clone_fmt(&code_style.variables)));
    vim_highlights.push("vimCommentTitle", HighlightGroup::with_fg(&palette.light_grey).fmt(clone_fmt(&code_style.comments)));
    vim_highlights
}

/// The groups of the mini plugins.
fn mini_table(palette: &ColorPalette, config: &OneDarkConfig) -> (res: HighlightTable)
    ensures
        res@ == mini_groups(*palette, *config),
{
    let mut mini = mini_first_table(palette, config);
    mini.append(mini_second_table(palette, config));
    mini
}

/// The highlight groups of the scheme for a palette and a configuration.
/// `shades` are the backgrounds of diagnostic virtual text: the diagnostic
/// colours darkened towards the palette's background.
pub fn default(palette: &ColorPalette, config: &OneDarkConfig, shades: &DiagnosticColors) -> (res: Highlights)
    ensures
        res@ == scheme_highlights(*palette, *config, *shades),
{
    let mut hl_langs = TableSet::new();
    hl_langs.push("c", c_table(palette, config));
    hl_langs.push("cpp", cpp_table(palette, config));
    hl_langs.push("markdown", markdown_table(palette, config));
    hl_langs.push("php", php_table(palette, config));
    hl_langs.push("scala", scala_table(palette, config));
    hl_langs.push("tex", tex_table(palette, config));
    hl_langs.push("vim", vim_table(palette, config));

    let mut hl_plugins = TableSet::new();
    hl_plugins.push("lsp", lsp_table(palette, config, shades));
    hl_plugins.push("cmp", completion_table(palette, config));
    hl_plugins.push("whichkey", whichkey_table(palette, config));
    hl_plugins.push("gitgutter", gitgutter_table(palette, config));
    hl_plugins.push("diffview", diffview_table(palette, config));
    hl_plugins.push("gitsigns", gitsigns_table(palette, config));
    hl_plugins.push("telescope", telescope_table(palette, config));
    hl_plugins.push("indent_blankline", indent_line_table(palette, config));
    hl_plugins.push("mini", mini_table(palette, config));
    proof {
        reveal(scheme_highlights);
        assert(hl_langs@ =~= scheme_highlights(*palette, *config, *shades).langs);
        assert(hl_plugins@ =~= scheme_highlights(*palette, *config, *shades).plugins);
    }

    let res = Highlights {
        common: common_table(palette, config),
        syntax: syntax_table(palette, config),
        treesitter: treesitter_table(palette, config),
        lsp: None,
        plugins: hl_plugins,
        langs: hl_langs,
    };
    proof {
        reveal(scheme_highlights);
    }
    res
}


/// A colour that a highlight command sets: a colour of the palette, or the
/// editor's `none`.
#[derive(Clone, Copy, Debug)]
pub enum ColorSetting {
    NoColor,
    Hex(Color),
}

/// The attributes that one editor highlight command sets; `None` leaves an
/// attribute as the editor has it.
#[derive(Clone, Copy, Debug)]
pub struct HighlightOpts {
    pub foreground: Option<ColorSetting>,
    pub background: Option<ColorSetting>,
    pub special: Option<ColorSetting>,
    pub italic: Option<bool>,
    pub bold: Option<bool>,
    pub underline: Option<bool>,
    pub undercurl: Option<bool>,
    pub reverse: Option<bool>,
    pub nocombine: Option<bool>,
}

/// An editor command that defines the highlight group `name`.
#[derive(Clone, Debug)]
pub struct HighlightCommand {
    pub name: String,
    pub opts: HighlightOpts,
}

/// The name and the attributes of each command.
pub open spec fn commands_view(cmds: Seq<HighlightCommand>) -> Seq<(Seq<char>, HighlightOpts)> {
    cmds.map_values(|c: HighlightCommand| (c.name@, c.opts))
}

/// Whether an optional attribute list holds `f`; no list holds nothing.
pub open spec fn has_attr(fmt: Option<Seq<FmtType>>, f: FmtType) -> bool {
    match fmt {
        Some(s) => s.contains(f),
        None => false,
    }
}

/// A colour to set, or `none` where the group has no colour.
pub open spec fn color_or_none(c: Option<Color>) -> ColorSetting {
    match c {
        Some(c) => ColorSetting::Hex(c),
        None => ColorSetting::NoColor,
    }
}

/// A colour to set where the group has one, else nothing to set.
pub open spec fn color_if_set(c: Option<Color>) -> Option<ColorSetting> {
    match c {
        Some(c) => Some(ColorSetting::Hex(c)),
        None => None,
    }
}

/// An attribute flag to set where the group has an attribute list.
pub open spec fn flag_if_listed(fmt: Option<Seq<FmtType>>, f: FmtType) -> Option<bool> {
    match fmt {
        Some(s) => Some(s.contains(f)),
        None => None,
    }
}

/// The command that defines a group of the scheme whole: every colour that
/// the group lacks becomes `none`, and every attribute that it does not list
/// is switched off.
pub open spec fn full_opts(g: GroupView) -> HighlightOpts {
    HighlightOpts {
        foreground: Some(color_or_none(g.fg)),
        background: Some(color_or_none(g.bg)),
        special: Some(color_or_none(g.sp)),
        italic: Some(has_attr(g.fmt, FmtType::Italic)),
        bold: Some(has_attr(g.fmt, FmtType::Bold)),
        underline: Some(has_attr(g.fmt, FmtType::Underline)),
        undercurl: Some(has_attr(g.fmt, FmtType::Undercurl)),
        reverse: Some(has_attr(g.fmt, FmtType::Reverse)),
        nocombine: Some(has_attr(g.fmt, FmtType::NoCombine)),
    }
}

/// The command that lays a user's group over the scheme's: it sets only the
/// colours that the group has, and the attribute flags only if the group
/// lists attributes.
pub open spec fn partial_opts(g: GroupView) -> HighlightOpts {
    HighlightOpts {
        foreground: color_if_set(g.fg),
        background: color_if_set(g.bg),
        special: color_if_set(g.sp),
        italic: flag_if_listed(g.fmt, FmtType::Italic),
        bold: flag_if_listed(g.fmt, FmtType::Bold),
        underline: flag_if_listed(g.fmt, FmtType::Underline),
        undercurl: flag_if_listed(g.fmt, FmtType::Undercurl),
        reverse: flag_if_listed(g.fmt, FmtType::Reverse),
        nocombine: flag_if_listed(g.fmt, FmtType::NoCombine),
    }
}

/// The commands that define the groups of a table whole, in its order.
pub open spec fn full_commands(t: Seq<(Seq<char>, GroupView)>) -> Seq<(Seq<char>, HighlightOpts)> {
    t.map_values(|e: (Seq<char>, GroupView)| (e.0, full_opts(e.1)))
}

/// The commands that lay the groups of a table over the scheme's, in its order.
pub open spec fn partial_commands(t: Seq<(Seq<char>, GroupView)>) -> Seq<(Seq<char>, HighlightOpts)> {
    t.map_values(|e: (Seq<char>, GroupView)| (e.0, partial_opts(e.1)))
}

/// The commands that define the groups of each table of a set, table after
/// table.
pub open spec fn full_commands_of_set(ts: Seq<(Seq<char>, Seq<(Seq<char>, GroupView)>)>) -> Seq<
    (Seq<char>, HighlightOpts),
>
    decreases ts.len(),
{
    if ts.len() == 0 {
        Seq::empty()
    } else {
        full_commands_of_set(ts.drop_last()) + full_commands(ts.last().1)
    }
}

/// The commands that lay the groups of each table of a set over the scheme's,
/// table after table.
pub open spec fn partial_commands_of_set(ts: Seq<(Seq<char>, Seq<(Seq<char>, GroupView)>)>) -> Seq<
    (Seq<char>, HighlightOpts),
>
    decreases ts.len(),
{
    if ts.len() == 0 {
        Seq::empty()
    } else {
        partial_commands_of_set(ts.drop_last()) + partial_commands(ts.last().1)
    }
}

/// The colour setting of an optional colour, `none` if absent.
fn setting_or_none(c: Option<Color>) -> (res: ColorSetting)
    ensures
        res == color_or_none(c),
{
    match c {
        Some(c) => ColorSetting::Hex(c),
        None => ColorSetting::NoColor,
    }
}

/// Whether an optional attribute list holds `f`.
fn listed(fmt: &Option<Vec<FmtType>>, f: FmtType) -> (res: bool)
    ensures
        res == has_attr(fmt_view(*fmt), f),
{
    match fmt {
        Some(v) => fmt_contains(v, f),
        None => false,
    }
}

/// Appends `more` to `cmds`.
fn append_commands(cmds: &mut Vec<HighlightCommand>, more: Vec<HighlightCommand>)
    ensures
        commands_view(final(cmds)@) == commands_view(old(cmds)@) + commands_view(more@),
{
    let ghost a = cmds@;
    let ghost b = more@;
    let mut more = more;
    cmds.append(&mut more);
    proof {
        assert(commands_view(cmds@) =~= commands_view(a) + commands_view(b));
    }
}

/// The commands that define each group of a table whole.
pub fn vim_highlights(highlights: &HighlightTable) -> (res: Vec<HighlightCommand>)
    ensures
        commands_view(res@) == full_commands(highlights@),
{
    let mut res: Vec<HighlightCommand> = Vec::new();
    let mut i: usize = 0;
    while i < highlights.len()
        invariant
            i <= highlights@.len(),
            commands_view(res@) == full_commands(highlights@.take(i as int)),
        decreases highlights@.len() - i,
    {
        let g = highlights.group(i);
        let fmt = &g.fmt;
        let opts = HighlightOpts {
            foreground: Some(setting_or_none(g.fg)),
            background: Some(setting_or_none(g.bg)),
            special: Some(setting_or_none(g.sp)),
            italic: Some(listed(fmt, FmtType::Italic)),
            bold: Some(listed(fmt, FmtType::Bold)),
            underline: Some(listed(fmt, FmtType::Underline)),
            undercurl: Some(listed(fmt, FmtType::Undercurl)),
            reverse: Some(listed(fmt, FmtType::Reverse)),
            nocombine: Some(listed(fmt, FmtType::NoCombine)),
        };
        let ghost before = res@;
        res.push(HighlightCommand { name: highlights.name(i).clone(), opts });
        proof {
            assert(highlights@.take(i + 1) =~= highlights@.take(i as int).push(highlights@[i as int]));
            assert(commands_view(res@) =~= commands_view(before).push(
                (highlights@[i as int].0, full_opts(highlights@[i as int].1)),
            ));
            assert(full_commands(highlights@.take(i + 1)) =~= full_commands(
                highlights@.take(i as int),
            ).push((highlights@[i as int].0, full_opts(highlights@[i as int].1))));
        }
        i = i + 1;
    }
    proof {
        assert(highlights@.take(highlights@.len() as int) =~= highlights@);
    }
    res
}

/// The commands that lay each group of a table over the scheme's.
pub fn merge_highlights(highlights: &HighlightTable) -> (res: Vec<HighlightCommand>)
    ensures
        commands_view(res@) == partial_commands(highlights@),
{
    let mut res: Vec<HighlightCommand> = Vec::new();
    let mut i: usize = 0;
    while i < highlights.len()
        invariant
            i <= highlights@.len(),
            commands_view(res@) == partial_commands(highlights@.take(i as int)),
        decreases highlights@.len() - i,
    {
        let g = highlights.group(i);
        let fmt = &g.fmt;
        let mut opts = HighlightOpts {
            foreground: None,
            background: None,
            special: None,
            italic: None,
            bold: None,
            underline: None,
            undercurl: None,
            reverse: None,
            nocombine: None,
        };
        if g.fg.is_some() {
            opts.foreground = Some(setting_or_none(g.fg));
        }
        if g.bg.is_some() {
            opts.background = Some(setting_or_none(g.bg));
        }
        if g.sp.is_some() {
            opts.special = Some(setting_or_none(g.sp));
        }
        if g.fmt.is_some() {
            opts.italic = Some(listed(fmt, FmtType::Italic));
            opts.bold = Some(listed(fmt, FmtType::Bold));
            opts.underline = Some(listed(fmt, FmtType::Underline));
            opts.undercurl = Some(listed(fmt, FmtType::Undercurl));
            opts.reverse = Some(listed(fmt, FmtType::Reverse));
            opts.nocombine = Some(listed(fmt, FmtType::NoCombine));
        }
        let ghost before = res@;
        res.push(HighlightCommand { name: highlights.name(i).clone(), opts });
        proof {
            assert(highlights@.take(i + 1) =~= highlights@.take(i as int).push(highlights@[i as int]));
            assert(commands_view(res@) =~= commands_view(before).push(
                (highlights@[i as int].0, partial_opts(highlights@[i as int].1)),
            ));
            assert(partial_commands(highlights@.take(i + 1)) =~= partial_commands(
                highlights@.take(i as int),
            ).push((highlights@[i as int].0, partial_opts(highlights@[i as int].1))));
        }
        i = i + 1;
    }
    proof {
        assert(highlights@.take(highlights@.len() as int) =~= highlights@);
    }
    res
}

/// The commands that define the groups of every table of a set whole.
pub fn vim_highlights_of_set(tables: &TableSet) -> (res: Vec<HighlightCommand>)
    ensures
        commands_view(res@) == full_commands_of_set(tables@),
{
    let mut res: Vec<HighlightCommand> = Vec::new();
    let mut i: usize = 0;
    while i < tables.len()
        invariant
            i <= tables@.len(),
            commands_view(res@) == full_commands_of_set(tables@.take(i as int)),
        decreases tables@.len() - i,
    {
        let more = vim_highlights(tables.table(i));
        append_commands(&mut res, more);
        proof {
            assert(tables@.take(i + 1).drop_last() =~= tables@.take(i as int));
        }
        i = i + 1;
    }
    proof {
        assert(tables@.take(tables@.len() as int) =~= tables@);
    }
    res
}

/// The commands that lay the groups of every table of a set over the scheme's.
pub fn merge_highlights_of_set(tables: &TableSet) -> (res: Vec<HighlightCommand>)
    ensures
        commands_view(res@) == partial_commands_of_set(tables@),
{
    let mut res: Vec<HighlightCommand> = Vec::new();
    let mut i: usize = 0;
    while i < tables.len()
        invariant
            i <= tables@.len(),
            commands_view(res@) == partial_commands_of_set(tables@.take(i as int)),
        decreases tables@.len() - i,
    {
        let more = merge_highlights(tables.table(i));
        append_commands(&mut res, more);
        proof {
            assert(tables@.take(i + 1).drop_last() =~= tables@.take(i as int));
        }
        i = i + 1;
    }
    proof {
        assert(tables@.take(tables@.len() as int) =~= tables@);
    }
    res
}

/// The commands of an optional table of the user's.
pub open spec fn user_table_commands(t: Option<HighlightTable>) -> Seq<(Seq<char>, HighlightOpts)> {
    match t {
        Some(t) => partial_commands(t@),
        None => Seq::empty(),
    }
}

/// The commands of an optional set of the user's tables.
pub open spec fn user_set_commands(t: Option<TableSet>) -> Seq<(Seq<char>, HighlightOpts)> {
    match t {
        Some(t) => partial_commands_of_set(t@),
        None => Seq::empty(),
    }
}

/// The commands that lay the user's groups over the scheme's: the editor's
/// own groups, syntax, tree-sitter, language server, then each plugin's and
/// each language's.
pub open spec fn user_commands(h: Option<ConfigHighlights>) -> Seq<(Seq<char>, HighlightOpts)> {
    match h {
        None => Seq::empty(),
        Some(u) => user_table_commands(u.common) + user_table_commands(u.syntax)
            + user_table_commands(u.treesitter) + user_table_commands(u.lsp) + user_set_commands(
            u.plugins,
        ) + user_set_commands(u.langs),
    }
}

/// The commands that define the scheme's groups: the editor's own, syntax,
/// tree-sitter, language server if any, each language's, then each plugin's.
pub open spec fn scheme_commands(h: HighlightsView) -> Seq<(Seq<char>, HighlightOpts)> {
    full_commands(h.common) + full_commands(h.syntax) + full_commands(h.treesitter) + match h.lsp {
        Some(t) => full_commands(t),
        None => Seq::empty(),
    } + full_commands_of_set(h.langs) + full_commands_of_set(h.plugins)
}

/// Every command that applying the colour scheme makes, in order: the
/// scheme's groups, then the user's laid over them.
pub open spec fn setup_commands(p: ColorPalette, c: OneDarkConfig, s: DiagnosticColors) -> Seq<
    (Seq<char>, HighlightOpts),
> {
    scheme_commands(scheme_highlights(p, c, s)) + user_commands(c.highlights)
}

/// The commands that define the groups of an optional table whole.
fn vim_highlights_opt(t: &Option<HighlightTable>) -> (res: Vec<HighlightCommand>)
    ensures
        commands_view(res@) == match *t {
            Some(t) => full_commands(t@),
            None => Seq::empty(),
        },
{
    match t {
        Some(t) => vim_highlights(t),
        None => {
            let res: Vec<HighlightCommand> = Vec::new();
            proof {
                assert(commands_view(res@) =~= Seq::empty());
            }
            res
        },
    }
}

/// The commands of an optional table of the user's.
fn user_table(t: &Option<HighlightTable>) -> (res: Vec<HighlightCommand>)
    ensures
        commands_view(res@) == user_table_commands(*t),
{
    match t {
        Some(t) => merge_highlights(t),
        None => {
            let res: Vec<HighlightCommand> = Vec::new();
            proof {
                assert(commands_view(res@) =~= Seq::empty());
            }
            res
        },
    }
}

/// The commands of an optional set of the user's tables.
fn user_set(t: &Option<TableSet>) -> (res: Vec<HighlightCommand>)
    ensures
        commands_view(res@) == user_set_commands(*t),
{
    match t {
        Some(t) => merge_highlights_of_set(t),
        None => {
            let res: Vec<HighlightCommand> = Vec::new();
            proof {
                assert(commands_view(res@) =~= Seq::empty());
            }
            res
        },
    }
}

/// The commands that lay the user's groups over the scheme's.
fn user_highlights(highlights: &Option<ConfigHighlights>) -> (res: Vec<HighlightCommand>)
    ensures
        commands_view(res@) == user_commands(*highlights),
{
    match highlights {
        None => {
            let res: Vec<HighlightCommand> = Vec::new();
            proof {
                assert(commands_view(res@) =~= Seq::empty());
            }
            res
        },
        Some(u) => {
            let mut res = user_table(&u.common);
            append_commands(&mut res, user_table(&u.syntax));
            append_commands(&mut res, user_table(&u.treesitter));
            append_commands(&mut res, user_table(&u.lsp));
            append_commands(&mut res, user_set(&u.plugins));
            append_commands(&mut res, user_set(&u.langs));
            res
        },
    }
}

/// The commands that apply the colour scheme for a configuration, with
/// `palette` the configured style's palette under the user's colours (as
/// [`crate::palette::merge_palletes`] gives it); `shades` are the darkened
/// diagnostic colours that back diagnostic virtual text.
pub fn setup(palette: &ColorPalette, config: &OneDarkConfig, shades: &DiagnosticColors) -> (res: Vec<
    HighlightCommand,
>)
    requires
        palette@ == merged_palette(style_palette(config.style), config.colors),
    ensures
        commands_view(res@) == setup_commands(*palette, *config, *shades),
{
    let hl = default(palette, config, shades);
    let mut res = vim_highlights(&hl.common);
    append_commands(&mut res, vim_highlights(&hl.syntax));
    append_commands(&mut res, vim_highlights(&hl.treesitter));
    append_commands(&mut res, vim_highlights_opt(&hl.lsp));
    append_commands(&mut res, vim_highlights_of_set(&hl.langs));
    append_commands(&mut res, vim_highlights_of_set(&hl.plugins));
    append_commands(&mut res, user_highlights(&config.highlights));
    res
}

/// Laying a user's group over the scheme's never clears a colour: where the
/// user's group has no colour, the command leaves the scheme's in place
/// rather than setting `none`.
pub proof fn law_merge_never_clears(g: GroupView)
    ensures
        !(partial_opts(g).foreground matches Some(ColorSetting::NoColor)),
        !(partial_opts(g).background matches Some(ColorSetting::NoColor)),
        !(partial_opts(g).special matches Some(ColorSetting::NoColor)),
        g.fg is None ==> partial_opts(g).foreground is None,
        g.bg is None ==> partial_opts(g).background is None,
        g.sp is None ==> partial_opts(g).special is None,
        g.fmt is None ==> partial_opts(g).bold is None && partial_opts(g).italic is None
            && partial_opts(g).underline is None && partial_opts(g).undercurl is None
            && partial_opts(g).reverse is None && partial_opts(g).nocombine is None,
{
}

/// A scheme group is defined whole: its command sets every colour and every
/// attribute flag.
pub proof fn law_scheme_groups_set_everything(g: GroupView)
    ensures
        full_opts(g).foreground is Some,
        full_opts(g).background is Some,
        full_opts(g).special is Some,
        full_opts(g).italic is Some,
        full_opts(g).bold is Some,
        full_opts(g).underline is Some,
        full_opts(g).undercurl is Some,
        full_opts(g).reverse is Some,
        full_opts(g).nocombine is Some,
{
}

/// A group that sets every colour and lists its attributes is applied alike
/// whether it is the scheme's or the user's.
pub proof fn law_complete_group_applies_alike(g: GroupView)
    requires
        g.fg is Some,
        g.bg is Some,
        g.sp is Some,
        g.fmt is Some,
    ensures
        partial_opts(g) == full_opts(g),
{
}

/// Without groups of the user's, applying the scheme defines exactly the
/// scheme's groups.
pub proof fn law_no_user_groups(p: ColorPalette, c: OneDarkConfig, s: DiagnosticColors)
    requires
        c.highlights is None,
    ensures
        setup_commands(p, c, s) == scheme_commands(scheme_highlights(p, c, s)),
{
    assert(setup_commands(p, c, s) =~= scheme_commands(scheme_highlights(p, c, s)));
}

/// The user's groups come last: applying the scheme first defines all of the
/// scheme's groups, and only then lays the user's over them.
pub proof fn law_user_groups_last(p: ColorPalette, c: OneDarkConfig, s: DiagnosticColors)
    ensures
        setup_commands(p, c, s).take(scheme_commands(scheme_highlights(p, c, s)).len() as int)
            == scheme_commands(scheme_highlights(p, c, s)),
        setup_commands(p, c, s).skip(scheme_commands(scheme_highlights(p, c, s)).len() as int)
            == user_commands(c.highlights),
{
    let a = scheme_commands(scheme_highlights(p, c, s));
    let b = user_commands(c.highlights);
    assert((a + b).take(a.len() as int) =~= a);
    assert((a + b).skip(a.len() as int) =~= b);
}


/// Each attribute flag of a scheme group's command is whether the group's
/// attribute list names that very attribute, and each colour is the group's
/// own colour, or `none` where it has none.
pub proof fn law_scheme_flags_follow_attributes(g: GroupView)
    ensures
        full_opts(g).italic == Some(g.fmt matches Some(l) && l.contains(FmtType::Italic)),
        full_opts(g).bold == Some(g.fmt matches Some(l) && l.contains(FmtType::Bold)),
        full_opts(g).underline == Some(g.fmt matches Some(l) && l.contains(FmtType::Underline)),
        full_opts(g).undercurl == Some(g.fmt matches Some(l) && l.contains(FmtType::Undercurl)),
        full_opts(g).reverse == Some(g.fmt matches Some(l) && l.contains(FmtType::Reverse)),
        full_opts(g).nocombine == Some(g.fmt matches Some(l) && l.contains(FmtType::NoCombine)),
        g.fg matches Some(x) ==> full_opts(g).foreground == Some(ColorSetting::Hex(x)),
        g.fg is None ==> full_opts(g).foreground == Some(ColorSetting::NoColor),
        g.bg matches Some(x) ==> full_opts(g).background == Some(ColorSetting::Hex(x)),
        g.bg is None ==> full_opts(g).background == Some(ColorSetting::NoColor),
        g.sp matches Some(x) ==> full_opts(g).special == Some(ColorSetting::Hex(x)),
        g.sp is None ==> full_opts(g).special == Some(ColorSetting::NoColor),
{
}

/// Each attribute flag of a user group's command, where the group lists
/// attributes, is whether the list names that very attribute, and each colour
/// that the group sets is set as it is.
pub proof fn law_user_flags_follow_attributes(g: GroupView)
    ensures
        g.fmt matches Some(l) ==> partial_opts(g).italic == Some(l.contains(FmtType::Italic)),
        g.fmt matches Some(l) ==> partial_opts(g).bold == Some(l.contains(FmtType::Bold)),
        g.fmt matches Some(l) ==> partial_opts(g).underline == Some(l.contains(FmtType::Underline)),
        g.fmt matches Some(l) ==> partial_opts(g).undercurl == Some(l.contains(FmtType::Undercurl)),
        g.fmt matches Some(l) ==> partial_opts(g).reverse == Some(l.contains(FmtType::Reverse)),
        g.fmt matches Some(l) ==> partial_opts(g).nocombine == Some(l.contains(FmtType::NoCombine)),
        g.fg matches Some(x) ==> partial_opts(g).foreground == Some(ColorSetting::Hex(x)),
        g.bg matches Some(x) ==> partial_opts(g).background == Some(ColorSetting::Hex(x)),
        g.sp matches Some(x) ==> partial_opts(g).special == Some(ColorSetting::Hex(x)),
{
}

} // verus!
