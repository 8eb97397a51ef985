use vstd::prelude::*;

use crate::highlights::{fmt_view, ConfigHighlights, FmtType};
use crate::palette::ConfigColorPalette;

verus! {

/// The variants of the colour scheme.
#[derive(Clone, Copy, Debug, PartialEq, Eq, Structural)]
pub enum OneDarkStyle {
    Dark,
    Darker,
    Cool,
    Deep,
    Warm,
    Warmer,
    Light,
}

/// Every style, in the order in which toggling visits them by default.
pub open spec fn every_style() -> Seq<OneDarkStyle> {
    seq![
        OneDarkStyle::Dark,
        OneDarkStyle::Darker,
        OneDarkStyle::Cool,
        OneDarkStyle::Deep,
        OneDarkStyle::Warm,
        OneDarkStyle::Warmer,
        OneDarkStyle::Light,
    ]
}

impl OneDarkStyle {
    /// All available styles.
    pub fn all_styles() -> (res: Vec<OneDarkStyle>)
        ensures
            res@ == every_style(),
    {
        let res = vec![
            OneDarkStyle::Dark,
            OneDarkStyle::Darker,
            OneDarkStyle::Cool,
            OneDarkStyle::Deep,
            OneDarkStyle::Warm,
            OneDarkStyle::Warmer,
            OneDarkStyle::Light,
        ];
        proof {
            assert(res@ =~= every_style());
        }
        res
    }
}

impl Default for OneDarkStyle {
    fn default() -> (res: Self)
        ensures
            res == OneDarkStyle::Dark,
    {
        OneDarkStyle::Dark
    }
}

/// Text attributes for classes of syntax; `None` leaves a class plain.
#[derive(Clone, Debug)]
pub struct CodeStyle {
    pub comments: Option<Vec<FmtType>>,
    pub keywords: Option<Vec<FmtType>>,
    pub functions: Option<Vec<FmtType>>,
    pub strings: Option<Vec<FmtType>>,
    pub variables: Option<Vec<FmtType>>,
}

/// Settings for the status line theme.
#[derive(Clone, Debug)]
pub struct LualineConfig {
    pub transparent: bool,
}

/// How diagnostics are shown.
#[derive(Clone, Debug)]
pub struct DiagnosticsConfig {
    pub darker: bool,
    pub undercurl: bool,
    pub background: bool,
}

/// The configuration of the colour scheme.
#[derive(Clone, Debug)]
pub struct OneDarkConfig {
    pub style: OneDarkStyle,
    pub toggle_style_list: Vec<OneDarkStyle>,
    pub toggle_style_index: u8,
    pub toggle_style_key: Option<String>,
    pub transparent: bool,
    pub term_colors: bool,
    pub ending_tildes: bool,
    pub cmp_itemkind_reverse: bool,
    pub code_style: CodeStyle,
    pub lualine: LualineConfig,
    pub colors: Option<ConfigColorPalette>,
    pub highlights: Option<ConfigHighlights>,
    pub diagnostics: DiagnosticsConfig,
}

/// The configuration before the user changes anything.
pub open spec fn is_default_config(c: OneDarkConfig) -> bool {
    &&& c.style == OneDarkStyle::Dark
    &&& c.toggle_style_list@ == every_style()
    &&& c.toggle_style_index == 0
    &&& c.toggle_style_key is None
    &&& !c.transparent
    &&& c.term_colors
    &&& !c.ending_tildes
    &&& !c.cmp_itemkind_reverse
    &&& fmt_view(c.code_style.comments) == Some(seq![FmtType::Italic])
    &&& c.code_style.keywords is None
    &&& c.code_style.functions is None
    &&& c.code_style.strings is None
    &&& c.code_style.variables is None
    &&& !c.lualine.transparent
    &&& c.colors is None
    &&& c.highlights is None
    &&& c.diagnostics.darker
    &&& c.diagnostics.undercurl
    &&& c.diagnostics.background
}

impl Default for OneDarkConfig {
    fn default() -> (res: Self)
        ensures
            is_default_config(res),
    {
        let comments = vec![FmtType::Italic];
        proof {
            assert(comments@ =~= seq![FmtType::Italic]);
        }
        OneDarkConfig {
            toggle_style_list: OneDarkStyle::all_styles(),
            toggle_style_index: 0,
            toggle_style_key: None,
            transparent: false,
            term_colors: true,
            ending_tildes: false,
            cmp_itemkind_reverse: false,
            highlights: None,
            colors: None,
            style: OneDarkStyle::Dark,
            code_style: CodeStyle {
                comments: Some(comments),
                keywords: None,
                functions: None,
                strings: None,
                variables: None,
            },
            lualine: LualineConfig { transparent: false },
            diagnostics: DiagnosticsConfig { darker: true, undercurl: true, background: true },
        }
    }
}

/// The index that toggling moves to: the next one, wrapping at the length
/// of the style list taken modulo 256, as a byte.
pub open spec fn next_toggle_index(index: u8, len: nat) -> u8 {
    ((index + 1) % ((len % 256) as int)) as u8
}

/// The editor background that a style asks for.
pub open spec fn background_of(style: OneDarkStyle) -> &'static str {
    if style == OneDarkStyle::Light {
        "light"
    } else {
        "dark"
    }
}

/// `b` is `a` but perhaps for the style and its place in the toggle list.
pub open spec fn keeps_all_but_style(a: OneDarkConfig, b: OneDarkConfig) -> bool {
    &&& b.toggle_style_list == a.toggle_style_list
    &&& b.toggle_style_key == a.toggle_style_key
    &&& b.transparent == a.transparent
    &&& b.term_colors == a.term_colors
    &&& b.ending_tildes == a.ending_tildes
    &&& b.cmp_itemkind_reverse == a.cmp_itemkind_reverse
    &&& b.code_style == a.code_style
    &&& b.lualine == a.lualine
    &&& b.colors == a.colors
    &&& b.highlights == a.highlights
    &&& b.diagnostics == a.diagnostics
}

impl OneDarkConfig {
    /// Moves to the next style of the toggle list and returns the editor
    /// background that it asks for.
    pub fn toggle_style(&mut self) -> (background: &'static str)
        requires
            old(self).toggle_style_index < 255,
            old(self).toggle_style_list@.len() % 256 != 0,
        ensures
            final(self).toggle_style_index == next_toggle_index(
                old(self).toggle_style_index,
                old(self).toggle_style_list@.len(),
            ),
            final(self).style == old(self).toggle_style_list@[final(self).toggle_style_index as int],
            keeps_all_but_style(*old(self), *final(self)),
            background == background_of(final(self).style),
    {
        let len = self.toggle_style_list.len();
        let modulus: u8 = (len % 256) as u8;
        self.toggle_style_index = (self.toggle_style_index + 1) % modulus;
        self.style = self.toggle_style_list[self.toggle_style_index as usize];
        if self.style == OneDarkStyle::Light {
            "light"
        } else {
            "dark"
        }
    }
}

/// Every style is among all the styles.
pub proof fn law_every_style_listed(style: OneDarkStyle)
    ensures
        every_style().contains(style),
{
    let all = every_style();
    match style {
        OneDarkStyle::Dark => assert(all[0] == style),
        OneDarkStyle::Darker => assert(all[1] == style),
        OneDarkStyle::Cool => assert(all[2] == style),
        OneDarkStyle::Deep => assert(all[3] == style),
        OneDarkStyle::Warm => assert(all[4] == style),
        OneDarkStyle::Warmer => assert(all[5] == style),
        OneDarkStyle::Light => assert(all[6] == style),
    }
}

/// No style is listed twice among all the styles.
pub proof fn law_every_style_once()
    ensures
        every_style().no_duplicates(),
{
}

/// Toggling never leaves the toggle list: the new index lies within it.
pub proof fn law_toggle_stays_in_list(index: u8, len: nat)
    requires
        len % 256 != 0,
    ensures
        next_toggle_index(index, len) < len % 256,
        next_toggle_index(index, len) < len,
{
}

/// The index after `k` toggles from `index` in a list of `len` styles.
pub open spec fn toggled(index: u8, len: nat, k: nat) -> u8
    decreases k,
{
    if k == 0 {
        index
    } else {
        next_toggle_index(toggled(index, len, (k - 1) as nat), len)
    }
}

/// Toggling walks the list round: in a list of fewer than 256 styles, `k`
/// toggles from an index of the list move it `k` places on, wrapping at the
/// end.
pub proof fn law_toggle_moves_k_places(index: u8, len: nat, k: nat)
    requires
        0 < len < 256,
        index < len,
    ensures
        toggled(index, len, k) == (index + k) % (len as int),
    decreases k,
{
    if k > 0 {
        law_toggle_moves_k_places(index, len, (k - 1) as nat);
        let prev = toggled(index, len, (k - 1) as nat);
        assert(len % 256 == len);
        let m = len as int;
        let x = index + (k - 1);
        assert((x % m + 1) % m == (x + 1) % m) by {
            vstd::arithmetic::div_mod::lemma_add_mod_noop(x, 1, m);
            if m > 1 {
                vstd::arithmetic::div_mod::lemma_small_mod(1, len);
            } else {
                assert(x % m + 1 == 1);
            }
        }
        assert(0 <= x % m < m) by {
            vstd::arithmetic::div_mod::lemma_mod_bound(x, m);
        }
        assert(0 <= (x + 1) % m < m) by {
            vstd::arithmetic::div_mod::lemma_mod_bound(x + 1, m);
        }
        assert(prev == x % m);
        assert(next_toggle_index(prev, len) == ((prev + 1) % m) as u8);
    } else {
        vstd::arithmetic::div_mod::lemma_small_mod(index as nat, len);
    }
}

/// Toggling as many times as the list is long comes back to the start.
pub proof fn law_toggle_cycle(index: u8, len: nat)
    requires
        0 < len < 256,
        index < len,
    ensures
        toggled(index, len, len) == index,
{
    law_toggle_moves_k_places(index, len, len);
    vstd::arithmetic::div_mod::lemma_mod_add_multiples_vanish(index as int, len as int);
    vstd::arithmetic::div_mod::lemma_small_mod(index as nat, len);
}

} // verus!
