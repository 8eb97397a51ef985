use vstd::prelude::*;

use crate::config::OneDarkConfig;
use crate::palette::{merge_palletes, merged_palette, style_palette, Color, ColorPalette, PaletteText};

verus! {

/// The sixteen terminal colours of a palette: the eight standard ones, then
/// their bright variants, by the name of the editor variable that holds each.
pub open spec fn terminal_colors_of(p: PaletteText) -> Seq<(&'static str, Seq<char>)> {
    seq![
        ("terminal_color_0", p.black),
        ("terminal_color_1", p.red),
        ("terminal_color_2", p.green),
        ("terminal_color_3", p.yellow),
        ("terminal_color_4", p.blue),
        ("terminal_color_5", p.purple),
        ("terminal_color_6", p.cyan),
        ("terminal_color_7", p.fg),
        ("terminal_color_8", p.grey),
        ("terminal_color_9", p.red),
        ("terminal_color_10", p.green),
        ("terminal_color_11", p.yellow),
        ("terminal_color_12", p.blue),
        ("terminal_color_13", p.purple),
        ("terminal_color_14", p.cyan),
        ("terminal_color_15", p.fg),
    ]
}

/// Variable assignments with their colours as text.
pub open spec fn assignments_view(a: Seq<(&'static str, Color)>) -> Seq<(&'static str, Seq<char>)> {
    a.map_values(|e: (&'static str, Color)| (e.0, e.1@))
}

/// The terminal colour variables to set for a configuration: none if the
/// configuration leaves terminal colours alone, else the sixteen colours of
/// its palette.
pub fn setup(config: &OneDarkConfig) -> (res: Vec<(&'static str, Color)>)
    ensures
        assignments_view(res@) == if config.term_colors {
            terminal_colors_of(merged_palette(style_palette(config.style), config.colors))
        } else {
            Seq::empty()
        },
{
    let c: ColorPalette = merge_palletes(config);
    let mut res: Vec<(&'static str, Color)> = Vec::new();
    if !config.term_colors {
        proof {
            assert(assignments_view(res@) =~= Seq::empty());
        }
        return res;
    }
    res.push(("terminal_color_0", c.black));
    res.push(("terminal_color_1", c.red));
    res.push(("terminal_color_2", c.green));
    res.push(("terminal_color_3", c.yellow));
    res.push(("terminal_color_4", c.blue));
    res.push(("terminal_color_5", c.purple));
    res.push(("terminal_color_6", c.cyan));
    res.push(("terminal_color_7", c.fg));
    res.push(("terminal_color_8", c.grey));
    res.push(("terminal_color_9", c.red));
    res.push(("terminal_color_10", c.green));
    res.push(("terminal_color_11", c.yellow));
    res.push(("terminal_color_12", c.blue));
    res.push(("terminal_color_13", c.purple));
    res.push(("terminal_color_14", c.cyan));
    res.push(("terminal_color_15", c.fg));
    proof {
        assert(assignments_view(res@) =~= terminal_colors_of(c@));
    }
    res
}

/// The bright terminal colours repeat the standard ones, but for black,
/// whose bright variant is grey.
pub proof fn law_bright_colors_repeat_standard(p: PaletteText, k: int)
    requires
        1 <= k < 8,
    ensures
        terminal_colors_of(p)[k].1 == terminal_colors_of(p)[k + 8].1,
        terminal_colors_of(p)[0].1 == p.black,
        terminal_colors_of(p)[8].1 == p.grey,
        terminal_colors_of(p).len() == 16,
{
}


/// The terminal colours follow the ANSI order: 0 black, 1 red, 2 green,
/// 3 yellow, 4 blue, 5 purple, 6 cyan, 7 the foreground, 8 grey, and 9 to 15
/// the bright variants of 1 to 7, each variable named by its number.
pub proof fn law_terminal_colors_in_ansi_order(p: PaletteText)
    ensures
        terminal_colors_of(p).len() == 16,
        terminal_colors_of(p)[0] == ("terminal_color_0", p.black),
        terminal_colors_of(p)[1] == ("terminal_color_1", p.red),
        terminal_colors_of(p)[2] == ("terminal_color_2", p.green),
        terminal_colors_of(p)[3] == ("terminal_color_3", p.yellow),
        terminal_colors_of(p)[4] == ("terminal_color_4", p.blue),
        terminal_colors_of(p)[5] == ("terminal_color_5", p.purple),
        terminal_colors_of(p)[6] == ("terminal_color_6", p.cyan),
        terminal_colors_of(p)[7] == ("terminal_color_7", p.fg),
        terminal_colors_of(p)[8] == ("terminal_color_8", p.grey),
        terminal_colors_of(p)[9] == ("terminal_color_9", p.red),
        terminal_colors_of(p)[10] == ("terminal_color_10", p.green),
        terminal_colors_of(p)[11] == ("terminal_color_11", p.yellow),
        terminal_colors_of(p)[12] == ("terminal_color_12", p.blue),
        terminal_colors_of(p)[13] == ("terminal_color_13", p.purple),
        terminal_colors_of(p)[14] == ("terminal_color_14", p.cyan),
        terminal_colors_of(p)[15] == ("terminal_color_15", p.fg),
{
}

} // verus!
