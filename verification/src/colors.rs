use vstd::prelude::*;

use std::collections::HashMap;

verus! {

/// The colours of a palette as the editor's Lua side hands them over: by
/// name, as text.
#[derive(Clone, Debug)]
pub struct ColorPalette {
    /// A background darker than the main one.
    pub bg_d: String,
    /// The main background.
    pub bg0: String,
    /// The background one step lighter: cursor line, menus, floats.
    pub bg1: String,
    /// The background two steps lighter: status lines.
    pub bg2: String,
    /// The background three steps lighter: selections, separators.
    pub bg3: String,
    /// The darkest shade: the terminal's black.
    pub black: String,
    /// The blue background of selected items.
    pub bg_blue: String,
    /// The yellow background of search matches.
    pub bg_yellow: String,
    /// The main foreground.
    pub fg: String,
    /// Grey: comments and line numbers.
    pub grey: String,
    /// Light grey: delimiters.
    pub light_grey: String,
    /// Blue: functions.
    pub blue: String,
    /// Cyan: titles and properties.
    pub cyan: String,
    /// Green: strings.
    pub green: String,
    /// Orange: numbers and constants.
    pub orange: String,
    /// Purple: keywords.
    pub purple: String,
    /// Red: identifiers and errors.
    pub red: String,
    /// Yellow: types.
    pub yellow: String,
    /// Dark cyan: information diagnostics.
    pub dark_cyan: String,
    /// Dark purple: hint diagnostics.
    pub dark_purple: String,
    /// Dark red: error diagnostics.
    pub dark_red: String,
    /// Dark yellow: warning diagnostics.
    pub dark_yellow: String,
    /// The background of added lines.
    pub diff_add: String,
    /// The background of changed lines.
    pub diff_change: String,
    /// The background of deleted lines.
    pub diff_delete: String,
    /// The background of the changed text within a line.
    pub diff_text: String,
}

/// The name of the colour at position `i` of a palette, in field order.
pub open spec fn palette_key(i: int) -> &'static str {
    if i == 0 {
        "bg_d"
    } else if i == 1 {
        "bg0"
    } else if i == 2 {
        "bg1"
    } else if i == 3 {
        "bg2"
    } else if i == 4 {
        "bg3"
    } else if i == 5 {
        "black"
    } else if i == 6 {
        "bg_blue"
    } else if i == 7 {
        "bg_yellow"
    } else if i == 8 {
        "fg"
    } else if i == 9 {
        "grey"
    } else if i == 10 {
        "light_grey"
    } else if i == 11 {
        "blue"
    } else if i == 12 {
        "cyan"
    } else if i == 13 {
        "green"
    } else if i == 14 {
        "orange"
    } else if i == 15 {
        "purple"
    } else if i == 16 {
        "red"
    } else if i == 17 {
        "yellow"
    } else if i == 18 {
        "dark_cyan"
    } else if i == 19 {
        "dark_purple"
    } else if i == 20 {
        "dark_red"
    } else if i == 21 {
        "dark_yellow"
    } else if i == 22 {
        "diff_add"
    } else if i == 23 {
        "diff_change"
    } else if i == 24 {
        "diff_delete"
    } else if i == 25 {
        "diff_text"
    } else {
        ""
    }
}

/// The names of the colours of a palette, in the order of its fields.
pub open spec fn palette_keys() -> Seq<&'static str> {
    Seq::new(26, |i: int| palette_key(i))
}

impl View for ColorPalette {
    type V = Seq<Seq<char>>;

    /// The colours, in the order of the fields.
    open spec fn view(&self) -> Seq<Seq<char>> {
        seq![
            self.bg_d@,
            self.bg0@,
            self.bg1@,
            self.bg2@,
            self.bg3@,
            self.black@,
            self.bg_blue@,
            self.bg_yellow@,
            self.fg@,
            self.grey@,
            self.light_grey@,
            self.blue@,
            self.cyan@,
            self.green@,
            self.orange@,
            self.purple@,
            self.red@,
            self.yellow@,
            self.dark_cyan@,
            self.dark_purple@,
            self.dark_red@,
            self.dark_yellow@,
            self.diff_add@,
            self.diff_change@,
            self.diff_delete@,
            self.diff_text@,
        ]
    }
}

/// Name-value pairs as text.
pub open spec fn pairs_view(v: Seq<(String, String)>) -> Seq<(Seq<char>, Seq<char>)> {
    v.map_values(|p: (String, String)| (p.0@, p.1@))
}

/// The value of the first pair named `key`, or the empty text if none is.
pub open spec fn lookup_or_empty(table: Seq<(Seq<char>, Seq<char>)>, key: Seq<char>) -> Seq<char>
    decreases table.len(),
{
    if table.len() == 0 {
        Seq::empty()
    } else if table[0].0 == key {
        table[0].1
    } else {
        lookup_or_empty(table.drop_first(), key)
    }
}

/// The palette that a name-value table describes: each colour is the value
/// of its name, or empty where the table lacks the name.
pub open spec fn palette_from_table(table: Seq<(Seq<char>, Seq<char>)>) -> Seq<Seq<char>> {
    seq![
        lookup_or_empty(table, "bg_d"@),
        lookup_or_empty(table, "bg0"@),
        lookup_or_empty(table, "bg1"@),
        lookup_or_empty(table, "bg2"@),
        lookup_or_empty(table, "bg3"@),
        lookup_or_empty(table, "black"@),
        lookup_or_empty(table, "bg_blue"@),
        lookup_or_empty(table, "bg_yellow"@),
        lookup_or_empty(table, "fg"@),
        lookup_or_empty(table, "grey"@),
        lookup_or_empty(table, "light_grey"@),
        lookup_or_empty(table, "blue"@),
        lookup_or_empty(table, "cyan"@),
        lookup_or_empty(table, "green"@),
        lookup_or_empty(table, "orange"@),
        lookup_or_empty(table, "purple"@),
        lookup_or_empty(table, "red"@),
        lookup_or_empty(table, "yellow"@),
        lookup_or_empty(table, "dark_cyan"@),
        lookup_or_empty(table, "dark_purple"@),
        lookup_or_empty(table, "dark_red"@),
        lookup_or_empty(table, "dark_yellow"@),
        lookup_or_empty(table, "diff_add"@),
        lookup_or_empty(table, "diff_change"@),
        lookup_or_empty(table, "diff_delete"@),
        lookup_or_empty(table, "diff_text"@),
    ]
}

/// The first position from `i` on of the colour named `name`, if any.
pub open spec fn first_key_from(name: Seq<char>, i: int) -> Option<int>
    decreases 26 - i,
{
    if i < 0 || i >= 26 {
        None
    } else if palette_key(i)@ == name {
        Some(i)
    } else {
        first_key_from(name, i + 1)
    }
}

/// A position found from `i` on lies within the palette.
proof fn lemma_first_key_in_range(name: Seq<char>, i: int)
    ensures
        first_key_from(name, i) matches Some(j) ==> 0 <= j < 26,
    decreases 26 - i,
{
    if 0 <= i < 26 && palette_key(i)@ != name {
        lemma_first_key_in_range(name, i + 1);
    }
}

/// The position of the colour named `name` in a palette, if it names one.
pub open spec fn key_index(name: Seq<char>) -> Option<int> {
    first_key_from(name, 0)
}

/// A palette, in field order, with the user's colours laid over it one pair
/// after the other; pairs whose name is no colour's are ignored.
pub open spec fn apply_custom(base: Seq<Seq<char>>, custom: Seq<(Seq<char>, Seq<char>)>) -> Seq<Seq<char>>
    decreases custom.len(),
{
    if custom.len() == 0 {
        base
    } else {
        let before = apply_custom(base, custom.drop_last());
        match key_index(custom.last().0) {
            Some(i) => before.update(i, custom.last().1),
            None => before,
        }
    }
}

/// The value of the first pair of `table` named `key`, or an empty string.
fn lookup(table: &Vec<(String, String)>, key: &str) -> (res: String)
    ensures
        res@ == lookup_or_empty(pairs_view(table@), key@),
{
    let wanted = key.to_owned();
    proof {
        assert(pairs_view(table@).skip(0) =~= pairs_view(table@));
    }
    let mut i: usize = 0;
    while i < table.len()
        invariant
            i <= table@.len(),
            wanted@ == key@,
            lookup_or_empty(pairs_view(table@), key@) == lookup_or_empty(
                pairs_view(table@).skip(i as int),
                key@,
            ),
        decreases table@.len() - i,
    {
        let ghost rest = pairs_view(table@).skip(i as int);
        proof {
            assert(rest.drop_first() =~= pairs_view(table@).skip(i + 1));
        }
        if table[i].0 == wanted {
            return table[i].1.clone();
        }
        i = i + 1;
    }
    String::new()
}

/// The palette that the editor's Lua side hands over as a name-value table.
pub fn convert_lua_palette_to_struct(palette_table: &Vec<(String, String)>) -> (res: ColorPalette)
    ensures
        res@ == palette_from_table(pairs_view(palette_table@)),
{
    ColorPalette {
        bg_d: lookup(palette_table, "bg_d"),
        bg0: lookup(palette_table, "bg0"),
        bg1: lookup(palette_table, "bg1"),
        bg2: lookup(palette_table, "bg2"),
        bg3: lookup(palette_table, "bg3"),
        black: lookup(palette_table, "black"),
        bg_blue: lookup(palette_table, "bg_blue"),
        bg_yellow: lookup(palette_table, "bg_yellow"),
        fg: lookup(palette_table, "fg"),
        grey: lookup(palette_table, "grey"),
        light_grey: lookup(palette_table, "light_grey"),
        blue: lookup(palette_table, "blue"),
        cyan: lookup(palette_table, "cyan"),
        green: lookup(palette_table, "green"),
        orange: lookup(palette_table, "orange"),
        purple: lookup(palette_table, "purple"),
        red: lookup(palette_table, "red"),
        yellow: lookup(palette_table, "yellow"),
        dark_cyan: lookup(palette_table, "dark_cyan"),
        dark_purple: lookup(palette_table, "dark_purple"),
        dark_red: lookup(palette_table, "dark_red"),
        dark_yellow: lookup(palette_table, "dark_yellow"),
        diff_add: lookup(palette_table, "diff_add"),
        diff_change: lookup(palette_table, "diff_change"),
        diff_delete: lookup(palette_table, "diff_delete"),
        diff_text: lookup(palette_table, "diff_text"),
    }
}

/// The base palette of a style, from the table that the Lua side handed over
/// for it.
pub fn get_base_palette(palette_table: &Vec<(String, String)>) -> (res: ColorPalette)
    ensures
        res@ == palette_from_table(pairs_view(palette_table@)),
{
    convert_lua_palette_to_struct(palette_table)
}

/// The names of the colours, as strings.
fn key_names() -> (res: Vec<&'static str>)
    ensures
        res@ == palette_keys(),
{
    let mut res: Vec<&'static str> = Vec::new();
    res.push("bg_d");
    res.push("bg0");
    res.push("bg1");
    res.push("bg2");
    res.push("bg3");
    res.push("black");
    res.push("bg_blue");
    res.push("bg_yellow");
    res.push("fg");
    res.push("grey");
    res.push("light_grey");
    res.push("blue");
    res.push("cyan");
    res.push("green");
    res.push("orange");
    res.push("purple");
    res.push("red");
    res.push("yellow");
    res.push("dark_cyan");
    res.push("dark_purple");
    res.push("dark_red");
    res.push("dark_yellow");
    res.push("diff_add");
    res.push("diff_change");
    res.push("diff_delete");
    res.push("diff_text");
    proof {
        assert(res@ =~= palette_keys());
    }
    res
}

/// The position of the colour named `name`, if it names one.
fn find_key(name: &String) -> (res: Option<usize>)
    ensures
        match res {
            Some(i) => key_index(name@) == Some(i as int),
            None => key_index(name@) is None,
        },
{
    let names = key_names();
    let mut i: usize = 0;
    while i < names.len()
        invariant
            i <= names@.len(),
            names@ == palette_keys(),
            key_index(name@) == first_key_from(name@, i as int),
        decreases names@.len() - i,
    {
        if names[i].to_owned() == *name {
            return Some(i);
        }
        i = i + 1;
    }
    None
}

impl ColorPalette {
    /// Sets the colour at position `i`, in field order.
    fn set_color(&mut self, i: usize, value: String)
        requires
            i < 26,
        ensures
            final(self)@ == old(self)@.update(i as int, value@),
    {
        let ghost before = self@;
        match i {
            0 => self.bg_d = value,
            1 => self.bg0 = value,
            2 => self.bg1 = value,
            3 => self.bg2 = value,
            4 => self.bg3 = value,
            5 => self.black = value,
            6 => self.bg_blue = value,
            7 => self.bg_yellow = value,
            8 => self.fg = value,
            9 => self.grey = value,
            10 => self.light_grey = value,
            11 => self.blue = value,
            12 => self.cyan = value,
            13 => self.green = value,
            14 => self.orange = value,
            15 => self.purple = value,
            16 => self.red = value,
            17 => self.yellow = value,
            18 => self.dark_cyan = value,
            19 => self.dark_purple = value,
            20 => self.dark_red = value,
            21 => self.dark_yellow = value,
            22 => self.diff_add = value,
            23 => self.diff_change = value,
            24 => self.diff_delete = value,
            _ => self.diff_text = value,
        }
        proof {
            assert(self@ =~= before.update(i as int, value@));
        }
    }
}

/// The palette of a style, from the table that the Lua side handed over for
/// it, with the user's colours, if any, laid over it pair by pair.
pub fn select_colors(palette_table: &Vec<(String, String)>, custom_colors: Option<&Vec<(String, String)>>) -> (res: ColorPalette)
    ensures
        res@ == match custom_colors {
            Some(c) => apply_custom(palette_from_table(pairs_view(palette_table@)), pairs_view(c@)),
            None => palette_from_table(pairs_view(palette_table@)),
        },
{
    let mut palette = get_base_palette(palette_table);
    if let Some(custom) = custom_colors {
        let ghost base = palette@;
        let mut i: usize = 0;
        while i < custom.len()
            invariant
                i <= custom@.len(),
                palette@ == apply_custom(base, pairs_view(custom@).take(i as int)),
            decreases custom@.len() - i,
        {
            let (key, value) = &custom[i];
            proof {
                assert(pairs_view(custom@).take(i + 1).drop_last() =~= pairs_view(custom@).take(i as int));
            }
            match find_key(key) {
                Some(k) => {
                    proof {
                        lemma_first_key_in_range(key@, 0);
                    }
                    palette.set_color(k, value.clone());
                },
                None => {},
            }
            i = i + 1;
        }
        proof {
            assert(pairs_view(custom@).take(custom@.len() as int) =~= pairs_view(custom@));
        }
    }
    palette
}

/// The colours for use in other modules: those of [`select_colors`].
pub fn get_colors(palette_table: &Vec<(String, String)>, custom_colors: Option<&Vec<(String, String)>>) -> (res: ColorPalette)
    ensures
        res@ == match custom_colors {
            Some(c) => apply_custom(palette_from_table(pairs_view(palette_table@)), pairs_view(c@)),
            None => palette_from_table(pairs_view(palette_table@)),
        },
{
    select_colors(palette_table, custom_colors)
}

/// The standard terminal colour `k` of a palette, for `k` below 8: black,
/// red, green, yellow, blue, purple, cyan, then the foreground.
pub open spec fn standard_terminal_color(p: ColorPalette, k: int) -> String {
    if k == 0 {
        p.black
    } else if k == 1 {
        p.red
    } else if k == 2 {
        p.green
    } else if k == 3 {
        p.yellow
    } else if k == 4 {
        p.blue
    } else if k == 5 {
        p.purple
    } else if k == 6 {
        p.cyan
    } else {
        p.fg
    }
}

/// The terminal colour `k` of a palette, for `k` below 16: the standard ones,
/// then their bright variants, which are the same but grey for black.
pub open spec fn terminal_color(p: ColorPalette, k: int) -> String {
    if k == 8 {
        p.grey
    } else if k < 8 {
        standard_terminal_color(p, k)
    } else {
        standard_terminal_color(p, k - 8)
    }
}

/// The terminal colours of a palette by number.
pub open spec fn terminal_map(p: ColorPalette) -> Map<u8, String> {
    Map::new(|k: u8| k < 16, |k: u8| terminal_color(p, k as int))
}

/// Black, grey, and the standard colours below `k` with their bright variants.
pub open spec fn terminal_map_prefix(p: ColorPalette, k: int) -> Map<u8, String> {
    Map::new(|n: u8| n == 0 || n == 8 || (1 <= n < k) || (9 <= n < k + 8), |n: u8| terminal_color(p, n as int))
}

/// The terminal colours by number: none if the colours could not be had,
/// else the eight standard ones and their bright variants.
pub fn get_terminal_colors(colors: Option<&ColorPalette>) -> (res: HashMap<u8, String>)
    ensures
        match colors {
            None => res@ == Map::<u8, String>::empty(),
            Some(p) => res@ == terminal_map(*p),
        },
{
    broadcast use vstd::std_specs::hash::group_hash_axioms;

    let mut terminal_colors: HashMap<u8, String> = HashMap::new();
    if let Some(palette) = colors {
        // Each standard colour and, eight places on, its bright variant.
        terminal_colors.insert(0, palette.black.clone());
        terminal_colors.insert(8, palette.grey.clone());
        let pairs: [&String; 7] = [
            &palette.red,
            &palette.green,
            &palette.yellow,
            &palette.blue,
            &palette.purple,
            &palette.cyan,
            &palette.fg,
        ];
        let mut k: u8 = 1;
        while k < 8
            invariant
                1 <= k <= 8,
                pairs@ == seq![&palette.red, &palette.green, &palette.yellow, &palette.blue, &palette.purple, &palette.cyan, &palette.fg],
                terminal_colors@ == terminal_map_prefix(*palette, k as int),
            decreases 8 - k,
        {
            let c: &String = pairs[(k - 1) as usize];
            terminal_colors.insert(k, c.clone());
            terminal_colors.insert(k + 8, c.clone());
            k = k + 1;
        }
        proof {
            assert(terminal_colors@ =~= terminal_map(*palette));
        }
    }
    terminal_colors
}

/// Without user colours the palette is the one handed over.
pub proof fn law_no_custom_colors(base: Seq<Seq<char>>)
    ensures
        apply_custom(base, Seq::empty()) == base,
{
}

/// A pair whose name is no colour's changes nothing.
pub proof fn law_unknown_names_ignored(
    base: Seq<Seq<char>>,
    custom: Seq<(Seq<char>, Seq<char>)>,
    name: Seq<char>,
    value: Seq<char>,
)
    requires
        key_index(name) is None,
    ensures
        apply_custom(base, custom.push((name, value))) == apply_custom(base, custom),
{
    assert(custom.push((name, value)).drop_last() =~= custom);
}

/// The last pair that names a colour decides it.
pub proof fn law_last_setting_wins(
    base: Seq<Seq<char>>,
    custom: Seq<(Seq<char>, Seq<char>)>,
    name: Seq<char>,
    value: Seq<char>,
)
    requires
        base.len() == 26,
        key_index(name) is Some,
    ensures
        apply_custom(base, custom.push((name, value)))[key_index(name)->0] == value,
{
    assert(custom.push((name, value)).drop_last() =~= custom);
    lemma_first_key_in_range(name, 0);
    law_custom_keeps_size(base, custom);
}

/// Laying user colours over a palette keeps its size.
pub proof fn law_custom_keeps_size(base: Seq<Seq<char>>, custom: Seq<(Seq<char>, Seq<char>)>)
    requires
        base.len() == 26,
    ensures
        apply_custom(base, custom).len() == 26,
    decreases custom.len(),
{
    if custom.len() > 0 {
        law_custom_keeps_size(base, custom.drop_last());
        lemma_first_key_in_range(custom.last().0, 0);
    }
}



/// The search from `j` for a name stops at the first position `i` from `j`
/// on whose name it is.
proof fn lemma_first_key_found(name: Seq<char>, j: int, i: int)
    requires
        0 <= j <= i < 26,
        palette_key(i)@ == name,
        forall|k: int| j <= k < i ==> palette_key(k)@ != name,
    ensures
        first_key_from(name, j) == Some(i),
    decreases i - j,
{
    if j < i {
        lemma_first_key_found(name, j + 1, i);
    }
}

/// Each colour's name finds that colour: the position it leads to is the
/// position of the field of the same name.
proof fn lemma_names_find_their_fields()
    ensures
        key_index("bg_d"@) == Some(0int),
        key_index("bg0"@) == Some(1int),
        key_index("bg1"@) == Some(2int),
        key_index("bg2"@) == Some(3int),
        key_index("bg3"@) == Some(4int),
        key_index("black"@) == Some(5int),
        key_index("bg_blue"@) == Some(6int),
        key_index("bg_yellow"@) == Some(7int),
        key_index("fg"@) == Some(8int),
        key_index("grey"@) == Some(9int),
        key_index("light_grey"@) == Some(10int),
        key_index("blue"@) == Some(11int),
        key_index("cyan"@) == Some(12int),
        key_index("green"@) == Some(13int),
        key_index("orange"@) == Some(14int),
        key_index("purple"@) == Some(15int),
        key_index("red"@) == Some(16int),
        key_index("yellow"@) == Some(17int),
        key_index("dark_cyan"@) == Some(18int),
        key_index("dark_purple"@) == Some(19int),
        key_index("dark_red"@) == Some(20int),
        key_index("dark_yellow"@) == Some(21int),
        key_index("diff_add"@) == Some(22int),
        key_index("diff_change"@) == Some(23int),
        key_index("diff_delete"@) == Some(24int),
        key_index("diff_text"@) == Some(25int),
{
    reveal_strlit("bg_d");
    reveal_strlit("bg0");
    reveal_strlit("bg1");
    reveal_strlit("bg2");
    reveal_strlit("bg3");
    reveal_strlit("black");
    reveal_strlit("bg_blue");
    reveal_strlit("bg_yellow");
    reveal_strlit("fg");
    reveal_strlit("grey");
    reveal_strlit("light_grey");
    reveal_strlit("blue");
    reveal_strlit("cyan");
    reveal_strlit("green");
    reveal_strlit("orange");
    reveal_strlit("purple");
    reveal_strlit("red");
    reveal_strlit("yellow");
    reveal_strlit("dark_cyan");
    reveal_strlit("dark_purple");
    reveal_strlit("dark_red");
    reveal_strlit("dark_yellow");
    reveal_strlit("diff_add");
    reveal_strlit("diff_change");
    reveal_strlit("diff_delete");
    reveal_strlit("diff_text");
    assert("bg_d"@ =~= seq!['b', 'g', '_', 'd']);
    assert("bg0"@ =~= seq!['b', 'g', '0']);
    assert("bg1"@ =~= seq!['b', 'g', '1']);
    assert("bg2"@ =~= seq!['b', 'g', '2']);
    assert("bg3"@ =~= seq!['b', 'g', '3']);
    assert("black"@ =~= seq!['b', 'l', 'a', 'c', 'k']);
    assert("bg_blue"@ =~= seq!['b', 'g', '_', 'b', 'l', 'u', 'e']);
    assert("bg_yellow"@ =~= seq!['b', 'g', '_', 'y', 'e', 'l', 'l', 'o', 'w']);
    assert("fg"@ =~= seq!['f', 'g']);
    assert("grey"@ =~= seq!['g', 'r', 'e', 'y']);
    assert("light_grey"@ =~= seq!['l', 'i', 'g', 'h', 't', '_', 'g', 'r', 'e', 'y']);
    assert("blue"@ =~= seq!['b', 'l', 'u', 'e']);
    assert("cyan"@ =~= seq!['c', 'y', 'a', 'n']);
    assert("green"@ =~= seq!['g', 'r', 'e', 'e', 'n']);
    assert("orange"@ =~= seq!['o', 'r', 'a', 'n', 'g', 'e']);
    assert("purple"@ =~= seq!['p', 'u', 'r', 'p', 'l', 'e']);
    assert("red"@ =~= seq!['r', 'e', 'd']);
    assert("yellow"@ =~= seq!['y', 'e', 'l', 'l', 'o', 'w']);
    assert("dark_cyan"@ =~= seq!['d', 'a', 'r', 'k', '_', 'c', 'y', 'a', 'n']);
    assert("dark_purple"@ =~= seq!['d', 'a', 'r', 'k', '_', 'p', 'u', 'r', 'p', 'l', 'e']);
    assert("dark_red"@ =~= seq!['d', 'a', 'r', 'k', '_', 'r', 'e', 'd']);
    assert("dark_yellow"@ =~= seq!['d', 'a', 'r', 'k', '_', 'y', 'e', 'l', 'l', 'o', 'w']);
    assert("diff_add"@ =~= seq!['d', 'i', 'f', 'f', '_', 'a', 'd', 'd']);
    assert("diff_change"@ =~= seq!['d', 'i', 'f', 'f', '_', 'c', 'h', 'a', 'n', 'g', 'e']);
    assert("diff_delete"@ =~= seq!['d', 'i', 'f', 'f', '_', 'd', 'e', 'l', 'e', 't', 'e']);
    assert("diff_text"@ =~= seq!['d', 'i', 'f', 'f', '_', 't', 'e', 'x', 't']);
    lemma_first_key_found("bg_d"@, 0, 0);
    lemma_first_key_found("bg0"@, 0, 1);
    lemma_first_key_found("bg1"@, 0, 2);
    lemma_first_key_found("bg2"@, 0, 3);
    lemma_first_key_found("bg3"@, 0, 4);
    lemma_first_key_found("black"@, 0, 5);
    lemma_first_key_found("bg_blue"@, 0, 6);
    lemma_first_key_found("bg_yellow"@, 0, 7);
    lemma_first_key_found("fg"@, 0, 8);
    lemma_first_key_found("grey"@, 0, 9);
    lemma_first_key_found("light_grey"@, 0, 10);
    lemma_first_key_found("blue"@, 0, 11);
    lemma_first_key_found("cyan"@, 0, 12);
    lemma_first_key_found("green"@, 0, 13);
    lemma_first_key_found("orange"@, 0, 14);
    lemma_first_key_found("purple"@, 0, 15);
    lemma_first_key_found("red"@, 0, 16);
    lemma_first_key_found("yellow"@, 0, 17);
    lemma_first_key_found("dark_cyan"@, 0, 18);
    lemma_first_key_found("dark_purple"@, 0, 19);
    lemma_first_key_found("dark_red"@, 0, 20);
    lemma_first_key_found("dark_yellow"@, 0, 21);
    lemma_first_key_found("diff_add"@, 0, 22);
    lemma_first_key_found("diff_change"@, 0, 23);
    lemma_first_key_found("diff_delete"@, 0, 24);
    lemma_first_key_found("diff_text"@, 0, 25);
}

/// One pair laid over a palette updates the colour it names, if any.
proof fn lemma_apply_one(base: Seq<Seq<char>>, name: Seq<char>, value: Seq<char>)
    ensures
        apply_custom(base, seq![(name, value)]) == match key_index(name) {
            Some(i) => base.update(i, value),
            None => base,
        },
{
    assert(seq![(name, value)].drop_last() =~= Seq::<(Seq<char>, Seq<char>)>::empty());
    assert(apply_custom(base, Seq::<(Seq<char>, Seq<char>)>::empty()) == base);
}

/// A user colour named after a field of the palette sets that very field and
/// no other.
pub proof fn law_custom_colour_sets_its_field(p: ColorPalette, v: String)
    ensures
        apply_custom(p@, seq![("bg_d"@, v@)]) == (ColorPalette { bg_d: v, ..p })@,
        apply_custom(p@, seq![("bg0"@, v@)]) == (ColorPalette { bg0: v, ..p })@,
        apply_custom(p@, seq![("bg1"@, v@)]) == (ColorPalette { bg1: v, ..p })@,
        apply_custom(p@, seq![("bg2"@, v@)]) == (ColorPalette { bg2: v, ..p })@,
        apply_custom(p@, seq![("bg3"@, v@)]) == (ColorPalette { bg3: v, ..p })@,
        apply_custom(p@, seq![("black"@, v@)]) == (ColorPalette { black: v, ..p })@,
        apply_custom(p@, seq![("bg_blue"@, v@)]) == (ColorPalette { bg_blue: v, ..p })@,
        apply_custom(p@, seq![("bg_yellow"@, v@)]) == (ColorPalette { bg_yellow: v, ..p })@,
        apply_custom(p@, seq![("fg"@, v@)]) == (ColorPalette { fg: v, ..p })@,
        apply_custom(p@, seq![("grey"@, v@)]) == (ColorPalette { grey: v, ..p })@,
        apply_custom(p@, seq![("light_grey"@, v@)]) == (ColorPalette { light_grey: v, ..p })@,
        apply_custom(p@, seq![("blue"@, v@)]) == (ColorPalette { blue: v, ..p })@,
        apply_custom(p@, seq![("cyan"@, v@)]) == (ColorPalette { cyan: v, ..p })@,
        apply_custom(p@, seq![("green"@, v@)]) == (ColorPalette { green: v, ..p })@,
        apply_custom(p@, seq![("orange"@, v@)]) == (ColorPalette { orange: v, ..p })@,
        apply_custom(p@, seq![("purple"@, v@)]) == (ColorPalette { purple: v, ..p })@,
        apply_custom(p@, seq![("red"@, v@)]) == (ColorPalette { red: v, ..p })@,
        apply_custom(p@, seq![("yellow"@, v@)]) == (ColorPalette { yellow: v, ..p })@,
        apply_custom(p@, seq![("dark_cyan"@, v@)]) == (ColorPalette { dark_cyan: v, ..p })@,
        apply_custom(p@, seq![("dark_purple"@, v@)]) == (ColorPalette { dark_purple: v, ..p })@,
        apply_custom(p@, seq![("dark_red"@, v@)]) == (ColorPalette { dark_red: v, ..p })@,
        apply_custom(p@, seq![("dark_yellow"@, v@)]) == (ColorPalette { dark_yellow: v, ..p })@,
        apply_custom(p@, seq![("diff_add"@, v@)]) == (ColorPalette { diff_add: v, ..p })@,
        apply_custom(p@, seq![("diff_change"@, v@)]) == (ColorPalette { diff_change: v, ..p })@,
        apply_custom(p@, seq![("diff_delete"@, v@)]) == (ColorPalette { diff_delete: v, ..p })@,
        apply_custom(p@, seq![("diff_text"@, v@)]) == (ColorPalette { diff_text: v, ..p })@,
{
    lemma_names_find_their_fields();
    lemma_apply_one(p@, "bg_d"@, v@);
    assert(apply_custom(p@, seq![("bg_d"@, v@)]) =~= (ColorPalette { bg_d: v, ..p })@);
    lemma_apply_one(p@, "bg0"@, v@);
    assert(apply_custom(p@, seq![("bg0"@, v@)]) =~= (ColorPalette { bg0: v, ..p })@);
    lemma_apply_one(p@, "bg1"@, v@);
    assert(apply_custom(p@, seq![("bg1"@, v@)]) =~= (ColorPalette { bg1: v, ..p })@);
    lemma_apply_one(p@, "bg2"@, v@);
    assert(apply_custom(p@, seq![("bg2"@, v@)]) =~= (ColorPalette { bg2: v, ..p })@);
    lemma_apply_one(p@, "bg3"@, v@);
    assert(apply_custom(p@, seq![("bg3"@, v@)]) =~= (ColorPalette { bg3: v, ..p })@);
    lemma_apply_one(p@, "black"@, v@);
    assert(apply_custom(p@, seq![("black"@, v@)]) =~= (ColorPalette { black: v, ..p })@);
    lemma_apply_one(p@, "bg_blue"@, v@);
    assert(apply_custom(p@, seq![("bg_blue"@, v@)]) =~= (ColorPalette { bg_blue: v, ..p })@);
    lemma_apply_one(p@, "bg_yellow"@, v@);
    assert(apply_custom(p@, seq![("bg_yellow"@, v@)]) =~= (ColorPalette { bg_yellow: v, ..p })@);
    lemma_apply_one(p@, "fg"@, v@);
    assert(apply_custom(p@, seq![("fg"@, v@)]) =~= (ColorPalette { fg: v, ..p })@);
    lemma_apply_one(p@, "grey"@, v@);
    assert(apply_custom(p@, seq![("grey"@, v@)]) =~= (ColorPalette { grey: v, ..p })@);
    lemma_apply_one(p@, "light_grey"@, v@);
    assert(apply_custom(p@, seq![("light_grey"@, v@)]) =~= (ColorPalette { light_grey: v, ..p })@);
    lemma_apply_one(p@, "blue"@, v@);
    assert(apply_custom(p@, seq![("blue"@, v@)]) =~= (ColorPalette { blue: v, ..p })@);
    lemma_apply_one(p@, "cyan"@, v@);
    assert(apply_custom(p@, seq![("cyan"@, v@)]) =~= (ColorPalette { cyan: v, ..p })@);
    lemma_apply_one(p@, "green"@, v@);
    assert(apply_custom(p@, seq![("green"@, v@)]) =~= (ColorPalette { green: v, ..p })@);
    lemma_apply_one(p@, "orange"@, v@);
    assert(apply_custom(p@, seq![("orange"@, v@)]) =~= (ColorPalette { orange: v, ..p })@);
    lemma_apply_one(p@, "purple"@, v@);
    assert(apply_custom(p@, seq![("purple"@, v@)]) =~= (ColorPalette { purple: v, ..p })@);
    lemma_apply_one(p@, "red"@, v@);
    assert(apply_custom(p@, seq![("red"@, v@)]) =~= (ColorPalette { red: v, ..p })@);
    lemma_apply_one(p@, "yellow"@, v@);
    assert(apply_custom(p@, seq![("yellow"@, v@)]) =~= (ColorPalette { yellow: v, ..p })@);
    lemma_apply_one(p@, "dark_cyan"@, v@);
    assert(apply_custom(p@, seq![("dark_cyan"@, v@)]) =~= (ColorPalette { dark_cyan: v, ..p })@);
    lemma_apply_one(p@, "dark_purple"@, v@);
    assert(apply_custom(p@, seq![("dark_purple"@, v@)]) =~= (ColorPalette { dark_purple: v, ..p })@);
    lemma_apply_one(p@, "dark_red"@, v@);
    assert(apply_custom(p@, seq![("dark_red"@, v@)]) =~= (ColorPalette { dark_red: v, ..p })@);
    lemma_apply_one(p@, "dark_yellow"@, v@);
    assert(apply_custom(p@, seq![("dark_yellow"@, v@)]) =~= (ColorPalette { dark_yellow: v, ..p })@);
    lemma_apply_one(p@, "diff_add"@, v@);
    assert(apply_custom(p@, seq![("diff_add"@, v@)]) =~= (ColorPalette { diff_add: v, ..p })@);
    lemma_apply_one(p@, "diff_change"@, v@);
    assert(apply_custom(p@, seq![("diff_change"@, v@)]) =~= (ColorPalette { diff_change: v, ..p })@);
    lemma_apply_one(p@, "diff_delete"@, v@);
    assert(apply_custom(p@, seq![("diff_delete"@, v@)]) =~= (ColorPalette { diff_delete: v, ..p })@);
    lemma_apply_one(p@, "diff_text"@, v@);
    assert(apply_custom(p@, seq![("diff_text"@, v@)]) =~= (ColorPalette { diff_text: v, ..p })@);
}


/// The terminal colours by number follow the ANSI order: 0 black, 1 red,
/// 2 green, 3 yellow, 4 blue, 5 purple, 6 cyan, 7 the foreground, 8 grey, and
/// 9 to 15 the bright variants of 1 to 7.
pub proof fn law_terminal_map_in_ansi_order(p: ColorPalette)
    ensures
        terminal_map(p).dom() == Set::new(|k: u8| k < 16),
        terminal_map(p)[0u8] == p.black,
        terminal_map(p)[1u8] == p.red,
        terminal_map(p)[2u8] == p.green,
        terminal_map(p)[3u8] == p.yellow,
        terminal_map(p)[4u8] == p.blue,
        terminal_map(p)[5u8] == p.purple,
        terminal_map(p)[6u8] == p.cyan,
        terminal_map(p)[7u8] == p.fg,
        terminal_map(p)[8u8] == p.grey,
        terminal_map(p)[9u8] == p.red,
        terminal_map(p)[10u8] == p.green,
        terminal_map(p)[11u8] == p.yellow,
        terminal_map(p)[12u8] == p.blue,
        terminal_map(p)[13u8] == p.purple,
        terminal_map(p)[14u8] == p.cyan,
        terminal_map(p)[15u8] == p.fg,
{
    assert(terminal_map(p).dom() =~= Set::new(|k: u8| k < 16));
}

} // verus!
