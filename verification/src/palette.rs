use vstd::prelude::*;

use crate::config::{OneDarkConfig, OneDarkStyle};
use vstd::string::StringSliceAdditionalSpecFns;
use vstd::utf8::*;

verus! {

/// An ASCII hexadecimal digit: `0-9`, `a-f` or `A-F`.
pub open spec fn is_hex_digit_char(c: char) -> bool {
    ||| ('0' <= c && c <= '9')
    ||| ('a' <= c && c <= 'f')
    ||| ('A' <= c && c <= 'F')
}

/// The byte of an ASCII hexadecimal digit.
pub open spec fn is_hex_digit_byte(b: u8) -> bool {
    ||| (0x30 <= b && b <= 0x39)
    ||| (0x61 <= b && b <= 0x66)
    ||| (0x41 <= b && b <= 0x46)
}

/// `s` is a colour written as `#` followed by six hexadecimal digits.
pub open spec fn is_hex_color(s: Seq<char>) -> bool {
    &&& s.len() == 7
    &&& s[0] == '#'
    &&& is_hex_digit_char(s[1])
    &&& is_hex_digit_char(s[2])
    &&& is_hex_digit_char(s[3])
    &&& is_hex_digit_char(s[4])
    &&& is_hex_digit_char(s[5])
    &&& is_hex_digit_char(s[6])
}

/// The bytes of such a colour.
pub open spec fn is_hex_color_bytes(b: Seq<u8>) -> bool {
    &&& b.len() == 7
    &&& b[0] == 0x23
    &&& is_hex_digit_byte(b[1])
    &&& is_hex_digit_byte(b[2])
    &&& is_hex_digit_byte(b[3])
    &&& is_hex_digit_byte(b[4])
    &&& is_hex_digit_byte(b[5])
    &&& is_hex_digit_byte(b[6])
}

/// The message of a colour whose length or leading `#` is wrong.
pub const BAD_SHAPE: &'static str = "Must be # followed by 6 hex digits";

/// The message of a colour whose digits are not all hexadecimal.
pub const BAD_DIGITS: &'static str = "Invalid hex characters";

/// Bytes below 0x80 are their own UTF-8 encoding, one character each.
proof fn lemma_ascii_bytes_decode(b: Seq<u8>)
    requires
        forall|i: int| 0 <= i < b.len() ==> b[i] < 0x80,
    ensures
        valid_utf8(b),
        decode_utf8(b) == b.map_values(|x: u8| x as char),
    decreases b.len(),
{
    if b.len() > 0 {
        let b0 = b[0];
        assert((b0 & 0x7f) as u32 == b0 as u32) by (bit_vector)
            requires
                b0 < 0x80,
        ;
        let rest = b.subrange(1, b.len() as int);
        lemma_ascii_bytes_decode(rest);
        assert(pop_first_scalar(b) =~= rest);
        assert(decode_utf8(b) =~= b.map_values(|x: u8| x as char));
    }
}

/// What `std::str::from_utf8` promises: it succeeds exactly on valid UTF-8,
/// and the string it returns is made of the very bytes it was given.
#[verifier::external_body]
fn str_from_utf8(v: &[u8]) -> (res: Option<&str>)
    ensures
        res is Some <==> valid_utf8(v@),
        res matches Some(s) ==> s.spec_bytes() == v@,
{
    core::str::from_utf8(v).ok()
}

/// Whether `b` is an ASCII hexadecimal digit.
pub fn is_hex_digit(b: u8) -> (res: bool)
    ensures
        res == is_hex_digit_byte(b),
{
    (0x30 <= b && b <= 0x39) || (0x61 <= b && b <= 0x66) || (0x41 <= b && b <= 0x46)
}

/// A colour as seven ASCII bytes: `#` and six hexadecimal digits.
#[derive(Clone, Copy, Debug)]
pub struct Color([u8; 7]);

impl View for Color {
    type V = Seq<char>;

    /// The colour as text, one character per byte.
    closed spec fn view(&self) -> Seq<char> {
        self.0@.map_values(|x: u8| x as char)
    }
}

impl Color {
    #[verifier::type_invariant]
    closed spec fn well_formed(self) -> bool {
        is_hex_color_bytes(self.0@)
    }

    /// Reads a colour written as `#` followed by six hexadecimal digits.
    pub fn parse(s: &str) -> (res: Result<Color, &'static str>)
        ensures
            res is Ok <==> is_hex_color(s@),
            res matches Ok(c) ==> c@ == s@,
            res matches Err(e) ==> e == (if s.spec_bytes().len() != 7 || s.spec_bytes()[0]
                != 0x23 {
                BAD_SHAPE
            } else {
                BAD_DIGITS
            }),
    {
        let hex = s.as_bytes();
        proof {
            if is_hex_color(s@) {
                assert(is_ascii_chars(s@));
                vstd::string::is_ascii_spec_bytes(s);
                assert(is_hex_color_bytes(hex@));
            }
        }
        if s.len() != 7 || hex[0] != 0x23u8 {
            return Err(BAD_SHAPE);
        }
        let mut i: usize = 1;
        while i < 7
            invariant
                1 <= i <= 7,
                hex@ == s.spec_bytes(),
                hex@.len() == 7,
                hex@[0] == 0x23,
                is_hex_color(s@) ==> is_hex_color_bytes(hex@),
                forall|j: int| 1 <= j < i ==> is_hex_digit_byte(#[trigger] hex@[j]),
            decreases 7 - i,
        {
            if !is_hex_digit(hex[i]) {
                return Err(BAD_DIGITS);
            }
            i = i + 1;
        }
        let arr: [u8; 7] = [hex[0], hex[1], hex[2], hex[3], hex[4], hex[5], hex[6]];
        proof {
            assert(arr@ =~= hex@);
            lemma_ascii_bytes_decode(hex@);
            vstd::utf8::encode_utf8_decode_utf8(s@);
            assert(s@ == arr@.map_values(|x: u8| x as char));
        }
        Ok(Color(arr))
    }

    /// The colour as text.
    pub fn as_str(&self) -> (res: &str)
        ensures
            res@ == self@,
            is_hex_color(res@),
    {
        proof {
            use_type_invariant(self);
            lemma_ascii_bytes_decode(self.0@);
        }
        let s = str_from_utf8(&self.0).unwrap();
        proof {
            vstd::utf8::encode_utf8_decode_utf8(s@);
        }
        s
    }
}



impl<'a> TryFrom<&'a str> for Color {
    type Error = String;

    /// Reads a colour as [`Color::parse`] does, with the message as a string.
    fn try_from(s: &'a str) -> (res: Result<Color, String>)
        ensures
            res is Ok <==> is_hex_color(s@),
            res matches Ok(c) ==> c@ == s@,
            res matches Err(e) ==> e@ == (if s.spec_bytes().len() != 7 || s.spec_bytes()[0]
                != 0x23 {
                BAD_SHAPE
            } else {
                BAD_DIGITS
            })@,
    {
        match Color::parse(s) {
            Ok(c) => Ok(c),
            Err(e) => Err(e.to_owned()),
        }
    }
}

/// Through the generic `TryFrom` trait nothing is promised: the result's
/// error is a `String`, and Verus cannot tell two strings equal from their
/// text, so `try_from` could not be shown equal to a spec result. A direct
/// call of `Color::try_from` gets the exact contract above.
impl<'a> vstd::std_specs::convert::TryFromSpecImpl<&'a str> for Color {
    open spec fn obeys_try_from_spec() -> bool {
        false
    }

    open spec fn try_from_spec(s: &'a str) -> Result<Color, String> {
        arbitrary()
    }
}

impl AsRef<str> for Color {
    fn as_ref(&self) -> (res: &str)
        ensures
            res@ == self@,
    {
        self.as_str()
    }
}



/// The colours of one variant of the scheme.
#[derive(Clone, Copy, Debug)]
pub struct ColorPalette {
    /// A background darker than the main one.
    pub bg_d: Color,
    /// The main background.
    pub bg0: Color,
    /// The background one step lighter: cursor line, menus, floats.
    pub bg1: Color,
    /// The background two steps lighter: status lines.
    pub bg2: Color,
    /// The background three steps lighter: selections, separators.
    pub bg3: Color,
    /// The darkest shade: the terminal's black.
    pub black: Color,
    /// The blue background of selected items.
    pub bg_blue: Color,
    /// The yellow background of search matches.
    pub bg_yellow: Color,
    /// The main foreground.
    pub fg: Color,
    /// Grey: comments and line numbers.
    pub grey: Color,
    /// Light grey: delimiters.
    pub light_grey: Color,
    /// Blue: functions.
    pub blue: Color,
    /// Cyan: titles and properties.
    pub cyan: Color,
    /// Green: strings.
    pub green: Color,
    /// Orange: numbers and constants.
    pub orange: Color,
    /// Purple: keywords.
    pub purple: Color,
    /// Red: identifiers and errors.
    pub red: Color,
    /// Yellow: types.
    pub yellow: Color,
    /// Dark cyan: information diagnostics.
    pub dark_cyan: Color,
    /// Dark purple: hint diagnostics.
    pub dark_purple: Color,
    /// Dark red: error diagnostics.
    pub dark_red: Color,
    /// Dark yellow: warning diagnostics.
    pub dark_yellow: Color,
    /// The background of added lines.
    pub diff_add: Color,
    /// The background of changed lines.
    pub diff_change: Color,
    /// The background of deleted lines.
    pub diff_delete: Color,
    /// The background of the changed text within a line.
    pub diff_text: Color,
}

/// The colours of a palette as text.
pub struct PaletteText {
    /// A background darker than the main one.
    pub bg_d: Seq<char>,
    /// The main background.
    pub bg0: Seq<char>,
    /// The background one step lighter: cursor line, menus, floats.
    pub bg1: Seq<char>,
    /// The background two steps lighter: status lines.
    pub bg2: Seq<char>,
    /// The background three steps lighter: selections, separators.
    pub bg3: Seq<char>,
    /// The darkest shade: the terminal's black.
    pub black: Seq<char>,
    /// The blue background of selected items.
    pub bg_blue: Seq<char>,
    /// The yellow background of search matches.
    pub bg_yellow: Seq<char>,
    /// The main foreground.
    pub fg: Seq<char>,
    /// Grey: comments and line numbers.
    pub grey: Seq<char>,
    /// Light grey: delimiters.
    pub light_grey: Seq<char>,
    /// Blue: functions.
    pub blue: Seq<char>,
    /// Cyan: titles and properties.
    pub cyan: Seq<char>,
    /// Green: strings.
    pub green: Seq<char>,
    /// Orange: numbers and constants.
    pub orange: Seq<char>,
    /// Purple: keywords.
    pub purple: Seq<char>,
    /// Red: identifiers and errors.
    pub red: Seq<char>,
    /// Yellow: types.
    pub yellow: Seq<char>,
    /// Dark cyan: information diagnostics.
    pub dark_cyan: Seq<char>,
    /// Dark purple: hint diagnostics.
    pub dark_purple: Seq<char>,
    /// Dark red: error diagnostics.
    pub dark_red: Seq<char>,
    /// Dark yellow: warning diagnostics.
    pub dark_yellow: Seq<char>,
    /// The background of added lines.
    pub diff_add: Seq<char>,
    /// The background of changed lines.
    pub diff_change: Seq<char>,
    /// The background of deleted lines.
    pub diff_delete: Seq<char>,
    /// The background of the changed text within a line.
    pub diff_text: Seq<char>,
}

impl View for ColorPalette {
    type V = PaletteText;

    open spec fn view(&self) -> PaletteText {
        PaletteText {
            bg_d: self.bg_d@,
            bg0: self.bg0@,
            bg1: self.bg1@,
            bg2: self.bg2@,
            bg3: self.bg3@,
            black: self.black@,
            bg_blue: self.bg_blue@,
            bg_yellow: self.bg_yellow@,
            fg: self.fg@,
            grey: self.grey@,
            light_grey: self.light_grey@,
            blue: self.blue@,
            cyan: self.cyan@,
            green: self.green@,
            orange: self.orange@,
            purple: self.purple@,
            red: self.red@,
            yellow: self.yellow@,
            dark_cyan: self.dark_cyan@,
            dark_purple: self.dark_purple@,
            dark_red: self.dark_red@,
            dark_yellow: self.dark_yellow@,
            diff_add: self.diff_add@,
            diff_change: self.diff_change@,
            diff_delete: self.diff_delete@,
            diff_text: self.diff_text@,
        }
    }
}

/// Colours that the user sets in place of those of the palette.
#[derive(Clone, Copy, Debug)]
pub struct ConfigColorPalette {
    /// A background darker than the main one.
    pub bg_d: Option<Color>,
    /// The main background.
    pub bg0: Option<Color>,
    /// The background one step lighter: cursor line, menus, floats.
    pub bg1: Option<Color>,
    /// The background two steps lighter: status lines.
    pub bg2: Option<Color>,
    /// The background three steps lighter: selections, separators.
    pub bg3: Option<Color>,
    /// The darkest shade: the terminal's black.
    pub black: Option<Color>,
    /// The blue background of selected items.
    pub bg_blue: Option<Color>,
    /// The yellow background of search matches.
    pub bg_yellow: Option<Color>,
    /// The main foreground.
    pub fg: Option<Color>,
    /// Grey: comments and line numbers.
    pub grey: Option<Color>,
    /// Light grey: delimiters.
    pub light_grey: Option<Color>,
    /// Blue: functions.
    pub blue: Option<Color>,
    /// Cyan: titles and properties.
    pub cyan: Option<Color>,
    /// Green: strings.
    pub green: Option<Color>,
    /// Orange: numbers and constants.
    pub orange: Option<Color>,
    /// Purple: keywords.
    pub purple: Option<Color>,
    /// Red: identifiers and errors.
    pub red: Option<Color>,
    /// Yellow: types.
    pub yellow: Option<Color>,
    /// Dark cyan: information diagnostics.
    pub dark_cyan: Option<Color>,
    /// Dark purple: hint diagnostics.
    pub dark_purple: Option<Color>,
    /// Dark red: error diagnostics.
    pub dark_red: Option<Color>,
    /// Dark yellow: warning diagnostics.
    pub dark_yellow: Option<Color>,
    /// The background of added lines.
    pub diff_add: Option<Color>,
    /// The background of changed lines.
    pub diff_change: Option<Color>,
    /// The background of deleted lines.
    pub diff_delete: Option<Color>,
    /// The background of the changed text within a line.
    pub diff_text: Option<Color>,
}

/// The colours of the palette of a style, as text.
pub open spec fn style_palette(style: OneDarkStyle) -> PaletteText {
    match style {
        OneDarkStyle::Dark => PaletteText {
            bg_d: "#21252b"@,
            bg0: "#282c34"@,
            bg1: "#31353f"@,
            bg2: "#393f4a"@,
            bg3: "#3b3f4c"@,
            black: "#181a1f"@,
            bg_blue: "#73b8f1"@,
            bg_yellow: "#ebd09c"@,
            fg: "#abb2bf"@,
            grey: "#5c6370"@,
            light_grey: "#848b98"@,
            blue: "#61afef"@,
            cyan: "#56b6c2"@,
            green: "#98c379"@,
            orange: "#d19a66"@,
            purple: "#c678dd"@,
            red: "#e86671"@,
            yellow: "#e5c07b"@,
            dark_cyan: "#2b6f77"@,
            dark_purple: "#8a3fa0"@,
            dark_red: "#993939"@,
            dark_yellow: "#93691d"@,
            diff_add: "#31392b"@,
            diff_change: "#1c3448"@,
            diff_delete: "#382b2c"@,
            diff_text: "#2c5372"@,
        },
        OneDarkStyle::Darker => PaletteText {
            bg_d: "#181b20"@,
            bg0: "#1f2329"@,
            bg1: "#282c34"@,
            bg2: "#30363f"@,
            bg3: "#323641"@,
            black: "#0e1013"@,
            bg_blue: "#61afef"@,
            bg_yellow: "#e8c88c"@,
            fg: "#a0a8b7"@,
            grey: "#535965"@,
            light_grey: "#7a818e"@,
            blue: "#4fa6ed"@,
            cyan: "#48b0bd"@,
            green: "#8ebd6b"@,
            orange: "#cc9057"@,
            purple: "#bf68d9"@,
            red: "#e55561"@,
            yellow: "#e2b86b"@,
            dark_cyan: "#266269"@,
            dark_purple: "#7e3992"@,
            dark_red: "#8b3434"@,
            dark_yellow: "#835d1a"@,
            diff_add: "#272e23"@,
            diff_change: "#172a3a"@,
            diff_delete: "#2d2223"@,
            diff_text: "#274964"@,
        },
        OneDarkStyle::Cool => PaletteText {
            bg_d: "#1e242e"@,
            bg0: "#242b38"@,
            bg1: "#2d3343"@,
            bg2: "#343e4f"@,
            bg3: "#363c51"@,
            black: "#151820"@,
            bg_blue: "#6db9f7"@,
            bg_yellow: "#f0d197"@,
            fg: "#a5b0c5"@,
            grey: "#546178"@,
            light_grey: "#7d899f"@,
            blue: "#5ab0f6"@,
            cyan: "#4dbdcb"@,
            green: "#97ca72"@,
            orange: "#d99a5e"@,
            purple: "#ca72e4"@,
            red: "#ef5f6b"@,
            yellow: "#ebc275"@,
            dark_cyan: "#25747d"@,
            dark_purple: "#8f36a9"@,
            dark_red: "#a13131"@,
            dark_yellow: "#9a6b16"@,
            diff_add: "#303d27"@,
            diff_change: "#18344c"@,
            diff_delete: "#3c2729"@,
            diff_text: "#265478"@,
        },
        OneDarkStyle::Deep => PaletteText {
            bg_d: "#141b24"@,
            bg0: "#1a212e"@,
            bg1: "#21283b"@,
            bg2: "#283347"@,
            bg3: "#2a324a"@,
            black: "#0c0e15"@,
            bg_blue: "#54b0fd"@,
            bg_yellow: "#f2cc81"@,
            fg: "#93a4c3"@,
            grey: "#455574"@,
            light_grey: "#6c7d9c"@,
            blue: "#41a7fc"@,
            cyan: "#34bfd0"@,
            green: "#8bcd5b"@,
            orange: "#dd9046"@,
            purple: "#c75ae8"@,
            red: "#f65866"@,
            yellow: "#efbd5d"@,
            dark_cyan: "#1b6a73"@,
            dark_purple: "#862aa1"@,
            dark_red: "#992525"@,
            dark_yellow: "#8f610d"@,
            diff_add: "#27341c"@,
            diff_change: "#102b40"@,
            diff_delete: "#331c1e"@,
            diff_text: "#1c4a6e"@,
        },
        OneDarkStyle::Warm => PaletteText {
            bg_d: "#242628"@,
            bg0: "#2c2d30"@,
            bg1: "#35373b"@,
            bg2: "#3e4045"@,
            bg3: "#404247"@,
            black: "#191a1c"@,
            bg_blue: "#79b7eb"@,
            bg_yellow: "#e6cfa1"@,
            fg: "#b1b4b9"@,
            grey: "#646568"@,
            light_grey: "#8b8d91"@,
            blue: "#68aee8"@,
            cyan: "#5fafb9"@,
            green: "#99bc80"@,
            orange: "#c99a6e"@,
            purple: "#c27fd7"@,
            red: "#e16d77"@,
            yellow: "#dfbe81"@,
            dark_cyan: "#316a71"@,
            dark_purple: "#854897"@,
            dark_red: "#914141"@,
            dark_yellow: "#8c6724"@,
            diff_add: "#32352f"@,
            diff_change: "#203444"@,
            diff_delete: "#342f2f"@,
            diff_text: "#32526c"@,
        },
        OneDarkStyle::Warmer => PaletteText {
            bg_d: "#1b1c1e"@,
            bg0: "#232326"@,
            bg1: "#2c2d31"@,
            bg2: "#35363b"@,
            bg3: "#37383d"@,
            black: "#101012"@,
            bg_blue: "#68aee8"@,
            bg_yellow: "#e2c792"@,
            fg: "#a7aab0"@,
            grey: "#5a5b5e"@,
            light_grey: "#818387"@,
            blue: "#57a5e5"@,
            cyan: "#51a8b3"@,
            green: "#8fb573"@,
            orange: "#c49060"@,
            purple: "#bb70d2"@,
            red: "#de5d68"@,
            yellow: "#dbb671"@,
            dark_cyan: "#2b5d63"@,
            dark_purple: "#79428a"@,
            dark_red: "#833b3b"@,
            dark_yellow: "#7c5c20"@,
            diff_add: "#282b26"@,
            diff_change: "#1a2a37"@,
            diff_delete: "#2a2626"@,
            diff_text: "#2c485f"@,
        },
        OneDarkStyle::Light => PaletteText {
            bg_d: "#c9c9c9"@,
            bg0: "#fafafa"@,
            bg1: "#f0f0f0"@,
            bg2: "#e6e6e6"@,
            bg3: "#dcdcdc"@,
            black: "#101012"@,
            bg_blue: "#68aee8"@,
            bg_yellow: "#e2c792"@,
            fg: "#383a42"@,
            grey: "#a0a1a7"@,
            light_grey: "#818387"@,
            blue: "#4078f2"@,
            cyan: "#0184bc"@,
            green: "#50a14f"@,
            orange: "#c18401"@,
            purple: "#a626a4"@,
            red: "#e45649"@,
            yellow: "#986801"@,
            dark_cyan: "#2b5d63"@,
            dark_purple: "#79428a"@,
            dark_red: "#833b3b"@,
            dark_yellow: "#7c5c20"@,
            diff_add: "#e2fbe4"@,
            diff_change: "#e2ecfb"@,
            diff_delete: "#fce2e5"@,
            diff_text: "#cad3e0"@,
        },
    }
}

/// The colour that the user set, or else the palette's.
pub open spec fn pick(chosen: Option<Color>, base: Seq<char>) -> Seq<char> {
    match chosen {
        Some(c) => c@,
        None => base,
    }
}

/// A palette, as text, with the user's colours in place of its own where the
/// user set them.
pub open spec fn merged_palette(base: PaletteText, colors: Option<ConfigColorPalette>) -> PaletteText {
    match colors {
        None => base,
        Some(c) => PaletteText {
            bg_d: pick(c.bg_d, base.bg_d),
            bg0: pick(c.bg0, base.bg0),
            bg1: pick(c.bg1, base.bg1),
            bg2: pick(c.bg2, base.bg2),
            bg3: pick(c.bg3, base.bg3),
            black: pick(c.black, base.black),
            bg_blue: pick(c.bg_blue, base.bg_blue),
            bg_yellow: pick(c.bg_yellow, base.bg_yellow),
            fg: pick(c.fg, base.fg),
            grey: pick(c.grey, base.grey),
            light_grey: pick(c.light_grey, base.light_grey),
            blue: pick(c.blue, base.blue),
            cyan: pick(c.cyan, base.cyan),
            green: pick(c.green, base.green),
            orange: pick(c.orange, base.orange),
            purple: pick(c.purple, base.purple),
            red: pick(c.red, base.red),
            yellow: pick(c.yellow, base.yellow),
            dark_cyan: pick(c.dark_cyan, base.dark_cyan),
            dark_purple: pick(c.dark_purple, base.dark_purple),
            dark_red: pick(c.dark_red, base.dark_red),
            dark_yellow: pick(c.dark_yellow, base.dark_yellow),
            diff_add: pick(c.diff_add, base.diff_add),
            diff_change: pick(c.diff_change, base.diff_change),
            diff_delete: pick(c.diff_delete, base.diff_delete),
            diff_text: pick(c.diff_text, base.diff_text),
        },
    }
}

/// The palette of a style.
pub fn get_palette(style: OneDarkStyle) -> (res: ColorPalette)
    ensures
        res@ == style_palette(style),
{
    match style {
        OneDarkStyle::Dark => {
            proof {
                reveal_strlit("#21252b");
                reveal_strlit("#282c34");
                reveal_strlit("#31353f");
                reveal_strlit("#393f4a");
                reveal_strlit("#3b3f4c");
                reveal_strlit("#181a1f");
                reveal_strlit("#73b8f1");
                reveal_strlit("#ebd09c");
                reveal_strlit("#abb2bf");
                reveal_strlit("#5c6370");
                reveal_strlit("#848b98");
                reveal_strlit("#61afef");
                reveal_strlit("#56b6c2");
                reveal_strlit("#98c379");
                reveal_strlit("#d19a66");
                reveal_strlit("#c678dd");
                reveal_strlit("#e86671");
                reveal_strlit("#e5c07b");
                reveal_strlit("#2b6f77");
                reveal_strlit("#8a3fa0");
                reveal_strlit("#993939");
                reveal_strlit("#93691d");
                reveal_strlit("#31392b");
                reveal_strlit("#1c3448");
                reveal_strlit("#382b2c");
                reveal_strlit("#2c5372");
            }
            ColorPalette {
                bg_d: Color::parse("#21252b").unwrap(),
                bg0: Color::parse("#282c34").unwrap(),
                bg1: Color::parse("#31353f").unwrap(),
                bg2: Color::parse("#393f4a").unwrap(),
                bg3: Color::parse("#3b3f4c").unwrap(),
                black: Color::parse("#181a1f").unwrap(),
                bg_blue: Color::parse("#73b8f1").unwrap(),
                bg_yellow: Color::parse("#ebd09c").unwrap(),
                fg: Color::parse("#abb2bf").unwrap(),
                grey: Color::parse("#5c6370").unwrap(),
                light_grey: Color::parse("#848b98").unwrap(),
                blue: Color::parse("#61afef").unwrap(),
                cyan: Color::parse("#56b6c2").unwrap(),
                green: Color::parse("#98c379").unwrap(),
                orange: Color::parse("#d19a66").unwrap(),
                purple: Color::parse("#c678dd").unwrap(),
                red: Color::parse("#e86671").unwrap(),
                yellow: Color::parse("#e5c07b").unwrap(),
                dark_cyan: Color::parse("#2b6f77").unwrap(),
                dark_purple: Color::parse("#8a3fa0").unwrap(),
                dark_red: Color::parse("#993939").unwrap(),
                dark_yellow: Color::parse("#93691d").unwrap(),
                diff_add: Color::parse("#31392b").unwrap(),
                diff_change: Color::parse("#1c3448").unwrap(),
                diff_delete: Color::parse("#382b2c").unwrap(),
                diff_text: Color::parse("#2c5372").unwrap(),
            }
        },
        OneDarkStyle::Darker => {
            proof {
                reveal_strlit("#181b20");
                reveal_strlit("#1f2329");
                reveal_strlit("#282c34");
                reveal_strlit("#30363f");
                reveal_strlit("#323641");
                reveal_strlit("#0e1013");
                reveal_strlit("#61afef");
                reveal_strlit("#e8c88c");
                reveal_strlit("#a0a8b7");
                reveal_strlit("#535965");
                reveal_strlit("#7a818e");
                reveal_strlit("#4fa6ed");
                reveal_strlit("#48b0bd");
                reveal_strlit("#8ebd6b");
                reveal_strlit("#cc9057");
                reveal_strlit("#bf68d9");
                reveal_strlit("#e55561");
                reveal_strlit("#e2b86b");
                reveal_strlit("#266269");
                reveal_strlit("#7e3992");
                reveal_strlit("#8b3434");
                reveal_strlit("#835d1a");
                reveal_strlit("#272e23");
                reveal_strlit("#172a3a");
                reveal_strlit("#2d2223");
                reveal_strlit("#274964");
            }
            ColorPalette {
                bg_d: Color::parse("#181b20").unwrap(),
                bg0: Color::parse("#1f2329").unwrap(),
                bg1: Color::parse("#282c34").unwrap(),
                bg2: Color::parse("#30363f").unwrap(),
                bg3: Color::parse("#323641").unwrap(),
                black: Color::parse("#0e1013").unwrap(),
                bg_blue: Color::parse("#61afef").unwrap(),
                bg_yellow: Color::parse("#e8c88c").unwrap(),
                fg: Color::parse("#a0a8b7").unwrap(),
                grey: Color::parse("#535965").unwrap(),
                light_grey: Color::parse("#7a818e").unwrap(),
                blue: Color::parse("#4fa6ed").unwrap(),
                cyan: Color::parse("#48b0bd").unwrap(),
                green: Color::parse("#8ebd6b").unwrap(),
                orange: Color::parse("#cc9057").unwrap(),
                purple: Color::parse("#bf68d9").unwrap(),
                red: Color::parse("#e55561").unwrap(),
                yellow: Color::parse("#e2b86b").unwrap(),
                dark_cyan: Color::parse("#266269").unwrap(),
                dark_purple: Color::parse("#7e3992").unwrap(),
                dark_red: Color::parse("#8b3434").unwrap(),
                dark_yellow: Color::parse("#835d1a").unwrap(),
                diff_add: Color::parse("#272e23").unwrap(),
                diff_change: Color::parse("#172a3a").unwrap(),
                diff_delete: Color::parse("#2d2223").unwrap(),
                diff_text: Color::parse("#274964").unwrap(),
            }
        },
        OneDarkStyle::Cool => {
            proof {
                reveal_strlit("#1e242e");
                reveal_strlit("#242b38");
                reveal_strlit("#2d3343");
                reveal_strlit("#343e4f");
                reveal_strlit("#363c51");
                reveal_strlit("#151820");
                reveal_strlit("#6db9f7");
                reveal_strlit("#f0d197");
                reveal_strlit("#a5b0c5");
                reveal_strlit("#546178");
                reveal_strlit("#7d899f");
                reveal_strlit("#5ab0f6");
                reveal_strlit("#4dbdcb");
                reveal_strlit("#97ca72");
                reveal_strlit("#d99a5e");
                reveal_strlit("#ca72e4");
                reveal_strlit("#ef5f6b");
                reveal_strlit("#ebc275");
                reveal_strlit("#25747d");
                reveal_strlit("#8f36a9");
                reveal_strlit("#a13131");
                reveal_strlit("#9a6b16");
                reveal_strlit("#303d27");
                reveal_strlit("#18344c");
                reveal_strlit("#3c2729");
                reveal_strlit("#265478");
            }
            ColorPalette {
                bg_d: Color::parse("#1e242e").unwrap(),
                bg0: Color::parse("#242b38").unwrap(),
                bg1: Color::parse("#2d3343").unwrap(),
                bg2: Color::parse("#343e4f").unwrap(),
                bg3: Color::parse("#363c51").unwrap(),
                black: Color::parse("#151820").unwrap(),
                bg_blue: Color::parse("#6db9f7").unwrap(),
                bg_yellow: Color::parse("#f0d197").unwrap(),
                fg: Color::parse("#a5b0c5").unwrap(),
                grey: Color::parse("#546178").unwrap(),
                light_grey: Color::parse("#7d899f").unwrap(),
                blue: Color::parse("#5ab0f6").unwrap(),
                cyan: Color::parse("#4dbdcb").unwrap(),
                green: Color::parse("#97ca72").unwrap(),
                orange: Color::parse("#d99a5e").unwrap(),
                purple: Color::parse("#ca72e4").unwrap(),
                red: Color::parse("#ef5f6b").unwrap(),
                yellow: Color::parse("#ebc275").unwrap(),
                dark_cyan: Color::parse("#25747d").unwrap(),
                dark_purple: Color::parse("#8f36a9").unwrap(),
                dark_red: Color::parse("#a13131").unwrap(),
                dark_yellow: Color::parse("#9a6b16").unwrap(),
                diff_add: Color::parse("#303d27").unwrap(),
                diff_change: Color::parse("#18344c").unwrap(),
                diff_delete: Color::parse("#3c2729").unwrap(),
                diff_text: Color::parse("#265478").unwrap(),
            }
        },
        OneDarkStyle::Deep => {
            proof {
                reveal_strlit("#141b24");
                reveal_strlit("#1a212e");
                reveal_strlit("#21283b");
                reveal_strlit("#283347");
                reveal_strlit("#2a324a");
                reveal_strlit("#0c0e15");
                reveal_strlit("#54b0fd");
                reveal_strlit("#f2cc81");
                reveal_strlit("#93a4c3");
                reveal_strlit("#455574");
                reveal_strlit("#6c7d9c");
                reveal_strlit("#41a7fc");
                reveal_strlit("#34bfd0");
                reveal_strlit("#8bcd5b");
                reveal_strlit("#dd9046");
                reveal_strlit("#c75ae8");
                reveal_strlit("#f65866");
                reveal_strlit("#efbd5d");
                reveal_strlit("#1b6a73");
                reveal_strlit("#862aa1");
                reveal_strlit("#992525");
                reveal_strlit("#8f610d");
                reveal_strlit("#27341c");
                reveal_strlit("#102b40");
                reveal_strlit("#331c1e");
                reveal_strlit("#1c4a6e");
            }
            ColorPalette {
                bg_d: Color::parse("#141b24").unwrap(),
                bg0: Color::parse("#1a212e").unwrap(),
                bg1: Color::parse("#21283b").unwrap(),
                bg2: Color::parse("#283347").unwrap(),
                bg3: Color::parse("#2a324a").unwrap(),
                black: Color::parse("#0c0e15").unwrap(),
                bg_blue: Color::parse("#54b0fd").unwrap(),
                bg_yellow: Color::parse("#f2cc81").unwrap(),
                fg: Color::parse("#93a4c3").unwrap(),
                grey: Color::parse("#455574").unwrap(),
                light_grey: Color::parse("#6c7d9c").unwrap(),
                blue: Color::parse("#41a7fc").unwrap(),
                cyan: Color::parse("#34bfd0").unwrap(),
                green: Color::parse("#8bcd5b").unwrap(),
                orange: Color::parse("#dd9046").unwrap(),
                purple: Color::parse("#c75ae8").unwrap(),
                red: Color::parse("#f65866").unwrap(),
                yellow: Color::parse("#efbd5d").unwrap(),
                dark_cyan: Color::parse("#1b6a73").unwrap(),
                dark_purple: Color::parse("#862aa1").unwrap(),
                dark_red: Color::parse("#992525").unwrap(),
                dark_yellow: Color::parse("#8f610d").unwrap(),
                diff_add: Color::parse("#27341c").unwrap(),
                diff_change: Color::parse("#102b40").unwrap(),
                diff_delete: Color::parse("#331c1e").unwrap(),
                diff_text: Color::parse("#1c4a6e").unwrap(),
            }
        },
        OneDarkStyle::Warm => {
            proof {
                reveal_strlit("#242628");
                reveal_strlit("#2c2d30");
                reveal_strlit("#35373b");
                reveal_strlit("#3e4045");
                reveal_strlit("#404247");
                reveal_strlit("#191a1c");
                reveal_strlit("#79b7eb");
                reveal_strlit("#e6cfa1");
                reveal_strlit("#b1b4b9");
                reveal_strlit("#646568");
                reveal_strlit("#8b8d91");
                reveal_strlit("#68aee8");
                reveal_strlit("#5fafb9");
                reveal_strlit("#99bc80");
                reveal_strlit("#c99a6e");
                reveal_strlit("#c27fd7");
                reveal_strlit("#e16d77");
                reveal_strlit("#dfbe81");
                reveal_strlit("#316a71");
                reveal_strlit("#854897");
                reveal_strlit("#914141");
                reveal_strlit("#8c6724");
                reveal_strlit("#32352f");
                reveal_strlit("#203444");
                reveal_strlit("#342f2f");
                reveal_strlit("#32526c");
            }
            ColorPalette {
                bg_d: Color::parse("#242628").unwrap(),
                bg0: Color::parse("#2c2d30").unwrap(),
                bg1: Color::parse("#35373b").unwrap(),
                bg2: Color::parse("#3e4045").unwrap(),
                bg3: Color::parse("#404247").unwrap(),
                black: Color::parse("#191a1c").unwrap(),
                bg_blue: Color::parse("#79b7eb").unwrap(),
                bg_yellow: Color::parse("#e6cfa1").unwrap(),
                fg: Color::parse("#b1b4b9").unwrap(),
                grey: Color::parse("#646568").unwrap(),
                light_grey: Color::parse("#8b8d91").unwrap(),
                blue: Color::parse("#68aee8").unwrap(),
                cyan: Color::parse("#5fafb9").unwrap(),
                green: Color::parse("#99bc80").unwrap(),
                orange: Color::parse("#c99a6e").unwrap(),
                purple: Color::parse("#c27fd7").unwrap(),
                red: Color::parse("#e16d77").unwrap(),
                yellow: Color::parse("#dfbe81").unwrap(),
                dark_cyan: Color::parse("#316a71").unwrap(),
                dark_purple: Color::parse("#854897").unwrap(),
                dark_red: Color::parse("#914141").unwrap(),
                dark_yellow: Color::parse("#8c6724").unwrap(),
                diff_add: Color::parse("#32352f").unwrap(),
                diff_change: Color::parse("#203444").unwrap(),
                diff_delete: Color::parse("#342f2f").unwrap(),
                diff_text: Color::parse("#32526c").unwrap(),
            }
        },
        OneDarkStyle::Warmer => {
            proof {
                reveal_strlit("#1b1c1e");
                reveal_strlit("#232326");
                reveal_strlit("#2c2d31");
                reveal_strlit("#35363b");
                reveal_strlit("#37383d");
                reveal_strlit("#101012");
                reveal_strlit("#68aee8");
                reveal_strlit("#e2c792");
                reveal_strlit("#a7aab0");
                reveal_strlit("#5a5b5e");
                reveal_strlit("#818387");
                reveal_strlit("#57a5e5");
                reveal_strlit("#51a8b3");
                reveal_strlit("#8fb573");
                reveal_strlit("#c49060");
                reveal_strlit("#bb70d2");
                reveal_strlit("#de5d68");
                reveal_strlit("#dbb671");
                reveal_strlit("#2b5d63");
                reveal_strlit("#79428a");
                reveal_strlit("#833b3b");
                reveal_strlit("#7c5c20");
                reveal_strlit("#282b26");
                reveal_strlit("#1a2a37");
                reveal_strlit("#2a2626");
                reveal_strlit("#2c485f");
            }
            ColorPalette {
                bg_d: Color::parse("#1b1c1e").unwrap(),
                bg0: Color::parse("#232326").unwrap(),
                bg1: Color::parse("#2c2d31").unwrap(),
                bg2: Color::parse("#35363b").unwrap(),
                bg3: Color::parse("#37383d").unwrap(),
                black: Color::parse("#101012").unwrap(),
                bg_blue: Color::parse("#68aee8").unwrap(),
                bg_yellow: Color::parse("#e2c792").unwrap(),
                fg: Color::parse("#a7aab0").unwrap(),
                grey: Color::parse("#5a5b5e").unwrap(),
                light_grey: Color::parse("#818387").unwrap(),
                blue: Color::parse("#57a5e5").unwrap(),
                cyan: Color::parse("#51a8b3").unwrap(),
                green: Color::parse("#8fb573").unwrap(),
                orange: Color::parse("#c49060").unwrap(),
                purple: Color::parse("#bb70d2").unwrap(),
                red: Color::parse("#de5d68").unwrap(),
                yellow: Color::parse("#dbb671").unwrap(),
                dark_cyan: Color::parse("#2b5d63").unwrap(),
                dark_purple: Color::parse("#79428a").unwrap(),
                dark_red: Color::parse("#833b3b").unwrap(),
                dark_yellow: Color::parse("#7c5c20").unwrap(),
                diff_add: Color::parse("#282b26").unwrap(),
                diff_change: Color::parse("#1a2a37").unwrap(),
                diff_delete: Color::parse("#2a2626").unwrap(),
                diff_text: Color::parse("#2c485f").unwrap(),
            }
        },
        OneDarkStyle::Light => {
            proof {
                reveal_strlit("#c9c9c9");
                reveal_strlit("#fafafa");
                reveal_strlit("#f0f0f0");
                reveal_strlit("#e6e6e6");
                reveal_strlit("#dcdcdc");
                reveal_strlit("#101012");
                reveal_strlit("#68aee8");
                reveal_strlit("#e2c792");
                reveal_strlit("#383a42");
                reveal_strlit("#a0a1a7");
                reveal_strlit("#818387");
                reveal_strlit("#4078f2");
                reveal_strlit("#0184bc");
                reveal_strlit("#50a14f");
                reveal_strlit("#c18401");
                reveal_strlit("#a626a4");
                reveal_strlit("#e45649");
                reveal_strlit("#986801");
                reveal_strlit("#2b5d63");
                reveal_strlit("#79428a");
                reveal_strlit("#833b3b");
                reveal_strlit("#7c5c20");
                reveal_strlit("#e2fbe4");
                reveal_strlit("#e2ecfb");
                reveal_strlit("#fce2e5");
                reveal_strlit("#cad3e0");
            }
            ColorPalette {
                bg_d: Color::parse("#c9c9c9").unwrap(),
                bg0: Color::parse("#fafafa").unwrap(),
                bg1: Color::parse("#f0f0f0").unwrap(),
                bg2: Color::parse("#e6e6e6").unwrap(),
                bg3: Color::parse("#dcdcdc").unwrap(),
                black: Color::parse("#101012").unwrap(),
                bg_blue: Color::parse("#68aee8").unwrap(),
                bg_yellow: Color::parse("#e2c792").unwrap(),
                fg: Color::parse("#383a42").unwrap(),
                grey: Color::parse("#a0a1a7").unwrap(),
                light_grey: Color::parse("#818387").unwrap(),
                blue: Color::parse("#4078f2").unwrap(),
                cyan: Color::parse("#0184bc").unwrap(),
                green: Color::parse("#50a14f").unwrap(),
                orange: Color::parse("#c18401").unwrap(),
                purple: Color::parse("#a626a4").unwrap(),
                red: Color::parse("#e45649").unwrap(),
                yellow: Color::parse("#986801").unwrap(),
                dark_cyan: Color::parse("#2b5d63").unwrap(),
                dark_purple: Color::parse("#79428a").unwrap(),
                dark_red: Color::parse("#833b3b").unwrap(),
                dark_yellow: Color::parse("#7c5c20").unwrap(),
                diff_add: Color::parse("#e2fbe4").unwrap(),
                diff_change: Color::parse("#e2ecfb").unwrap(),
                diff_delete: Color::parse("#fce2e5").unwrap(),
                diff_text: Color::parse("#cad3e0").unwrap(),
            }
        },
    }
}

/// The palette of the configured style, with the colours that the user set
/// in place of its own.
pub fn merge_palletes(config: &OneDarkConfig) -> (res: ColorPalette)
    ensures
        res@ == merged_palette(style_palette(config.style), config.colors),
{
    let def_palette = get_palette(config.style);
    match &config.colors {
        None => def_palette,
        Some(new_colors) => ColorPalette {
            bg_d: match new_colors.bg_d { Some(c) => c, None => def_palette.bg_d },
            bg0: match new_colors.bg0 { Some(c) => c, None => def_palette.bg0 },
            bg1: match new_colors.bg1 { Some(c) => c, None => def_palette.bg1 },
            bg2: match new_colors.bg2 { Some(c) => c, None => def_palette.bg2 },
            bg3: match new_colors.bg3 { Some(c) => c, None => def_palette.bg3 },
            black: match new_colors.black { Some(c) => c, None => def_palette.black },
            bg_blue: match new_colors.bg_blue { Some(c) => c, None => def_palette.bg_blue },
            bg_yellow: match new_colors.bg_yellow { Some(c) => c, None => def_palette.bg_yellow },
            fg: match new_colors.fg { Some(c) => c, None => def_palette.fg },
            grey: match new_colors.grey { Some(c) => c, None => def_palette.grey },
            light_grey: match new_colors.light_grey { Some(c) => c, None => def_palette.light_grey },
            blue: match new_colors.blue { Some(c) => c, None => def_palette.blue },
            cyan: match new_colors.cyan { Some(c) => c, None => def_palette.cyan },
            green: match new_colors.green { Some(c) => c, None => def_palette.green },
            orange: match new_colors.orange { Some(c) => c, None => def_palette.orange },
            purple: match new_colors.purple { Some(c) => c, None => def_palette.purple },
            red: match new_colors.red { Some(c) => c, None => def_palette.red },
            yellow: match new_colors.yellow { Some(c) => c, None => def_palette.yellow },
            dark_cyan: match new_colors.dark_cyan { Some(c) => c, None => def_palette.dark_cyan },
            dark_purple: match new_colors.dark_purple { Some(c) => c, None => def_palette.dark_purple },
            dark_red: match new_colors.dark_red { Some(c) => c, None => def_palette.dark_red },
            dark_yellow: match new_colors.dark_yellow { Some(c) => c, None => def_palette.dark_yellow },
            diff_add: match new_colors.diff_add { Some(c) => c, None => def_palette.diff_add },
            diff_change: match new_colors.diff_change { Some(c) => c, None => def_palette.diff_change },
            diff_delete: match new_colors.diff_delete { Some(c) => c, None => def_palette.diff_delete },
            diff_text: match new_colors.diff_text { Some(c) => c, None => def_palette.diff_text },
        },
    }
}


/// Setting no colour changes nothing: merging a palette with user colours
/// that are all unset gives back the palette.
pub proof fn law_merge_unset_colors(base: PaletteText, c: ConfigColorPalette)
    requires
        c.bg_d is None,
        c.bg0 is None,
        c.bg1 is None,
        c.bg2 is None,
        c.bg3 is None,
        c.black is None,
        c.bg_blue is None,
        c.bg_yellow is None,
        c.fg is None,
        c.grey is None,
        c.light_grey is None,
        c.blue is None,
        c.cyan is None,
        c.green is None,
        c.orange is None,
        c.purple is None,
        c.red is None,
        c.yellow is None,
        c.dark_cyan is None,
        c.dark_purple is None,
        c.dark_red is None,
        c.dark_yellow is None,
        c.diff_add is None,
        c.diff_change is None,
        c.diff_delete is None,
        c.diff_text is None,
    ensures
        merged_palette(base, Some(c)) == base,
{
}

/// Merging is idempotent: laying the same user colours over an already
/// merged palette changes nothing more.
pub proof fn law_merge_idempotent(base: PaletteText, colors: Option<ConfigColorPalette>)
    ensures
        merged_palette(merged_palette(base, colors), colors) == merged_palette(base, colors),
{
}


/// A colour that the user sets wins: in the merged palette that field is the
/// user's colour, whatever the palette had.
pub proof fn law_set_colors_win(base: PaletteText, c: ConfigColorPalette)
    ensures
        c.bg_d matches Some(x) ==> merged_palette(base, Some(c)).bg_d == x@,
        c.bg0 matches Some(x) ==> merged_palette(base, Some(c)).bg0 == x@,
        c.bg1 matches Some(x) ==> merged_palette(base, Some(c)).bg1 == x@,
        c.bg2 matches Some(x) ==> merged_palette(base, Some(c)).bg2 == x@,
        c.bg3 matches Some(x) ==> merged_palette(base, Some(c)).bg3 == x@,
        c.black matches Some(x) ==> merged_palette(base, Some(c)).black == x@,
        c.bg_blue matches Some(x) ==> merged_palette(base, Some(c)).bg_blue == x@,
        c.bg_yellow matches Some(x) ==> merged_palette(base, Some(c)).bg_yellow == x@,
        c.fg matches Some(x) ==> merged_palette(base, Some(c)).fg == x@,
        c.grey matches Some(x) ==> merged_palette(base, Some(c)).grey == x@,
        c.light_grey matches Some(x) ==> merged_palette(base, Some(c)).light_grey == x@,
        c.blue matches Some(x) ==> merged_palette(base, Some(c)).blue == x@,
        c.cyan matches Some(x) ==> merged_palette(base, Some(c)).cyan == x@,
        c.green matches Some(x) ==> merged_palette(base, Some(c)).green == x@,
        c.orange matches Some(x) ==> merged_palette(base, Some(c)).orange == x@,
        c.purple matches Some(x) ==> merged_palette(base, Some(c)).purple == x@,
        c.red matches Some(x) ==> merged_palette(base, Some(c)).red == x@,
        c.yellow matches Some(x) ==> merged_palette(base, Some(c)).yellow == x@,
        c.dark_cyan matches Some(x) ==> merged_palette(base, Some(c)).dark_cyan == x@,
        c.dark_purple matches Some(x) ==> merged_palette(base, Some(c)).dark_purple == x@,
        c.dark_red matches Some(x) ==> merged_palette(base, Some(c)).dark_red == x@,
        c.dark_yellow matches Some(x) ==> merged_palette(base, Some(c)).dark_yellow == x@,
        c.diff_add matches Some(x) ==> merged_palette(base, Some(c)).diff_add == x@,
        c.diff_change matches Some(x) ==> merged_palette(base, Some(c)).diff_change == x@,
        c.diff_delete matches Some(x) ==> merged_palette(base, Some(c)).diff_delete == x@,
        c.diff_text matches Some(x) ==> merged_palette(base, Some(c)).diff_text == x@,
{
}

} // verus!
