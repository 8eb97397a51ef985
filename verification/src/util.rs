use vstd::prelude::*;

use crate::palette::{is_hex_digit_char, Color};

verus! {

/// The colour that darkening blends towards when no background is given.
pub const DEFAULT_BG: &'static str = "#000000";

/// The value of a hexadecimal digit.
pub open spec fn hex_digit_value(c: char) -> int {
    if '0' <= c && c <= '9' {
        c as int - '0' as int
    } else if 'a' <= c && c <= 'f' {
        c as int - 'a' as int + 10
    } else {
        c as int - 'A' as int + 10
    }
}

/// The value of the hexadecimal digit whose byte is `b`.
fn hex_value(b: u8) -> (res: u8)
    requires
        is_hex_digit_char(b as char),
    ensures
        res == hex_digit_value(b as char),
{
    if 0x30 <= b && b <= 0x39 {
        b - 0x30
    } else if 0x61 <= b && b <= 0x66 {
        b - 0x61 + 10
    } else {
        b - 0x41 + 10
    }
}

/// The value of the two hexadecimal digits at `i` and `i + 1`, the first the
/// more significant.
pub open spec fn channel_value(s: Seq<char>, i: int) -> int {
    16 * hex_digit_value(s[i]) + hex_digit_value(s[i + 1])
}

/// The red, green and blue channels of a colour `#rrggbb`, each read from its
/// pair of hexadecimal digits.
pub fn hex_to_rgb(hex_str: Color) -> (res: [u8; 3])
    ensures
        forall|k: int| 0 <= k < 3 ==> res@[k] == channel_value(hex_str@, 1 + 2 * k),
{
    let text = hex_str.as_str();
    let bytes = text.as_bytes();
    proof {
        assert(vstd::utf8::is_ascii_chars(text@));
        vstd::string::is_ascii_spec_bytes(text);
    }
    let r = 16 * hex_value(bytes[1]) + hex_value(bytes[2]);
    let g = 16 * hex_value(bytes[3]) + hex_value(bytes[4]);
    let b = 16 * hex_value(bytes[5]) + hex_value(bytes[6]);
    let res = [r, g, b];
    proof {
        assert(res@ =~= seq![r, g, b]);
    }
    res
}

/// Each channel that [`hex_to_rgb`] reads fits in a byte.
pub proof fn law_channel_fits_byte(s: Seq<char>, i: int)
    requires
        0 <= i,
        i + 1 < s.len(),
        is_hex_digit_char(s[i]),
        is_hex_digit_char(s[i + 1]),
    ensures
        0 <= channel_value(s, i) < 256,
{
}

} // verus!
