//! How colours of the game model are shown: as hexadecimal codes of their
//! channels packed into bytes.

use vstd::prelude::*;
use crate::numbers::text::push_char;

verus! {

/// The lowercase hexadecimal digit for `d`, which must be below sixteen.
pub open spec fn hex_digit(d: int) -> char {
    if d < 10 {
        (48 + d) as char
    } else {
        (87 + d) as char
    }
}

/// The two lowercase hexadecimal digits of a byte.
pub open spec fn hex2(b: u8) -> Seq<char> {
    seq![hex_digit(b as int / 16), hex_digit(b as int % 16)]
}

/// The code of a colour from its channels packed into bytes: `#rrggbb`
/// when it is opaque, `RGBA#rrggbbaa` otherwise.
pub open spec fn spec_color_code(rgba: [u8; 4], opaque: bool) -> Seq<char> {
    if opaque {
        seq!['#'] + hex2(rgba[0]) + hex2(rgba[1]) + hex2(rgba[2])
    } else {
        seq!['R', 'G', 'B', 'A', '#'] + hex2(rgba[0]) + hex2(rgba[1]) + hex2(rgba[2]) + hex2(rgba[3])
    }
}

fn hex_char(d: u8) -> (c: char)
    requires
        d < 16,
    ensures
        c == hex_digit(d as int),
{
    if d < 10 {
        (48u8 + d) as char
    } else {
        (87u8 + d) as char
    }
}

fn push_hex2(s: &mut String, b: u8)
    ensures
        final(s)@ == old(s)@ + hex2(b),
{
    push_char(s, hex_char(b / 16));
    push_char(s, hex_char(b % 16));
    assert(final(s)@ =~= old(s)@ + hex2(b));
}

/// The code of a colour from its channels packed into bytes: `#rrggbb`
/// when it is opaque (its alpha is exactly one), `RGBA#rrggbbaa` otherwise.
pub fn color_code(rgba: [u8; 4], opaque: bool) -> (r: String)
    ensures
        r@ == spec_color_code(rgba, opaque),
{
    let mut s = String::new();
    if opaque {
        push_char(&mut s, '#');
    } else {
        push_char(&mut s, 'R');
        push_char(&mut s, 'G');
        push_char(&mut s, 'B');
        push_char(&mut s, 'A');
        push_char(&mut s, '#');
    }
    push_hex2(&mut s, rgba[0]);
    push_hex2(&mut s, rgba[1]);
    push_hex2(&mut s, rgba[2]);
    if !opaque {
        push_hex2(&mut s, rgba[3]);
    }
    assert(s@ =~= spec_color_code(rgba, opaque));
    s
}

/// The number that a lowercase hexadecimal digit stands for: `0` to `9` for
/// the characters `'0'` to `'9'`, ten to fifteen for `'a'` to `'f'`, none
/// for any other character.
pub open spec fn hex_digit_value(c: char) -> Option<int> {
    if '0' as int <= c as int <= '9' as int {
        Some(c as int - '0' as int)
    } else if 'a' as int <= c as int <= 'f' as int {
        Some(c as int - 'a' as int + 10)
    } else {
        None
    }
}

/// Each number below sixteen is written as a lowercase hexadecimal digit,
/// `'0'` to `'9'` or `'a'` to `'f'`, that reads back as the number.
pub proof fn law_hex_digit(d: int)
    requires
        0 <= d < 16,
    ensures
        ('0' as int <= hex_digit(d) as int <= '9' as int) || ('a' as int <= hex_digit(d) as int
            <= 'f' as int),
        hex_digit_value(hex_digit(d)) == Some(d),
{
}

/// The two digits of a byte are its high and its low four bits, in that
/// order; reading them back gives the byte.
pub proof fn law_hex2(b: u8)
    ensures
        hex2(b).len() == 2,
        hex_digit_value(hex2(b)[0]) == Some(b as int / 16),
        hex_digit_value(hex2(b)[1]) == Some(b as int % 16),
        16 * (b as int / 16) + b as int % 16 == b as int,
{
    law_hex_digit(b as int / 16);
    law_hex_digit(b as int % 16);
}

/// The code of an opaque colour is `#` followed by two hexadecimal digits
/// for each of red, green and blue; that of any other colour is `RGBA#`
/// followed by two digits for each of red, green, blue and alpha. The
/// digits read back as the channels.
pub proof fn law_color_code(rgba: [u8; 4], opaque: bool)
    ensures
        spec_color_code(rgba, opaque).len() == (if opaque { 7int } else { 13int }),
        opaque ==> spec_color_code(rgba, opaque)[0] == '#',
        !opaque ==> spec_color_code(rgba, opaque).subrange(0, 5) == seq!['R', 'G', 'B', 'A', '#'],
        opaque ==> hex_digit_value(spec_color_code(rgba, opaque)[1]) == Some(rgba[0] as int / 16),
        opaque ==> hex_digit_value(spec_color_code(rgba, opaque)[2]) == Some(rgba[0] as int % 16),
        opaque ==> hex_digit_value(spec_color_code(rgba, opaque)[3]) == Some(rgba[1] as int / 16),
        opaque ==> hex_digit_value(spec_color_code(rgba, opaque)[4]) == Some(rgba[1] as int % 16),
        opaque ==> hex_digit_value(spec_color_code(rgba, opaque)[5]) == Some(rgba[2] as int / 16),
        opaque ==> hex_digit_value(spec_color_code(rgba, opaque)[6]) == Some(rgba[2] as int % 16),
        !opaque ==> hex_digit_value(spec_color_code(rgba, opaque)[5]) == Some(rgba[0] as int / 16),
        !opaque ==> hex_digit_value(spec_color_code(rgba, opaque)[6]) == Some(rgba[0] as int % 16),
        !opaque ==> hex_digit_value(spec_color_code(rgba, opaque)[7]) == Some(rgba[1] as int / 16),
        !opaque ==> hex_digit_value(spec_color_code(rgba, opaque)[8]) == Some(rgba[1] as int % 16),
        !opaque ==> hex_digit_value(spec_color_code(rgba, opaque)[9]) == Some(rgba[2] as int / 16),
        !opaque ==> hex_digit_value(spec_color_code(rgba, opaque)[10]) == Some(rgba[2] as int % 16),
        !opaque ==> hex_digit_value(spec_color_code(rgba, opaque)[11]) == Some(rgba[3] as int / 16),
        !opaque ==> hex_digit_value(spec_color_code(rgba, opaque)[12]) == Some(rgba[3] as int % 16),
{
    law_hex2(rgba[0]);
    law_hex2(rgba[1]);
    law_hex2(rgba[2]);
    law_hex2(rgba[3]);
    let code = spec_color_code(rgba, opaque);
    if opaque {
        assert(code[1] == hex2(rgba[0])[0] && code[2] == hex2(rgba[0])[1]);
        assert(code[3] == hex2(rgba[1])[0] && code[4] == hex2(rgba[1])[1]);
        assert(code[5] == hex2(rgba[2])[0] && code[6] == hex2(rgba[2])[1]);
    } else {
        assert(code[5] == hex2(rgba[0])[0] && code[6] == hex2(rgba[0])[1]);
        assert(code[7] == hex2(rgba[1])[0] && code[8] == hex2(rgba[1])[1]);
        assert(code[9] == hex2(rgba[2])[0] && code[10] == hex2(rgba[2])[1]);
        assert(code[11] == hex2(rgba[3])[0] && code[12] == hex2(rgba[3])[1]);
        assert(code.subrange(0, 5) =~= seq!['R', 'G', 'B', 'A', '#']);
    }
}

} // verus!
