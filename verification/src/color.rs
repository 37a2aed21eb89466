//! RGB colors and their `#rrggbb` hex text form.

use vstd::prelude::*;
use crate::Error;

verus! {

/// An RGB color, rendered on the wire as `#rrggbb` with lowercase digits.
#[derive(Clone, Copy, Debug, PartialEq, Eq, Structural)]
pub struct Color {
    pub red: u8,
    pub green: u8,
    pub blue: u8,
}

/// The lowercase hex digit of a value below sixteen.
pub open spec fn hex_digit_char(d: int) -> char {
    if d == 0 { '0' }
    else if d == 1 { '1' }
    else if d == 2 { '2' }
    else if d == 3 { '3' }
    else if d == 4 { '4' }
    else if d == 5 { '5' }
    else if d == 6 { '6' }
    else if d == 7 { '7' }
    else if d == 8 { '8' }
    else if d == 9 { '9' }
    else if d == 10 { 'a' }
    else if d == 11 { 'b' }
    else if d == 12 { 'c' }
    else if d == 13 { 'd' }
    else if d == 14 { 'e' }
    else { 'f' }
}

/// `c` is a hex digit, upper or lower case.
pub open spec fn is_hex_digit(c: char) -> bool {
    (48 <= c as u32 <= 57) || (97 <= c as u32 <= 102) || (65 <= c as u32 <= 70)
}

/// The value of a hex digit, upper or lower case.
pub open spec fn hex_val(c: char) -> int {
    if 48 <= c as u32 <= 57 {
        c as u32 - 48
    } else if 97 <= c as u32 <= 102 {
        c as u32 - 87
    } else {
        c as u32 - 55
    }
}

/// The hex text of a color: `#` and six lowercase digits.
pub open spec fn color_hex(c: Color) -> Seq<char> {
    seq![
        '#',
        hex_digit_char(c.red as int / 16),
        hex_digit_char(c.red as int % 16),
        hex_digit_char(c.green as int / 16),
        hex_digit_char(c.green as int % 16),
        hex_digit_char(c.blue as int / 16),
        hex_digit_char(c.blue as int % 16),
    ]
}

/// One-character string for a hex digit value.
fn hex_str(d: u8) -> (r: String)
    requires
        d < 16,
    ensures
        r@ =~= seq![hex_digit_char(d as int)],
{
    proof {
        reveal_strlit("0");
        reveal_strlit("1");
        reveal_strlit("2");
        reveal_strlit("3");
        reveal_strlit("4");
        reveal_strlit("5");
        reveal_strlit("6");
        reveal_strlit("7");
        reveal_strlit("8");
        reveal_strlit("9");
        reveal_strlit("a");
        reveal_strlit("b");
        reveal_strlit("c");
        reveal_strlit("d");
        reveal_strlit("e");
        reveal_strlit("f");
    }
    match d {
        0 => "0".to_owned(),
        1 => "1".to_owned(),
        2 => "2".to_owned(),
        3 => "3".to_owned(),
        4 => "4".to_owned(),
        5 => "5".to_owned(),
        6 => "6".to_owned(),
        7 => "7".to_owned(),
        8 => "8".to_owned(),
        9 => "9".to_owned(),
        10 => "a".to_owned(),
        11 => "b".to_owned(),
        12 => "c".to_owned(),
        13 => "d".to_owned(),
        14 => "e".to_owned(),
        _ => "f".to_owned(),
    }
}

impl Color {
    /// Renders the color as `#rrggbb`, two lowercase digits per channel.
    pub fn to_hex(&self) -> (r: String)
        ensures
            r@ == color_hex(*self),
    {
        proof {
            reveal_strlit("#");
        }
        let mut s = "#".to_owned();
        s.append(hex_str(self.red / 16).as_str());
        s.append(hex_str(self.red % 16).as_str());
        s.append(hex_str(self.green / 16).as_str());
        s.append(hex_str(self.green % 16).as_str());
        s.append(hex_str(self.blue / 16).as_str());
        s.append(hex_str(self.blue % 16).as_str());
        proof {
            assert(s@ =~= color_hex(*self));
        }
        s
    }

    /// Parses an `#rrggbb` hex color, accepting upper and lower case
    /// digits.  Fails exactly on a string that is not seven characters, does
    /// not start with `#`, or carries a non-digit.
    pub fn from_hex(s: &str) -> (r: Result<Color, Error>)
        ensures
            r is Ok <==> (s@.len() == 7 && s@[0] == '#' && forall|i: int|
                1 <= i < 7 ==> is_hex_digit(#[trigger] s@[i])),
            r matches Ok(c) ==> {
                &&& c.red == 16 * hex_val(s@[1]) + hex_val(s@[2])
                &&& c.green == 16 * hex_val(s@[3]) + hex_val(s@[4])
                &&& c.blue == 16 * hex_val(s@[5]) + hex_val(s@[6])
            },
            r is Err ==> r == Err::<Color, Error>(Error::Decode),
    {
        if s.unicode_len() != 7 {
            return Err(Error::Decode);
        }
        if s.get_char(0) != '#' {
            return Err(Error::Decode);
        }
        let h1 = match hex_digit_at(s, 1) {
            Some(d) => d,
            None => {
                return Err(Error::Decode);
            },
        };
        let h2 = match hex_digit_at(s, 2) {
            Some(d) => d,
            None => {
                return Err(Error::Decode);
            },
        };
        let h3 = match hex_digit_at(s, 3) {
            Some(d) => d,
            None => {
                return Err(Error::Decode);
            },
        };
        let h4 = match hex_digit_at(s, 4) {
            Some(d) => d,
            None => {
                return Err(Error::Decode);
            },
        };
        let h5 = match hex_digit_at(s, 5) {
            Some(d) => d,
            None => {
                return Err(Error::Decode);
            },
        };
        let h6 = match hex_digit_at(s, 6) {
            Some(d) => d,
            None => {
                return Err(Error::Decode);
            },
        };
        Ok(Color { red: 16 * h1 + h2, green: 16 * h3 + h4, blue: 16 * h5 + h6 })
    }
}

/// Reads the hex digit at position `i`.
fn hex_digit_at(s: &str, i: usize) -> (r: Option<u8>)
    requires
        i < s@.len(),
    ensures
        r is Some <==> is_hex_digit(s@[i as int]),
        r matches Some(d) ==> d == hex_val(s@[i as int]) && d < 16,
{
    let c = s.get_char(i);
    let code = c as u32;
    if 48 <= code && code <= 57 {
        Some((code - 48) as u8)
    } else if 97 <= code && code <= 102 {
        Some((code - 87) as u8)
    } else if 65 <= code && code <= 70 {
        Some((code - 55) as u8)
    } else {
        None
    }
}

/// Rendering a color and reading the text back yields the same color: the
/// hex form is a faithful round trip.
pub proof fn lemma_color_hex_round_trip(c: Color)
    ensures
        color_hex(c).len() == 7,
        color_hex(c)[0] == '#',
        forall|i: int| 1 <= i < 7 ==> is_hex_digit(#[trigger] color_hex(c)[i]),
        16 * hex_val(color_hex(c)[1]) + hex_val(color_hex(c)[2]) == c.red,
        16 * hex_val(color_hex(c)[3]) + hex_val(color_hex(c)[4]) == c.green,
        16 * hex_val(color_hex(c)[5]) + hex_val(color_hex(c)[6]) == c.blue,
{
    assert forall|i: int| 1 <= i < 7 implies is_hex_digit(#[trigger] color_hex(c)[i]) by {
        assert(0 <= c.red as int / 16 < 16) by (nonlinear_arith);
        assert(0 <= c.green as int / 16 < 16) by (nonlinear_arith);
        assert(0 <= c.blue as int / 16 < 16) by (nonlinear_arith);
    }
    assert(16 * (c.red as int / 16) + c.red as int % 16 == c.red) by (nonlinear_arith);
    assert(16 * (c.green as int / 16) + c.green as int % 16 == c.green) by (nonlinear_arith);
    assert(16 * (c.blue as int / 16) + c.blue as int % 16 == c.blue) by (nonlinear_arith);
    assert(0 <= c.red as int / 16 < 16) by (nonlinear_arith);
    assert(0 <= c.green as int / 16 < 16) by (nonlinear_arith);
    assert(0 <= c.blue as int / 16 < 16) by (nonlinear_arith);
}

} // verus!
