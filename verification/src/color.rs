use vstd::prelude::*;
use vstd::string::*;

use crate::error::PlotError;

verus! {

/// An RGBA color.  Each channel is one byte; the canvas understands a byte
/// `v` as the normalized intensity `v / 255`.
#[derive(Clone, Copy, Debug, PartialEq, Eq, Structural)]
pub struct Color {
    pub r: u8,
    pub g: u8,
    pub b: u8,
    pub a: u8,
}

/// Does `c` denote a hexadecimal digit?
pub open spec fn is_hex_digit(c: char) -> bool {
    ('0' as int <= c as int && c as int <= '9' as int)
        || ('a' as int <= c as int && c as int <= 'f' as int)
        || ('A' as int <= c as int && c as int <= 'F' as int)
}

/// The value of the hexadecimal digit `c` (0 where `c` is no such digit).
pub open spec fn hex_val(c: char) -> int {
    if '0' as int <= c as int && c as int <= '9' as int {
        c as int - '0' as int
    } else if 'a' as int <= c as int && c as int <= 'f' as int {
        c as int - 'a' as int + 10
    } else if 'A' as int <= c as int && c as int <= 'F' as int {
        c as int - 'A' as int + 10
    } else {
        0
    }
}

/// `s` with one leading `#` removed, if it has one.
pub open spec fn strip_hash(s: Seq<char>) -> Seq<char> {
    if s.len() > 0 && s[0] == '#' {
        s.subrange(1, s.len() as int)
    } else {
        s
    }
}

/// Is `s` a well-formed hex color body: exactly 6 (RGB) or 8 (RGBA)
/// hexadecimal digits?
pub open spec fn valid_hex(s: Seq<char>) -> bool {
    (s.len() == 6 || s.len() == 8) && (forall|i: int|
        0 <= i < s.len() ==> is_hex_digit(#[trigger] s[i]))
}

/// The byte spelled by the `i`-th digit pair of `s`.
pub open spec fn hex_byte(s: Seq<char>, i: int) -> int {
    16 * hex_val(s[2 * i]) + hex_val(s[2 * i + 1])
}

/// The value of `c` as a hexadecimal digit, or `None` where it is no such
/// digit.
fn hex_digit_value(c: char) -> (r: Option<u8>)
    ensures
        r is Some <==> is_hex_digit(c),
        r matches Some(v) ==> v as int == hex_val(c) && v < 16,
{
    let x = c as u32;
    if 48 <= x && x <= 57 {
        Some((x - 48) as u8)
    } else if 97 <= x && x <= 102 {
        Some((x - 97 + 10) as u8)
    } else if 65 <= x && x <= 70 {
        Some((x - 65 + 10) as u8)
    } else {
        None
    }
}

/// The byte spelled by the digits of `s` at positions `i` and `i + 1`, or
/// `None` where either is no hexadecimal digit.
fn hex_pair(s: &str, i: usize) -> (r: Option<u8>)
    requires
        s@.len() <= usize::MAX,
        i + 1 < s@.len(),
    ensures
        r is Some <==> is_hex_digit(s@[i as int]) && is_hex_digit(s@[i as int + 1]),
        r matches Some(v) ==> v as int == 16 * hex_val(s@[i as int]) + hex_val(s@[i as int + 1]),
{
    let hi = match hex_digit_value(s.get_char(i)) {
        Some(v) => v,
        None => {
            return None;
        },
    };
    let lo = match hex_digit_value(s.get_char(i + 1)) {
        Some(v) => v,
        None => {
            return None;
        },
    };
    Some(16 * hi + lo)
}

impl Color {
    /// A color from its four channel bytes.
    pub fn new(r: u8, g: u8, b: u8, a: u8) -> (c: Color)
        ensures
            c == (Color { r, g, b, a }),
    {
        Color { r, g, b, a }
    }

    /// Parse a hex color string: an optional leading `#`, then exactly 6
    /// (RGB) or 8 (RGBA) hexadecimal digits.  Each digit pair names one
    /// channel byte; with 6 digits the alpha channel defaults to 255 (fully
    /// opaque).  Any other shape is rejected with `MalformedInput`.
    pub fn from_hex(hex_str: &str) -> (res: Result<Color, PlotError>)
        ensures
            res matches Ok(c) ==> valid_hex(strip_hash(hex_str@)) && {
                let t = strip_hash(hex_str@);
                &&& c.r as int == hex_byte(t, 0)
                &&& c.g as int == hex_byte(t, 1)
                &&& c.b as int == hex_byte(t, 2)
                &&& c.a as int == (if t.len() == 6 {
                    255int
                } else {
                    hex_byte(t, 3)
                })
            },
            res matches Err(e) ==> e == PlotError::MalformedInput && !valid_hex(
                strip_hash(hex_str@),
            ),
    {
        let ghost t = strip_hash(hex_str@);
        let n = hex_str.unicode_len();
        let start: usize = if n > 0 && hex_str.get_char(0) == '#' {
            1
        } else {
            0
        };
        proof {
            assert(t.len() == n - start);
            assert(forall|k: int| 0 <= k < t.len() ==> t[k] == hex_str@[start + k]);
        }
        let m = n - start;
        if m != 6 && m != 8 {
            return Err(PlotError::MalformedInput);
        }
        let r = match hex_pair(hex_str, start) {
            Some(v) => v,
            None => {
                proof {
                    if !is_hex_digit(hex_str@[start as int]) {
                        assert(!is_hex_digit(t[0]));
                    } else {
                        assert(!is_hex_digit(t[1]));
                    }
                }
                return Err(PlotError::MalformedInput);
            },
        };
        let g = match hex_pair(hex_str, start + 2) {
            Some(v) => v,
            None => {
                proof {
                    if !is_hex_digit(hex_str@[start as int + 2]) {
                        assert(!is_hex_digit(t[2]));
                    } else {
                        assert(!is_hex_digit(t[3]));
                    }
                }
                return Err(PlotError::MalformedInput);
            },
        };
        let b = match hex_pair(hex_str, start + 4) {
            Some(v) => v,
            None => {
                proof {
                    if !is_hex_digit(hex_str@[start as int + 4]) {
                        assert(!is_hex_digit(t[4]));
                    } else {
                        assert(!is_hex_digit(t[5]));
                    }
                }
                return Err(PlotError::MalformedInput);
            },
        };
        let a = if m == 6 {
            255
        } else {
            match hex_pair(hex_str, start + 6) {
                Some(v) => v,
                None => {
                    proof {
                        if !is_hex_digit(hex_str@[start as int + 6]) {
                            assert(!is_hex_digit(t[6]));
                        } else {
                            assert(!is_hex_digit(t[7]));
                        }
                    }
                    return Err(PlotError::MalformedInput);
                },
            }
        };
        proof {
            assert(is_hex_digit(t[0]) && is_hex_digit(t[1]));
            assert(is_hex_digit(t[2]) && is_hex_digit(t[3]));
            assert(is_hex_digit(t[4]) && is_hex_digit(t[5]));
            if t.len() == 8 {
                assert(is_hex_digit(t[6]) && is_hex_digit(t[7]));
            }
            assert(valid_hex(t));
        }
        Ok(Color { r, g, b, a })
    }
}

} // verus!
