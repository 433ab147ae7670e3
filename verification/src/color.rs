//! The random color generator and its verified hex formatting.
//!
//! Three bytes are drawn independently and uniformly from `[0, 255)` by
//! the host's random source; formatting them as `#rrggbb` with lowercase
//! hex digits is the library's own, verified logic.

use vstd::prelude::*;
use vstd::string::StringExecFns;

verus! {

/// The lowercase hexadecimal digit character for a value in `[0, 16)`.
pub open spec fn hex_digit(n: int) -> char
    recommends
        0 <= n < 16,
{
    if n == 0 {
        '0'
    } else if n == 1 {
        '1'
    } else if n == 2 {
        '2'
    } else if n == 3 {
        '3'
    } else if n == 4 {
        '4'
    } else if n == 5 {
        '5'
    } else if n == 6 {
        '6'
    } else if n == 7 {
        '7'
    } else if n == 8 {
        '8'
    } else if n == 9 {
        '9'
    } else if n == 10 {
        'a'
    } else if n == 11 {
        'b'
    } else if n == 12 {
        'c'
    } else if n == 13 {
        'd'
    } else if n == 14 {
        'e'
    } else {
        'f'
    }
}

/// A character that can appear after the `#` of a color string.
pub open spec fn is_lower_hex_digit(c: char) -> bool {
    ('0' <= c && c <= '9') || ('a' <= c && c <= 'f')
}

/// The color string for the three byte components: `#` followed by the
/// two lowercase hex digits of each byte in turn.
pub open spec fn color_seq(r: u8, g: u8, b: u8) -> Seq<char> {
    seq![
        '#',
        hex_digit(r as int / 16),
        hex_digit(r as int % 16),
        hex_digit(g as int / 16),
        hex_digit(g as int % 16),
        hex_digit(b as int / 16),
        hex_digit(b as int % 16),
    ]
}

/// A well-formed color string: `#` followed by exactly six lowercase hex
/// digits.
pub open spec fn valid_color(s: Seq<char>) -> bool {
    &&& s.len() == 7
    &&& s[0] == '#'
    &&& forall|i: int| 1 <= i < 7 ==> is_lower_hex_digit(#[trigger] s[i])
}

proof fn lemma_hex_digit_is_lower(n: int)
    requires
        0 <= n < 16,
    ensures
        is_lower_hex_digit(hex_digit(n)),
{
}

/// Every formatted color string is well formed, whatever the three bytes
/// are.
pub proof fn lemma_color_seq_valid(r: u8, g: u8, b: u8)
    ensures
        valid_color(color_seq(r, g, b)),
{
    let s = color_seq(r, g, b);
    assert forall|i: int| 1 <= i < 7 implies is_lower_hex_digit(#[trigger] s[i]) by {
        lemma_hex_digit_is_lower(r as int / 16);
        lemma_hex_digit_is_lower(r as int % 16);
        lemma_hex_digit_is_lower(g as int / 16);
        lemma_hex_digit_is_lower(g as int % 16);
        lemma_hex_digit_is_lower(b as int / 16);
        lemma_hex_digit_is_lower(b as int % 16);
    }
}

/// The one-character string of the lowercase hex digit for `n`.
fn hex_digit_str(n: u8) -> (d: &'static str)
    requires
        n < 16,
    ensures
        d@ =~= seq![hex_digit(n as int)],
{
    match n {
        0 => {
            proof {
                reveal_strlit("0");
            }
            "0"
        },
        1 => {
            proof {
                reveal_strlit("1");
            }
            "1"
        },
        2 => {
            proof {
                reveal_strlit("2");
            }
            "2"
        },
        3 => {
            proof {
                reveal_strlit("3");
            }
            "3"
        },
        4 => {
            proof {
                reveal_strlit("4");
            }
            "4"
        },
        5 => {
            proof {
                reveal_strlit("5");
            }
            "5"
        },
        6 => {
            proof {
                reveal_strlit("6");
            }
            "6"
        },
        7 => {
            proof {
                reveal_strlit("7");
            }
            "7"
        },
        8 => {
            proof {
                reveal_strlit("8");
            }
            "8"
        },
        9 => {
            proof {
                reveal_strlit("9");
            }
            "9"
        },
        10 => {
            proof {
                reveal_strlit("a");
            }
            "a"
        },
        11 => {
            proof {
                reveal_strlit("b");
            }
            "b"
        },
        12 => {
            proof {
                reveal_strlit("c");
            }
            "c"
        },
        13 => {
            proof {
                reveal_strlit("d");
            }
            "d"
        },
        14 => {
            proof {
                reveal_strlit("e");
            }
            "e"
        },
        _ => {
            proof {
                reveal_strlit("f");
            }
            "f"
        },
    }
}

/// Formats three byte components as a `#rrggbb` color string.
pub fn format_color(r: u8, g: u8, b: u8) -> (s: String)
    ensures
        s@ == color_seq(r, g, b),
        valid_color(s@),
{
    proof {
        reveal_strlit("#");
    }
    let mut s = String::from_str("#");
    s.append(hex_digit_str(r / 16));
    s.append(hex_digit_str(r % 16));
    s.append(hex_digit_str(g / 16));
    s.append(hex_digit_str(g % 16));
    s.append(hex_digit_str(b / 16));
    s.append(hex_digit_str(b % 16));
    proof {
        assert(s@ =~= color_seq(r, g, b));
        lemma_color_seq_valid(r, g, b);
    }
    s
}

/// Relies on rand::random_range: a draw from the non-empty range
/// `0..255` is uniform over it and lies in it, so the result is below
/// 255.
#[verifier::external_body]
fn random_color_byte() -> (r: u8)
    ensures
        r < 255,
{
    rand::random_range(0u8..255u8)
}

/// Returns a fresh random color: three bytes drawn independently from
/// `[0, 255)`, formatted as `#` followed by six lowercase hex digits.
/// Each call draws anew; no state is shared between calls.
pub fn get_hex_color() -> (s: String)
    ensures
        valid_color(s@),
        exists|r: u8, g: u8, b: u8|
            r < 255 && g < 255 && b < 255 && s@ == #[trigger] color_seq(r, g, b),
{
    let r = random_color_byte();
    let g = random_color_byte();
    let b = random_color_byte();
    let s = format_color(r, g, b);
    proof {
        assert(r < 255 && g < 255 && b < 255 && s@ == color_seq(r, g, b));
    }
    s
}

} // verus!
