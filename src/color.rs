//! Hex color codes, their RGB values, and ANSI painting.
use crate::text::{dec_seq, push_str};
use vstd::prelude::*;

verus! {

/// An RGB triple.
#[derive(Clone, Copy, Debug, PartialEq, Eq)]
pub struct Rgb {
    pub r: u8,
    pub g: u8,
    pub b: u8,
}

/// The color that stands for a day without activity under native colors.
pub open spec fn native_dark() -> Seq<char> {
    "#45475a"@
}

/// Returns the native "empty" color as a string.
pub fn native_dark_string() -> (r: String)
    ensures
        r@ == native_dark(),
{
    let mut s = String::new();
    push_str(&mut s, "#45475a");
    s
}

pub open spec fn is_hex_digit(c: char) -> bool {
    (48 <= c as u32 <= 57) || (97 <= c as u32 <= 102) || (65 <= c as u32 <= 70)
}

pub open spec fn hex_value(c: char) -> nat {
    if 48 <= c as u32 <= 57 {
        (c as u32 - 48) as nat
    } else if 97 <= c as u32 <= 102 {
        (c as u32 - 87) as nat
    } else {
        (c as u32 - 55) as nat
    }
}

/// `#` followed by exactly six hexadecimal digits.
pub open spec fn is_hex_color(s: Seq<char>) -> bool {
    &&& s.len() == 7
    &&& s[0] == '#'
    &&& forall|i: int| 1 <= i < 7 ==> is_hex_digit(#[trigger] s[i])
}

pub open spec fn byte_at(s: Seq<char>, i: int) -> u8 {
    (16 * hex_value(s[i]) + hex_value(s[i + 1])) as u8
}

/// The RGB value that a hex color code denotes.
pub open spec fn rgb_of(s: Seq<char>) -> Rgb {
    Rgb { r: byte_at(s, 1), g: byte_at(s, 3), b: byte_at(s, 5) }
}

pub proof fn lemma_native_dark_is_hex()
    ensures
        is_hex_color(native_dark()),
{
    reveal_strlit("#45475a");
}

fn hex_digit_value(c: char) -> (r: Option<u8>)
    ensures
        r is Some <==> is_hex_digit(c),
        r is Some ==> r.unwrap() as nat == hex_value(c),
{
    let v = c as u32;
    if 48 <= v && v <= 57 {
        Some((v - 48) as u8)
    } else if 97 <= v && v <= 102 {
        Some((v - 87) as u8)
    } else if 65 <= v && v <= 70 {
        Some((v - 55) as u8)
    } else {
        None
    }
}

/// Whether `s` is `#` followed by exactly six hexadecimal digits.
pub fn is_valid_hex_color(s: &str) -> (r: bool)
    ensures
        r == is_hex_color(s@),
{
    if s.unicode_len() != 7 {
        return false;
    }
    if s.get_char(0) != '#' {
        return false;
    }
    let mut i: usize = 1;
    while i < 7
        invariant
            s@.len() == 7,
            1 <= i <= 7,
            forall|j: int| 1 <= j < i ==> is_hex_digit(#[trigger] s@[j]),
        decreases 7 - i,
    {
        if hex_digit_value(s.get_char(i)).is_none() {
            return false;
        }
        i = i + 1;
    }
    true
}

fn byte_value(s: &str, i: usize) -> (r: u8)
    requires
        is_hex_color(s@),
        1 <= i <= 5,
    ensures
        r == byte_at(s@, i as int),
{
    let hi = hex_digit_value(s.get_char(i)).unwrap();
    let lo = hex_digit_value(s.get_char(i + 1)).unwrap();
    assert(hi < 16 && lo < 16) by {
        assert(is_hex_digit(s@[i as int]) && is_hex_digit(s@[i + 1]));
    }
    16 * hi + lo
}

/// Converts a hex color code to its RGB value; `None` where `s` is no hex color code.
pub fn hex_to_rgb(s: &str) -> (r: Option<Rgb>)
    ensures
        r is Some <==> is_hex_color(s@),
        r is Some ==> r.unwrap() == rgb_of(s@),
{
    if !is_valid_hex_color(s) {
        return None;
    }
    Some(Rgb { r: byte_value(s, 1), g: byte_value(s, 3), b: byte_value(s, 5) })
}

/// `text` wrapped in the ANSI codes that set the foreground to `c` and reset it.
pub open spec fn painted(c: Rgb, text: Seq<char>) -> Seq<char> {
    "\x1B[38;2;"@ + dec_seq(c.r as nat) + ";"@ + dec_seq(c.g as nat) + ";"@ + dec_seq(c.b as nat)
        + "m"@ + text + "\x1B[0m"@
}

/// `text` wrapped in the ANSI codes for bold and reset.
pub open spec fn emboldened(text: Seq<char>) -> Seq<char> {
    "\x1B[1m"@ + text + "\x1B[0m"@
}

/// Relies on ansi_term's `Colour::RGB(..).paint(text)` rendered by `Display`:
/// the prefix `ESC[38;2;r;g;bm`, the text, then the reset code `ESC[0m`.
#[verifier::external_body]
fn paint_rgb(c: Rgb, text: &str) -> (r: String)
    ensures
        r@ == painted(c, text@),
{
    ansi_term::Colour::RGB(c.r, c.g, c.b).paint(text).to_string()
}

/// Relies on ansi_term's `Style::new().bold().paint(text)` rendered by `Display`:
/// the prefix `ESC[1m`, the text, then the reset code `ESC[0m`.
#[verifier::external_body]
fn paint_bold(text: &str) -> (r: String)
    ensures
        r@ == emboldened(text@),
{
    ansi_term::Style::new().bold().paint(text).to_string()
}

/// Appends `text` painted in `c`.
pub fn push_painted(s: &mut String, c: Rgb, text: &str)
    ensures
        final(s)@ == old(s)@ + painted(c, text@),
{
    let p = paint_rgb(c, text);
    push_str(s, p.as_str());
}

/// Appends `text` in bold.
pub fn push_bold(s: &mut String, text: &str)
    ensures
        final(s)@ == old(s)@ + emboldened(text@),
{
    let p = paint_bold(text);
    push_str(s, p.as_str());
}

} // verus!
