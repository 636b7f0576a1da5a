use crate::digits::push_char;
use vstd::prelude::*;

verus! {

/// The mathematical value of a color: an RGB triple, and the palette name it
/// was written under, if any. The name is kept only so the color can be
/// displayed the way it was written; identity is the triple alone.
pub struct SpecColor {
    pub r: u8,
    pub g: u8,
    pub b: u8,
    pub name: Option<Seq<char>>,
}

/// An RGB color, optionally remembering the palette name it was parsed from.
#[derive(Clone, Debug)]
pub struct Color {
    pub r: u8,
    pub g: u8,
    pub b: u8,
    pub name: Option<String>,
}

impl View for Color {
    type V = SpecColor;

    open spec fn view(&self) -> SpecColor {
        SpecColor {
            r: self.r,
            g: self.g,
            b: self.b,
            name: match self.name {
                Some(n) => Some(n@),
                None => None,
            },
        }
    }
}

/// The name of the CSS color table of the palette crate: which RGB triple, if
/// any, a color name denotes. The lookup depends on the name alone.
pub uninterp spec fn palette_named_color(s: Seq<char>) -> Option<(u8, u8, u8)>;

/// Relies on `palette::named::from_str`: looks a name up in the CSS color
/// table, returning its RGB components.
#[verifier::external_body]
fn lookup_named(s: &str) -> (r: Option<(u8, u8, u8)>)
    ensures
        r == palette_named_color(s@),
{
    palette::named::from_str(s).map(|c| (c.red, c.green, c.blue))
}

pub open spec fn is_hex_digit(c: char) -> bool {
    (48 <= c as int && c as int <= 57) || (97 <= c as int && c as int <= 102) || (65 <= c as int
        && c as int <= 70)
}

pub open spec fn hex_val(c: char) -> int {
    if 48 <= c as int && c as int <= 57 {
        c as int - 48
    } else if 97 <= c as int && c as int <= 102 {
        c as int - 97 + 10
    } else {
        c as int - 65 + 10
    }
}

/// A well-formed hex color literal: `#` followed by exactly six hex digits.
pub open spec fn valid_hex_color(s: Seq<char>) -> bool {
    s.len() == 7 && s[0] == '#' && (forall|i: int| 1 <= i < 7 ==> is_hex_digit(s[i]))
}

/// What parsing a color string yields: a hex literal gives its RGB value and
/// no name; anything else is a palette name looked up in the CSS table, kept
/// as the color's name; all other inputs are invalid.
pub open spec fn spec_parse_color(s: Seq<char>) -> Option<SpecColor> {
    if s.len() > 0 && s[0] == '#' {
        if valid_hex_color(s) {
            Some(
                SpecColor {
                    r: (16 * hex_val(s[1]) + hex_val(s[2])) as u8,
                    g: (16 * hex_val(s[3]) + hex_val(s[4])) as u8,
                    b: (16 * hex_val(s[5]) + hex_val(s[6])) as u8,
                    name: None,
                },
            )
        } else {
            None
        }
    } else {
        match palette_named_color(s) {
            Some(t) => Some(SpecColor { r: t.0, g: t.1, b: t.2, name: Some(s) }),
            None => None,
        }
    }
}

/// The error of parsing a string that is neither a hex literal nor a known
/// color name; it carries the rejected input.
#[derive(Clone, Debug)]
pub struct InvalidColor(pub String);

impl View for InvalidColor {
    type V = Seq<char>;

    open spec fn view(&self) -> Seq<char> {
        self.0@
    }
}

/// The lowercase hex digit characters, for values 0 through 15.
pub open spec fn hex_digit_char(d: int) -> char {
    if d < 10 {
        crate::digits::digit_char(d)
    } else if d == 10 {
        'a'
    } else if d == 11 {
        'b'
    } else if d == 12 {
        'c'
    } else if d == 13 {
        'd'
    } else if d == 14 {
        'e'
    } else {
        'f'
    }
}

pub open spec fn spec_hex_byte(b: int) -> Seq<char> {
    seq![hex_digit_char(b / 16), hex_digit_char(b % 16)]
}

/// How a color displays: by its name if it has one, else as a lowercase
/// `#rrggbb` literal.
pub open spec fn spec_color_text(c: SpecColor) -> Seq<char> {
    match c.name {
        Some(n) => n,
        None => seq!['#'] + spec_hex_byte(c.r as int) + spec_hex_byte(c.g as int) + spec_hex_byte(
            c.b as int,
        ),
    }
}

impl Color {
    pub fn new(r: u8, g: u8, b: u8) -> (c: Color)
        ensures
            c@ == (SpecColor { r, g, b, name: None }),
    {
        Color { r, g, b, name: None }
    }

    pub fn as_rgb(&self) -> (t: (u8, u8, u8))
        ensures
            t == (self.r, self.g, self.b),
    {
        (self.r, self.g, self.b)
    }

    /// An owned copy with the same value.
    pub fn duplicate(&self) -> (c: Color)
        ensures
            c@ == self@,
    {
        Color {
            r: self.r,
            g: self.g,
            b: self.b,
            name: match &self.name {
                Some(n) => Some(n.clone()),
                None => None,
            },
        }
    }

    /// Parses `#rrggbb` hex literals and CSS palette names; anything else is
    /// rejected, never silently replaced by a default.
    pub fn parse(s: &str) -> (r: Result<Color, InvalidColor>)
        ensures
            match r {
                Ok(c) => spec_parse_color(s@) == Some(c@),
                Err(e) => spec_parse_color(s@) is None && e@ == s@,
            },
    {
        let len = s.unicode_len();
        if len > 0 && s.get_char(0) == '#' {
            if len != 7 {
                return Err(InvalidColor(String::from_str(s)));
            }
            let h1 = hex_digit_value(s.get_char(1));
            let l1 = hex_digit_value(s.get_char(2));
            let h2 = hex_digit_value(s.get_char(3));
            let l2 = hex_digit_value(s.get_char(4));
            let h3 = hex_digit_value(s.get_char(5));
            let l3 = hex_digit_value(s.get_char(6));
            match (h1, l1, h2, l2, h3, l3) {
                (Some(a), Some(b), Some(c), Some(d), Some(e), Some(f)) => Ok(
                    Color {
                        r: 16 * a + b,
                        g: 16 * c + d,
                        b: 16 * e + f,
                        name: None,
                    },
                ),
                _ => Err(InvalidColor(String::from_str(s))),
            }
        } else {
            match lookup_named(s) {
                Some(t) => Ok(Color { r: t.0, g: t.1, b: t.2, name: Some(String::from_str(s)) }),
                None => Err(InvalidColor(String::from_str(s))),
            }
        }
    }

    /// The color the way it was written: its name, or a `#rrggbb` literal.
    pub fn display_string(&self) -> (r: String)
        ensures
            r@ == spec_color_text(self@),
    {
        match &self.name {
            Some(n) => n.clone(),
            None => {
                let mut out = String::new();
                push_char(&mut out, '#');
                push_hex_byte(&mut out, self.r);
                push_hex_byte(&mut out, self.g);
                push_hex_byte(&mut out, self.b);
                assert(out@ =~= spec_color_text(self@));
                out
            },
        }
    }
}

impl PartialEq for Color {
    /// Color identity is the RGB triple; the retained name is display-only.
    fn eq(&self, other: &Color) -> (r: bool) {
        self.r == other.r && self.g == other.g && self.b == other.b
    }
}

impl vstd::std_specs::cmp::PartialEqSpecImpl for Color {
    open spec fn obeys_eq_spec() -> bool {
        true
    }

    open spec fn eq_spec(&self, other: &Color) -> bool {
        self.r == other.r && self.g == other.g && self.b == other.b
    }
}

fn hex_digit_value(c: char) -> (v: Option<u8>)
    ensures
        match v {
            Some(d) => is_hex_digit(c) && d == hex_val(c),
            None => !is_hex_digit(c),
        },
{
    let u = c as u32;
    if 48 <= u && u <= 57 {
        Some((u - 48) as u8)
    } else if 97 <= u && u <= 102 {
        Some((u - 97 + 10) as u8)
    } else if 65 <= u && u <= 70 {
        Some((u - 65 + 10) as u8)
    } else {
        None
    }
}

fn hex_digit_of(d: u8) -> (c: char)
    requires
        d < 16,
    ensures
        c == hex_digit_char(d as int),
{
    match d {
        0 => '0',
        1 => '1',
        2 => '2',
        3 => '3',
        4 => '4',
        5 => '5',
        6 => '6',
        7 => '7',
        8 => '8',
        9 => '9',
        10 => 'a',
        11 => 'b',
        12 => 'c',
        13 => 'd',
        14 => 'e',
        _ => 'f',
    }
}

fn push_hex_byte(out: &mut String, b: u8)
    ensures
        final(out)@ == old(out)@ + spec_hex_byte(b as int),
{
    push_char(out, hex_digit_of(b / 16));
    push_char(out, hex_digit_of(b % 16));
    assert(final(out)@ =~= old(out)@ + spec_hex_byte(b as int));
}

/// The palette color `black`.
pub fn black() -> (c: Color)
    ensures
        c@ == (SpecColor { r: 0, g: 0, b: 0, name: Some("black"@) }),
{
    Color { r: 0, g: 0, b: 0, name: Some(String::from_str("black")) }
}

/// The palette color `crimson`.
pub fn crimson() -> (c: Color)
    ensures
        c@ == (SpecColor { r: 220, g: 20, b: 60, name: Some("crimson"@) }),
{
    Color { r: 220, g: 20, b: 60, name: Some(String::from_str("crimson")) }
}

/// The palette color `dodgerblue`.
pub fn dodgerblue() -> (c: Color)
    ensures
        c@ == (SpecColor { r: 30, g: 144, b: 255, name: Some("dodgerblue"@) }),
{
    Color { r: 30, g: 144, b: 255, name: Some(String::from_str("dodgerblue")) }
}

/// The palette color `teal`.
pub fn teal() -> (c: Color)
    ensures
        c@ == (SpecColor { r: 0, g: 128, b: 128, name: Some("teal"@) }),
{
    Color { r: 0, g: 128, b: 128, name: Some(String::from_str("teal")) }
}

} // verus!
