//! Colors: named, indexed (0-255), and RGB, with their text forms.
//!
//! A color can be read from a name (`black` ... `bright-white`, `foreground`,
//! `background`, `cursor`), from `rgb:RR/GG/BB`, `#RRGGBB`, `#NN` (grayscale),
//! `0xRRGGBB`, or from a bare decimal index 0-255.

use vstd::prelude::*;
use crate::text::{hex_val, hex2_val, hex_digit, hex2_of, dec_bounded, dec_of, push_dec,
    parse_dec_bounded};

verus! {

#[derive(Debug, Clone, Copy, PartialEq, Eq, Structural)]
pub enum SpecialColor {
    Foreground,
    Background,
    Cursor,
}

#[derive(Debug, Clone, Copy, PartialEq, Eq, Structural)]
pub struct RgbColor {
    pub r: u8,
    pub g: u8,
    pub b: u8,
}

impl Default for RgbColor {
    fn default() -> (c: Self)
        ensures
            c == (RgbColor { r: 0, g: 0, b: 0 }),
    {
        RgbColor { r: 0, g: 0, b: 0 }
    }
}

#[derive(Debug, Clone, Copy, PartialEq, Eq, Structural)]
pub enum Color {
    Indexed(u8),
    Rgb(RgbColor),
    Special(SpecialColor),
}

// ---------------------------------------------------------------------------
// Name normalization: ASCII upper case folded to lower case, '_' to '-'.
// ---------------------------------------------------------------------------

pub open spec fn norm_byte(b: u8) -> u8 {
    if 65 <= b && b <= 90 {
        (b + 32) as u8
    } else if b == '_' as u8 {
        '-' as u8
    } else {
        b
    }
}

pub open spec fn normalized(s: Seq<u8>) -> Seq<u8> {
    Seq::new(s.len(), |i: int| norm_byte(s[i]))
}

fn normalize(s: &[u8]) -> (r: Vec<u8>)
    ensures
        r@ == normalized(s@),
{
    let mut out: Vec<u8> = Vec::new();
    let mut i: usize = 0;
    while i < s.len()
        invariant
            i <= s@.len(),
            out@ =~= normalized(s@).take(i as int),
        decreases s@.len() - i,
    {
        let b = s[i];
        let n: u8 = if 65 <= b && b <= 90 {
            b + 32
        } else if b == '_' as u8 {
            '-' as u8
        } else {
            b
        };
        out.push(n);
        proof {
            assert(out@ =~= normalized(s@).take(i + 1));
        }
        i += 1;
    }
    proof {
        assert(out@ =~= normalized(s@));
    }
    out
}

// ---------------------------------------------------------------------------
// Color names. The eight base names map to indices 0-7; with the `bright-`
// prefix they map to 8-15; three names select the special colors.
// ---------------------------------------------------------------------------

pub open spec fn name_of_base(i: int) -> Seq<u8>
    recommends
        0 <= i < 8,
{
    if i == 0 {
        seq!['b' as u8, 'l' as u8, 'a' as u8, 'c' as u8, 'k' as u8]
    } else if i == 1 {
        seq!['r' as u8, 'e' as u8, 'd' as u8]
    } else if i == 2 {
        seq!['g' as u8, 'r' as u8, 'e' as u8, 'e' as u8, 'n' as u8]
    } else if i == 3 {
        seq!['y' as u8, 'e' as u8, 'l' as u8, 'l' as u8, 'o' as u8, 'w' as u8]
    } else if i == 4 {
        seq!['b' as u8, 'l' as u8, 'u' as u8, 'e' as u8]
    } else if i == 5 {
        seq!['m' as u8, 'a' as u8, 'g' as u8, 'e' as u8, 'n' as u8, 't' as u8, 'a' as u8]
    } else if i == 6 {
        seq!['c' as u8, 'y' as u8, 'a' as u8, 'n' as u8]
    } else {
        seq!['w' as u8, 'h' as u8, 'i' as u8, 't' as u8, 'e' as u8]
    }
}

pub open spec fn bright_prefix() -> Seq<u8> {
    seq!['b' as u8, 'r' as u8, 'i' as u8, 'g' as u8, 'h' as u8, 't' as u8, '-' as u8]
}

pub open spec fn name_foreground() -> Seq<u8> {
    seq![
        'f' as u8,
        'o' as u8,
        'r' as u8,
        'e' as u8,
        'g' as u8,
        'r' as u8,
        'o' as u8,
        'u' as u8,
        'n' as u8,
        'd' as u8,
    ]
}

pub open spec fn name_background() -> Seq<u8> {
    seq![
        'b' as u8,
        'a' as u8,
        'c' as u8,
        'k' as u8,
        'g' as u8,
        'r' as u8,
        'o' as u8,
        'u' as u8,
        'n' as u8,
        'd' as u8,
    ]
}

pub open spec fn name_cursor() -> Seq<u8> {
    seq!['c' as u8, 'u' as u8, 'r' as u8, 's' as u8, 'o' as u8, 'r' as u8]
}

/// Index of the base color named by `t`, if any.
pub open spec fn base_color_index(t: Seq<u8>) -> Option<u8> {
    if t == name_of_base(0) {
        Some(0u8)
    } else if t == name_of_base(1) {
        Some(1u8)
    } else if t == name_of_base(2) {
        Some(2u8)
    } else if t == name_of_base(3) {
        Some(3u8)
    } else if t == name_of_base(4) {
        Some(4u8)
    } else if t == name_of_base(5) {
        Some(5u8)
    } else if t == name_of_base(6) {
        Some(6u8)
    } else if t == name_of_base(7) {
        Some(7u8)
    } else {
        None
    }
}

/// The color named by `t` (already normalized), if any.
pub open spec fn spec_named_color(t: Seq<u8>) -> Option<Color> {
    if base_color_index(t) is Some {
        Some(Color::Indexed(base_color_index(t)->Some_0))
    } else if t.len() > 7 && t.take(7) == bright_prefix() && base_color_index(t.skip(7)) is Some {
        Some(Color::Indexed((8 + base_color_index(t.skip(7))->Some_0) as u8))
    } else if t == name_foreground() {
        Some(Color::Special(SpecialColor::Foreground))
    } else if t == name_background() {
        Some(Color::Special(SpecialColor::Background))
    } else if t == name_cursor() {
        Some(Color::Special(SpecialColor::Cursor))
    } else {
        None
    }
}

// ---------------------------------------------------------------------------
// Numeric forms.
// ---------------------------------------------------------------------------

/// `rgb:RR/GG/BB`, `#NN`, `#RRGGBB` or `0xRRGGBB`.
pub open spec fn spec_parse_rgb(s: Seq<u8>) -> Option<RgbColor> {
    if s.len() == 12 && s[0] == 'r' as u8 && s[1] == 'g' as u8 && s[2] == 'b' as u8 && s[3]
        == ':' as u8 && s[6] == '/' as u8 && s[9] == '/' as u8 {
        match (hex2_val(s[4], s[5]), hex2_val(s[7], s[8]), hex2_val(s[10], s[11])) {
            (Some(r), Some(g), Some(b)) => Some(RgbColor { r, g, b }),
            _ => None,
        }
    } else if s.len() == 3 && s[0] == '#' as u8 {
        match hex2_val(s[1], s[2]) {
            Some(n) => Some(RgbColor { r: n, g: n, b: n }),
            None => None,
        }
    } else if s.len() == 7 && s[0] == '#' as u8 {
        match (hex2_val(s[1], s[2]), hex2_val(s[3], s[4]), hex2_val(s[5], s[6])) {
            (Some(r), Some(g), Some(b)) => Some(RgbColor { r, g, b }),
            _ => None,
        }
    } else if s.len() == 8 && s[0] == '0' as u8 && s[1] == 'x' as u8 {
        match (hex2_val(s[2], s[3]), hex2_val(s[4], s[5]), hex2_val(s[6], s[7])) {
            (Some(r), Some(g), Some(b)) => Some(RgbColor { r, g, b }),
            _ => None,
        }
    } else {
        None
    }
}

/// A color text form: a name, a numeric RGB form, or a decimal index.
pub open spec fn spec_parse_color(s: Seq<u8>) -> Option<Color> {
    let t = normalized(s);
    match spec_named_color(t) {
        Some(c) => Some(c),
        None => match spec_parse_rgb(t) {
            Some(rgb) => Some(Color::Rgb(rgb)),
            None => match dec_bounded(t, 255) {
                Some(v) => Some(Color::Indexed(v as u8)),
                None => None,
            },
        },
    }
}

// ---------------------------------------------------------------------------
// Exec helpers.
// ---------------------------------------------------------------------------

/// Compare two byte strings.
pub fn bytes_eq(a: &[u8], b: &[u8]) -> (r: bool)
    ensures
        r == (a@ == b@),
{
    if a.len() != b.len() {
        proof {
            assert(a@ != b@);
        }
        return false;
    }
    let mut i: usize = 0;
    while i < a.len()
        invariant
            i <= a@.len(),
            a@.len() == b@.len(),
            forall|j: int| 0 <= j < i ==> a@[j] == b@[j],
        decreases a@.len() - i,
    {
        if a[i] != b[i] {
            proof {
                assert(a@[i as int] != b@[i as int]);
            }
            return false;
        }
        i += 1;
    }
    proof {
        assert(a@ =~= b@);
    }
    true
}

fn hex1(b: u8) -> (r: Option<u8>)
    ensures
        r == hex_val(b),
{
    if 48 <= b && b <= 57 {
        Some(b - 48)
    } else if 97 <= b && b <= 102 {
        Some(b - 97 + 10)
    } else if 65 <= b && b <= 70 {
        Some(b - 65 + 10)
    } else {
        None
    }
}

fn hex2(hi: u8, lo: u8) -> (r: Option<u8>)
    ensures
        r == hex2_val(hi, lo),
{
    match (hex1(hi), hex1(lo)) {
        (Some(h), Some(l)) => Some(h * 16 + l),
        _ => None,
    }
}

fn base_color_lookup(t: &[u8]) -> (r: Option<u8>)
    ensures
        r == base_color_index(t@),
{
    let n0: Vec<u8> = vec!['b' as u8, 'l' as u8, 'a' as u8, 'c' as u8, 'k' as u8];
    let n1: Vec<u8> = vec!['r' as u8, 'e' as u8, 'd' as u8];
    let n2: Vec<u8> = vec!['g' as u8, 'r' as u8, 'e' as u8, 'e' as u8, 'n' as u8];
    let n3: Vec<u8> = vec!['y' as u8, 'e' as u8, 'l' as u8, 'l' as u8, 'o' as u8, 'w' as u8];
    let n4: Vec<u8> = vec!['b' as u8, 'l' as u8, 'u' as u8, 'e' as u8];
    let n5: Vec<u8> = vec![
        'm' as u8,
        'a' as u8,
        'g' as u8,
        'e' as u8,
        'n' as u8,
        't' as u8,
        'a' as u8,
    ];
    let n6: Vec<u8> = vec!['c' as u8, 'y' as u8, 'a' as u8, 'n' as u8];
    let n7: Vec<u8> = vec!['w' as u8, 'h' as u8, 'i' as u8, 't' as u8, 'e' as u8];
    proof {
        assert(n0@ =~= name_of_base(0));
        assert(n1@ =~= name_of_base(1));
        assert(n2@ =~= name_of_base(2));
        assert(n3@ =~= name_of_base(3));
        assert(n4@ =~= name_of_base(4));
        assert(n5@ =~= name_of_base(5));
        assert(n6@ =~= name_of_base(6));
        assert(n7@ =~= name_of_base(7));
    }
    if bytes_eq(t, n0.as_slice()) {
        Some(0)
    } else if bytes_eq(t, n1.as_slice()) {
        Some(1)
    } else if bytes_eq(t, n2.as_slice()) {
        Some(2)
    } else if bytes_eq(t, n3.as_slice()) {
        Some(3)
    } else if bytes_eq(t, n4.as_slice()) {
        Some(4)
    } else if bytes_eq(t, n5.as_slice()) {
        Some(5)
    } else if bytes_eq(t, n6.as_slice()) {
        Some(6)
    } else if bytes_eq(t, n7.as_slice()) {
        Some(7)
    } else {
        None
    }
}

fn named_color_lookup(t: &[u8]) -> (r: Option<Color>)
    ensures
        r == spec_named_color(t@),
{
    if let Some(i) = base_color_lookup(t) {
        return Some(Color::Indexed(i));
    }
    let prefix: Vec<u8> = vec![
        'b' as u8,
        'r' as u8,
        'i' as u8,
        'g' as u8,
        'h' as u8,
        't' as u8,
        '-' as u8,
    ];
    proof {
        assert(prefix@ =~= bright_prefix());
    }
    if t.len() > 7 {
        let head = &t[0..7];
        proof {
            assert(head@ =~= t@.take(7));
        }
        if bytes_eq(head, prefix.as_slice()) {
            let tail = &t[7..t.len()];
            proof {
                assert(tail@ =~= t@.skip(7));
            }
            if let Some(i) = base_color_lookup(tail) {
                return Some(Color::Indexed(8 + i));
            }
        }
    }
    let fg: Vec<u8> = vec![
        'f' as u8,
        'o' as u8,
        'r' as u8,
        'e' as u8,
        'g' as u8,
        'r' as u8,
        'o' as u8,
        'u' as u8,
        'n' as u8,
        'd' as u8,
    ];
    let bg: Vec<u8> = vec![
        'b' as u8,
        'a' as u8,
        'c' as u8,
        'k' as u8,
        'g' as u8,
        'r' as u8,
        'o' as u8,
        'u' as u8,
        'n' as u8,
        'd' as u8,
    ];
    let cur: Vec<u8> = vec!['c' as u8, 'u' as u8, 'r' as u8, 's' as u8, 'o' as u8, 'r' as u8];
    proof {
        assert(fg@ =~= name_foreground());
        assert(bg@ =~= name_background());
        assert(cur@ =~= name_cursor());
    }
    if bytes_eq(t, fg.as_slice()) {
        Some(Color::Special(SpecialColor::Foreground))
    } else if bytes_eq(t, bg.as_slice()) {
        Some(Color::Special(SpecialColor::Background))
    } else if bytes_eq(t, cur.as_slice()) {
        Some(Color::Special(SpecialColor::Cursor))
    } else {
        None
    }
}

impl RgbColor {
    /// Read an RGB color from one of the numeric text forms.
    pub fn parse(s: &[u8]) -> (r: Option<RgbColor>)
        ensures
            r == spec_parse_rgb(s@),
    {
        if s.len() == 12 && s[0] == 'r' as u8 && s[1] == 'g' as u8 && s[2] == 'b' as u8 && s[3]
            == ':' as u8 && s[6] == '/' as u8 && s[9] == '/' as u8 {
            match (hex2(s[4], s[5]), hex2(s[7], s[8]), hex2(s[10], s[11])) {
                (Some(r), Some(g), Some(b)) => Some(RgbColor { r, g, b }),
                _ => None,
            }
        } else if s.len() == 3 && s[0] == '#' as u8 {
            match hex2(s[1], s[2]) {
                Some(n) => Some(RgbColor { r: n, g: n, b: n }),
                None => None,
            }
        } else if s.len() == 7 && s[0] == '#' as u8 {
            match (hex2(s[1], s[2]), hex2(s[3], s[4]), hex2(s[5], s[6])) {
                (Some(r), Some(g), Some(b)) => Some(RgbColor { r, g, b }),
                _ => None,
            }
        } else if s.len() == 8 && s[0] == '0' as u8 && s[1] == 'x' as u8 {
            match (hex2(s[2], s[3]), hex2(s[4], s[5]), hex2(s[6], s[7])) {
                (Some(r), Some(g), Some(b)) => Some(RgbColor { r, g, b }),
                _ => None,
            }
        } else {
            None
        }
    }

    /// The `#rrggbb` form, two lower-case hex digits per channel.
    pub fn to_hex(&self) -> (r: Vec<u8>)
        ensures
            r@ == rgb_hex_of(*self),
    {
        let mut out: Vec<u8> = Vec::new();
        out.push('#' as u8);
        push_hex2(&mut out, self.r);
        push_hex2(&mut out, self.g);
        push_hex2(&mut out, self.b);
        proof {
            assert(out@ =~= rgb_hex_of(*self));
        }
        out
    }
}

/// The `#rrggbb` text of a color.
pub open spec fn rgb_hex_of(c: RgbColor) -> Seq<u8> {
    seq!['#' as u8] + hex2_of(c.r) + hex2_of(c.g) + hex2_of(c.b)
}

/// The `rgb:rr/gg/bb` text of a color.
pub open spec fn rgb_colon_of(c: RgbColor) -> Seq<u8> {
    seq!['r' as u8, 'g' as u8, 'b' as u8, ':' as u8] + hex2_of(c.r) + seq!['/' as u8] + hex2_of(
        c.g,
    ) + seq!['/' as u8] + hex2_of(c.b)
}

/// Append the two lower-case hex digits of `v`.
pub fn push_hex2(out: &mut Vec<u8>, v: u8)
    ensures
        final(out)@ == old(out)@ + hex2_of(v),
{
    let hi = v / 16;
    let lo = v % 16;
    let d1: u8 = if hi < 10 {
        48 + hi
    } else {
        97 + hi - 10
    };
    let d2: u8 = if lo < 10 {
        48 + lo
    } else {
        97 + lo - 10
    };
    out.push(d1);
    out.push(d2);
    proof {
        assert(out@ =~= old(out)@ + hex2_of(v));
    }
}

proof fn lemma_hex_digit_val(d: u8)
    requires
        d < 16,
    ensures
        hex_val(hex_digit(d)) == Some(d),
{
}

/// Reading back a two-digit hex rendering gives the byte it was made from.
pub proof fn lemma_hex2_round_trip(v: u8)
    ensures
        hex2_val(hex2_of(v)[0], hex2_of(v)[1]) == Some(v),
{
    lemma_hex_digit_val(v / 16);
    lemma_hex_digit_val((v % 16) as u8);
    assert(v / 16 * 16 + v % 16 == v) by (nonlinear_arith);
}

/// The `rgb:rr/gg/bb` and `#rrggbb` renderings of a color read back as the
/// same `(r, g, b)` triple they were made from.
pub proof fn lemma_color_round_trip(c: RgbColor)
    ensures
        spec_parse_rgb(rgb_colon_of(c)) == Some(c),
        spec_parse_rgb(rgb_hex_of(c)) == Some(c),
{
    lemma_hex2_round_trip(c.r);
    lemma_hex2_round_trip(c.g);
    lemma_hex2_round_trip(c.b);
    let s = rgb_colon_of(c);
    assert(s.len() == 12);
    assert(s[0] == 'r' as u8 && s[1] == 'g' as u8 && s[2] == 'b' as u8 && s[3] == ':' as u8);
    assert(s[4] == hex2_of(c.r)[0] && s[5] == hex2_of(c.r)[1]);
    assert(s[6] == '/' as u8);
    assert(s[7] == hex2_of(c.g)[0] && s[8] == hex2_of(c.g)[1]);
    assert(s[9] == '/' as u8);
    assert(s[10] == hex2_of(c.b)[0] && s[11] == hex2_of(c.b)[1]);
    let h = rgb_hex_of(c);
    assert(h.len() == 7);
    assert(h[0] == '#' as u8);
    assert(h[1] == hex2_of(c.r)[0] && h[2] == hex2_of(c.r)[1]);
    assert(h[3] == hex2_of(c.g)[0] && h[4] == hex2_of(c.g)[1]);
    assert(h[5] == hex2_of(c.b)[0] && h[6] == hex2_of(c.b)[1]);
}

impl Color {
    /// Read a color from any of its text forms.
    pub fn parse(s: &[u8]) -> (r: Option<Color>)
        ensures
            r == spec_parse_color(s@),
    {
        let t = normalize(s);
        if let Some(c) = named_color_lookup(t.as_slice()) {
            return Some(c);
        }
        if let Some(rgb) = RgbColor::parse(t.as_slice()) {
            return Some(Color::Rgb(rgb));
        }
        match parse_dec_bounded(t.as_slice(), 255) {
            Some(v) => Some(Color::Indexed(v as u8)),
            None => None,
        }
    }

    /// The text form of the color: a name for the sixteen base colors and the
    /// specials, the decimal index otherwise, `#rrggbb` for RGB values.
    pub fn to_text(&self) -> (r: Vec<u8>)
        ensures
            r@ == spec_color_text(*self),
    {
        match self {
            Color::Indexed(i) => {
                let i = *i;
                if i < 8 {
                    base_name_vec(i)
                } else if i < 16 {
                    let mut out: Vec<u8> = vec![
                        'b' as u8,
                        'r' as u8,
                        'i' as u8,
                        'g' as u8,
                        'h' as u8,
                        't' as u8,
                        '-' as u8,
                    ];
                    proof {
                        assert(out@ =~= bright_prefix());
                    }
                    let mut base = base_name_vec(i - 8);
                    out.append(&mut base);
                    proof {
                        assert(out@ =~= bright_prefix() + name_of_base(i - 8));
                    }
                    out
                } else {
                    let mut out: Vec<u8> = Vec::new();
                    push_dec(&mut out, i as usize);
                    proof {
                        assert(out@ =~= dec_of(i as int));
                    }
                    out
                }
            },
            Color::Rgb(rgb) => rgb.to_hex(),
            Color::Special(SpecialColor::Foreground) => {
                let out: Vec<u8> = vec![
                    'f' as u8,
                    'o' as u8,
                    'r' as u8,
                    'e' as u8,
                    'g' as u8,
                    'r' as u8,
                    'o' as u8,
                    'u' as u8,
                    'n' as u8,
                    'd' as u8,
                ];
                proof {
                    assert(out@ =~= name_foreground());
                }
                out
            },
            Color::Special(SpecialColor::Background) => {
                let out: Vec<u8> = vec![
                    'b' as u8,
                    'a' as u8,
                    'c' as u8,
                    'k' as u8,
                    'g' as u8,
                    'r' as u8,
                    'o' as u8,
                    'u' as u8,
                    'n' as u8,
                    'd' as u8,
                ];
                proof {
                    assert(out@ =~= name_background());
                }
                out
            },
            Color::Special(SpecialColor::Cursor) => {
                let out: Vec<u8> = vec![
                    'c' as u8,
                    'u' as u8,
                    'r' as u8,
                    's' as u8,
                    'o' as u8,
                    'r' as u8,
                ];
                proof {
                    assert(out@ =~= name_cursor());
                }
                out
            },
        }
    }
}

/// Text form of a color.
pub open spec fn spec_color_text(c: Color) -> Seq<u8> {
    match c {
        Color::Indexed(i) => if i < 8 {
            name_of_base(i as int)
        } else if i < 16 {
            bright_prefix() + name_of_base(i - 8)
        } else {
            dec_of(i as int)
        },
        Color::Rgb(rgb) => rgb_hex_of(rgb),
        Color::Special(SpecialColor::Foreground) => name_foreground(),
        Color::Special(SpecialColor::Background) => name_background(),
        Color::Special(SpecialColor::Cursor) => name_cursor(),
    }
}

fn base_name_vec(i: u8) -> (r: Vec<u8>)
    requires
        i < 8,
    ensures
        r@ == name_of_base(i as int),
{
    if i == 0 {
        let v: Vec<u8> = vec!['b' as u8, 'l' as u8, 'a' as u8, 'c' as u8, 'k' as u8];
        proof {
            assert(v@ =~= name_of_base(0));
        }
        v
    } else if i == 1 {
        let v: Vec<u8> = vec!['r' as u8, 'e' as u8, 'd' as u8];
        proof {
            assert(v@ =~= name_of_base(1));
        }
        v
    } else if i == 2 {
        let v: Vec<u8> = vec!['g' as u8, 'r' as u8, 'e' as u8, 'e' as u8, 'n' as u8];
        proof {
            assert(v@ =~= name_of_base(2));
        }
        v
    } else if i == 3 {
        let v: Vec<u8> = vec!['y' as u8, 'e' as u8, 'l' as u8, 'l' as u8, 'o' as u8, 'w' as u8];
        proof {
            assert(v@ =~= name_of_base(3));
        }
        v
    } else if i == 4 {
        let v: Vec<u8> = vec!['b' as u8, 'l' as u8, 'u' as u8, 'e' as u8];
        proof {
            assert(v@ =~= name_of_base(4));
        }
        v
    } else if i == 5 {
        let v: Vec<u8> = vec![
            'm' as u8,
            'a' as u8,
            'g' as u8,
            'e' as u8,
            'n' as u8,
            't' as u8,
            'a' as u8,
        ];
        proof {
            assert(v@ =~= name_of_base(5));
        }
        v
    } else if i == 6 {
        let v: Vec<u8> = vec!['c' as u8, 'y' as u8, 'a' as u8, 'n' as u8];
        proof {
            assert(v@ =~= name_of_base(6));
        }
        v
    } else {
        let v: Vec<u8> = vec!['w' as u8, 'h' as u8, 'i' as u8, 't' as u8, 'e' as u8];
        proof {
            assert(v@ =~= name_of_base(7));
        }
        v
    }
}

} // verus!
