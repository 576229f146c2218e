//! RGBA colours: construction, channel access, `#RRGGBBAA` text in both
//! directions, the `0xRRGGBBAA` packing, a table of named colours, and the
//! integer HSV/HSL constructors computed by `colorutils_rs`.

use vstd::prelude::*;
use vstd::string::*;

use crate::text::{chars_of, push_char};

verus! {

/// An RGBA colour, one byte per channel.
#[derive(Debug, Copy, Clone, PartialEq, Eq, Structural)]
pub struct Color {
    pub r: u8,
    pub g: u8,
    pub b: u8,
    pub a: u8,
}

impl Default for Color {
    /// Transparent black: every channel zero.
    fn default() -> (c: Self)
        ensures
            c == (Color { r: 0, g: 0, b: 0, a: 0 }),
    {
        Color { r: 0, g: 0, b: 0, a: 0 }
    }
}

/// The hexadecimal digit for a value below sixteen, in the requested letter case.
pub open spec fn hex_digit(d: nat, uppercase: bool) -> char {
    if d < 10 {
        crate::text::digit_char(d)
    } else if uppercase {
        if d == 10 { 'A' } else if d == 11 { 'B' } else if d == 12 { 'C' }
        else if d == 13 { 'D' } else if d == 14 { 'E' } else { 'F' }
    } else {
        if d == 10 { 'a' } else if d == 11 { 'b' } else if d == 12 { 'c' }
        else if d == 13 { 'd' } else if d == 14 { 'e' } else { 'f' }
    }
}

/// A byte as two hexadecimal digits (`{:02X}` / `{:02x}`).
pub open spec fn hex_byte(b: u8, uppercase: bool) -> Seq<char> {
    seq![hex_digit((b / 16) as nat, uppercase), hex_digit((b % 16) as nat, uppercase)]
}

/// `#RRGGBBAA` for a colour.
pub open spec fn hex_text(c: Color, uppercase: bool) -> Seq<char> {
    seq!['#'] + hex_byte(c.r, uppercase) + hex_byte(c.g, uppercase) + hex_byte(c.b, uppercase)
        + hex_byte(c.a, uppercase)
}

/// The colour a `0xRRGGBBAA` word packs: red in the top byte, alpha in the lowest.
pub open spec fn unpack(x: u32) -> Color {
    Color {
        r: ((x as nat / 0x1000000) % 256) as u8,
        g: ((x as nat / 0x10000) % 256) as u8,
        b: ((x as nat / 0x100) % 256) as u8,
        a: (x as nat % 256) as u8,
    }
}

/// The `0xRRGGBBAA` word of a colour.
pub open spec fn pack(c: Color) -> nat {
    c.r as nat * 0x1000000 + c.g as nat * 0x10000 + c.b as nat * 0x100 + c.a as nat
}

/// The value of a hexadecimal digit character, if it is one (either case).
pub open spec fn hex_value(c: char) -> Option<nat> {
    if '0' <= c && c <= '9' {
        Some((c as nat - '0' as nat) as nat)
    } else if 'a' <= c && c <= 'f' {
        Some((c as nat - 'a' as nat + 10) as nat)
    } else if 'A' <= c && c <= 'F' {
        Some((c as nat - 'A' as nat + 10) as nat)
    } else {
        None
    }
}

/// The text after one leading `#`, if there is one.
pub open spec fn strip_hash(s: Seq<char>) -> Seq<char> {
    if s.len() > 0 && s[0] == '#' { s.drop_first() } else { s }
}

/// Every character is an ASCII hexadecimal digit (either case).
pub open spec fn all_hex(h: Seq<char>) -> bool {
    forall|k: int| 0 <= k < h.len() ==> #[trigger] hex_value(h[k]) is Some
}

/// The byte the `i`-th pair of hexadecimal digits of `h` spells.
pub open spec fn byte_pair(h: Seq<char>, i: int) -> u8 {
    (hex_value(h[2 * i])->0 * 16 + hex_value(h[2 * i + 1])->0) as u8
}

/// The named colour `RED`, opaque: (255, 0, 0).
pub fn red() -> (c: Color)
    ensures
        c == (Color { r: 255, g: 0, b: 0, a: 255 }),
{
    Color { r: 255, g: 0, b: 0, a: 255 }
}
/// The named colour `ORANGE`, opaque: (255, 165, 0).
pub fn orange() -> (c: Color)
    ensures
        c == (Color { r: 255, g: 165, b: 0, a: 255 }),
{
    Color { r: 255, g: 165, b: 0, a: 255 }
}
/// The named colour `YELLOW`, opaque: (255, 255, 0).
pub fn yellow() -> (c: Color)
    ensures
        c == (Color { r: 255, g: 255, b: 0, a: 255 }),
{
    Color { r: 255, g: 255, b: 0, a: 255 }
}
/// The named colour `GREEN`, opaque: (0, 128, 0).
pub fn green() -> (c: Color)
    ensures
        c == (Color { r: 0, g: 128, b: 0, a: 255 }),
{
    Color { r: 0, g: 128, b: 0, a: 255 }
}
/// The named colour `BLUE`, opaque: (0, 0, 255).
pub fn blue() -> (c: Color)
    ensures
        c == (Color { r: 0, g: 0, b: 255, a: 255 }),
{
    Color { r: 0, g: 0, b: 255, a: 255 }
}
/// The named colour `INDIGO`, opaque: (75, 0, 130).
pub fn indigo() -> (c: Color)
    ensures
        c == (Color { r: 75, g: 0, b: 130, a: 255 }),
{
    Color { r: 75, g: 0, b: 130, a: 255 }
}
/// The named colour `VIOLET`, opaque: (238, 130, 238).
pub fn violet() -> (c: Color)
    ensures
        c == (Color { r: 238, g: 130, b: 238, a: 255 }),
{
    Color { r: 238, g: 130, b: 238, a: 255 }
}
/// The named colour `PURPLE`, opaque: (128, 0, 128).
pub fn purple() -> (c: Color)
    ensures
        c == (Color { r: 128, g: 0, b: 128, a: 255 }),
{
    Color { r: 128, g: 0, b: 128, a: 255 }
}
/// The named colour `MAGENTA`, opaque: (255, 0, 255).
pub fn magenta() -> (c: Color)
    ensures
        c == (Color { r: 255, g: 0, b: 255, a: 255 }),
{
    Color { r: 255, g: 0, b: 255, a: 255 }
}
/// The named colour `CYAN`, opaque: (0, 255, 255).
pub fn cyan() -> (c: Color)
    ensures
        c == (Color { r: 0, g: 255, b: 255, a: 255 }),
{
    Color { r: 0, g: 255, b: 255, a: 255 }
}
/// The named colour `LIME`, opaque: (0, 255, 0).
pub fn lime() -> (c: Color)
    ensures
        c == (Color { r: 0, g: 255, b: 0, a: 255 }),
{
    Color { r: 0, g: 255, b: 0, a: 255 }
}
/// The named colour `TEAL`, opaque: (0, 128, 128).
pub fn teal() -> (c: Color)
    ensures
        c == (Color { r: 0, g: 128, b: 128, a: 255 }),
{
    Color { r: 0, g: 128, b: 128, a: 255 }
}
/// The named colour `BLACK`, opaque: (0, 0, 0).
pub fn black() -> (c: Color)
    ensures
        c == (Color { r: 0, g: 0, b: 0, a: 255 }),
{
    Color { r: 0, g: 0, b: 0, a: 255 }
}
/// The named colour `WHITE`, opaque: (255, 255, 255).
pub fn white() -> (c: Color)
    ensures
        c == (Color { r: 255, g: 255, b: 255, a: 255 }),
{
    Color { r: 255, g: 255, b: 255, a: 255 }
}
/// The named colour `GRAY`, opaque: (128, 128, 128).
pub fn gray() -> (c: Color)
    ensures
        c == (Color { r: 128, g: 128, b: 128, a: 255 }),
{
    Color { r: 128, g: 128, b: 128, a: 255 }
}
/// The named colour `SILVER`, opaque: (192, 192, 192).
pub fn silver() -> (c: Color)
    ensures
        c == (Color { r: 192, g: 192, b: 192, a: 255 }),
{
    Color { r: 192, g: 192, b: 192, a: 255 }
}
/// The named colour `MAROON`, opaque: (128, 0, 0).
pub fn maroon() -> (c: Color)
    ensures
        c == (Color { r: 128, g: 0, b: 0, a: 255 }),
{
    Color { r: 128, g: 0, b: 0, a: 255 }
}
/// The named colour `OLIVE`, opaque: (128, 128, 0).
pub fn olive() -> (c: Color)
    ensures
        c == (Color { r: 128, g: 128, b: 0, a: 255 }),
{
    Color { r: 128, g: 128, b: 0, a: 255 }
}
/// The named colour `NAVY`, opaque: (0, 0, 128).
pub fn navy() -> (c: Color)
    ensures
        c == (Color { r: 0, g: 0, b: 128, a: 255 }),
{
    Color { r: 0, g: 0, b: 128, a: 255 }
}
/// The named colour `PINK`, opaque: (255, 192, 203).
pub fn pink() -> (c: Color)
    ensures
        c == (Color { r: 255, g: 192, b: 203, a: 255 }),
{
    Color { r: 255, g: 192, b: 203, a: 255 }
}
/// The named colour `BROWN`, opaque: (165, 42, 42).
pub fn brown() -> (c: Color)
    ensures
        c == (Color { r: 165, g: 42, b: 42, a: 255 }),
{
    Color { r: 165, g: 42, b: 42, a: 255 }
}
/// The named colour `GOLD`, opaque: (255, 215, 0).
pub fn gold() -> (c: Color)
    ensures
        c == (Color { r: 255, g: 215, b: 0, a: 255 }),
{
    Color { r: 255, g: 215, b: 0, a: 255 }
}
/// The named colour `TURQUOISE`, opaque: (64, 224, 208).
pub fn turquoise() -> (c: Color)
    ensures
        c == (Color { r: 64, g: 224, b: 208, a: 255 }),
{
    Color { r: 64, g: 224, b: 208, a: 255 }
}
/// The named colour `LAVENDER`, opaque: (230, 230, 250).
pub fn lavender() -> (c: Color)
    ensures
        c == (Color { r: 230, g: 230, b: 250, a: 255 }),
{
    Color { r: 230, g: 230, b: 250, a: 255 }
}
/// The named colour `CORAL`, opaque: (255, 127, 80).
pub fn coral() -> (c: Color)
    ensures
        c == (Color { r: 255, g: 127, b: 80, a: 255 }),
{
    Color { r: 255, g: 127, b: 80, a: 255 }
}
/// The named colour `SALMON`, opaque: (250, 128, 114).
pub fn salmon() -> (c: Color)
    ensures
        c == (Color { r: 250, g: 128, b: 114, a: 255 }),
{
    Color { r: 250, g: 128, b: 114, a: 255 }
}
/// The named colour `CRIMSON`, opaque: (220, 20, 60).
pub fn crimson() -> (c: Color)
    ensures
        c == (Color { r: 220, g: 20, b: 60, a: 255 }),
{
    Color { r: 220, g: 20, b: 60, a: 255 }
}
/// The named colour `KHAKI`, opaque: (240, 230, 140).
pub fn khaki() -> (c: Color)
    ensures
        c == (Color { r: 240, g: 230, b: 140, a: 255 }),
{
    Color { r: 240, g: 230, b: 140, a: 255 }
}
/// The named colour `PLUM`, opaque: (221, 160, 221).
pub fn plum() -> (c: Color)
    ensures
        c == (Color { r: 221, g: 160, b: 221, a: 255 }),
{
    Color { r: 221, g: 160, b: 221, a: 255 }
}

/// The number of bytes UTF-8 spends on a character.
pub open spec fn char_width(c: char) -> nat {
    if c as u32 <= 0x7F { 1 } else if c as u32 <= 0x7FF { 2 } else if c as u32 <= 0xFFFF { 3 } else { 4 }
}

/// The UTF-8 byte length of a text (what `str::len` reports).
pub open spec fn utf8_len(s: Seq<char>) -> nat
    decreases s.len(),
{
    if s.len() == 0 { 0 } else { utf8_len(s.drop_last()) + char_width(s.last()) }
}

/// The error for a value whose length (after the leading `#`) is neither six nor eight bytes.
pub const LENGTH_ERROR: &'static str = "Failed to convert `Color` from str: invalid length";

/// The error for a value that is not hexadecimal.
pub const DIGITS_ERROR: &'static str = "Failed to convert `Color` from str: invalid hex";

/// How a colour string reads: one optional leading `#`; then six bytes are
/// `RRGGBB` with alpha `ff`, eight bytes `RRGGBBAA`, each pair of
/// hexadecimal digits one channel; any other byte length is a length error,
/// and a character that is not a hexadecimal digit a digit error.
pub open spec fn parse_color_spec(s: Seq<char>) -> Result<Color, &'static str> {
    let h = strip_hash(s);
    let n = utf8_len(h);
    if n != 6 && n != 8 {
        Err(LENGTH_ERROR)
    } else if !all_hex(h) {
        Err(DIGITS_ERROR)
    } else {
        Ok(Color {
            r: byte_pair(h, 0),
            g: byte_pair(h, 1),
            b: byte_pair(h, 2),
            a: if n == 6 { 0xFF } else { byte_pair(h, 3) },
        })
    }
}

impl Color {
    /// A colour from three channels, fully opaque (alpha `0xFF`).
    pub fn from_rgb(r: u8, g: u8, b: u8) -> (c: Self)
        ensures
            c == (Color { r, g, b, a: 0xFF }),
    {
        Color { r, g, b, a: 0xFF }
    }

    /// A colour from all four channels.
    pub fn from_rgba(r: u8, g: u8, b: u8, a: u8) -> (c: Self)
        ensures
            c == (Color { r, g, b, a }),
    {
        Color { r, g, b, a }
    }

    /// `[r, g, b, a]`.
    pub fn as_array(&self) -> (out: [u8; 4])
        ensures
            out@ == seq![self.r, self.g, self.b, self.a],
    {
        let out = [self.r, self.g, self.b, self.a];
        assert(out@ =~= seq![self.r, self.g, self.b, self.a]);
        out
    }

    /// `(r, g, b, a)`.
    pub fn as_tuple(&self) -> (out: (u8, u8, u8, u8))
        ensures
            out == (self.r, self.g, self.b, self.a),
    {
        (self.r, self.g, self.b, self.a)
    }

    /// `(r, g, b, a)`, the same as [`Color::as_tuple`].
    pub fn rgba(&self) -> (out: (u8, u8, u8, u8))
        ensures
            out == (self.r, self.g, self.b, self.a),
    {
        self.as_tuple()
    }

    /// `(r, g, b)`.
    pub fn rgb(&self) -> (out: (u8, u8, u8))
        ensures
            out == (self.r, self.g, self.b),
    {
        (self.r, self.g, self.b)
    }

    /// The red channel.
    pub fn r(&self) -> (v: u8)
        ensures
            v == self.r,
    {
        self.r
    }

    /// The green channel.
    pub fn g(&self) -> (v: u8)
        ensures
            v == self.g,
    {
        self.g
    }

    /// The blue channel.
    pub fn b(&self) -> (v: u8)
        ensures
            v == self.b,
    {
        self.b
    }

    /// The alpha channel.
    pub fn a(&self) -> (v: u8)
        ensures
            v == self.a,
    {
        self.a
    }

    /// The same colour with another alpha value.
    pub fn with_alpha(self, a: u8) -> (c: Self)
        ensures
            c == (Color { a, ..self }),
    {
        let mut c = self;
        c.a = a;
        c
    }

    /// `#RRGGBBAA`, in upper- or lower-case hexadecimal.
    pub fn hex(&self, uppercase: bool) -> (s: String)
        ensures
            s@ == hex_text(*self, uppercase),
    {
        let mut s = String::new();
        push_char(&mut s, '#');
        push_hex_byte(&mut s, self.r, uppercase);
        push_hex_byte(&mut s, self.g, uppercase);
        push_hex_byte(&mut s, self.b, uppercase);
        push_hex_byte(&mut s, self.a, uppercase);
        s
    }

    /// The colour a `0xRRGGBBAA` word packs.
    pub fn from_packed(x: u32) -> (c: Self)
        ensures
            c == unpack(x),
    {
        let r = (x >> 24) as u8;
        let g = (x >> 16) as u8;
        let b = (x >> 8) as u8;
        let a = x as u8;
        assert(r == ((x as nat / 0x1000000) % 256) as u8) by (bit_vector)
            requires r == (x >> 24) as u8;
        assert(g == ((x as nat / 0x10000) % 256) as u8) by (bit_vector)
            requires g == (x >> 16) as u8;
        assert(b == ((x as nat / 0x100) % 256) as u8) by (bit_vector)
            requires b == (x >> 8) as u8;
        assert(a == (x as nat % 256) as u8) by (bit_vector)
            requires a == x as u8;
        Color { r, g, b, a }
    }

    /// Parses `#RRGGBBAA`: one leading `#` is optional, six bytes read as
    /// `RRGGBB` with full alpha, eight bytes as `RRGGBBAA`; every remaining
    /// character must be a hexadecimal digit.
    pub fn parse(x: &str) -> (res: Result<Self, &'static str>)
        ensures
            res == parse_color_spec(x@),
    {
        let all = chars_of(x);
        let k: usize = if all.len() > 0 && all[0] == '#' { 1 } else { 0 };
        let h = slice_from(&all, k);
        assert(h@ =~= strip_hash(x@));
        let n = capped_utf8_len(&h);
        if n != 6 && n != 8 {
            return Err(LENGTH_ERROR);
        }
        let mut i: usize = 0;
        while i < h.len()
            invariant
                i <= h@.len(),
                h@ == strip_hash(x@),
                n == 6 || n == 8,
                n == utf8_len(h@),
                forall|j: int| 0 <= j < i ==> #[trigger] hex_value(h@[j]) is Some,
            decreases h@.len() - i,
        {
            match hex_value_of(h[i]) {
                None => {
                    assert(hex_value(h@[i as int]) is None);
                    assert(!all_hex(h@));
                    return Err(DIGITS_ERROR);
                },
                Some(_) => {},
            }
            i = i + 1;
        }
        proof {
            lemma_hex_is_one_byte(h@);
        }
        let r = byte_of(&h, 0);
        let g = byte_of(&h, 1);
        let b = byte_of(&h, 2);
        let a = if n == 6 { 0xFFu8 } else { byte_of(&h, 3) };
        Ok(Color { r, g, b, a })
    }
}

/// Hexadecimal digits are ASCII: the text is as many bytes as characters.
proof fn lemma_hex_is_one_byte(h: Seq<char>)
    requires
        all_hex(h),
    ensures
        utf8_len(h) == h.len(),
    decreases h.len(),
{
    if h.len() > 0 {
        let p = h.drop_last();
        assert forall|k: int| 0 <= k < p.len() implies #[trigger] hex_value(p[k]) is Some by {
            assert(p[k] == h[k]);
        }
        lemma_hex_is_one_byte(p);
        assert(hex_value(h[h.len() - 1]) is Some);
    }
}

/// The byte the `i`-th pair of hexadecimal digits of `h` spells.
fn byte_of(h: &Vec<char>, i: usize) -> (b: u8)
    requires
        i < 4,
        2 * i + 1 < h@.len(),
        all_hex(h@),
    ensures
        b == byte_pair(h@, i as int),
{
    let hi = hex_value_of(h[2 * i]);
    let lo = hex_value_of(h[2 * i + 1]);
    assert(hex_value(h@[2 * i as int]) is Some);
    assert(hex_value(h@[2 * i + 1]) is Some);
    match (hi, lo) {
        (Some(x), Some(y)) => (x * 16 + y) as u8,
        _ => 0,
    }
}

/// The UTF-8 byte length of `v`, or 9 when it is longer than that.
fn capped_utf8_len(v: &Vec<char>) -> (n: usize)
    ensures
        n == (if utf8_len(v@) > 9 { 9 } else { utf8_len(v@) }),
        n < 9 ==> v@.len() <= n,
{
    let mut n: usize = 0;
    let mut i: usize = 0;
    while i < v.len()
        invariant
            i <= v@.len(),
            n == (if utf8_len(v@.subrange(0, i as int)) > 9 { 9 } else { utf8_len(v@.subrange(0, i as int)) }),
            utf8_len(v@.subrange(0, i as int)) >= i,
        decreases v@.len() - i,
    {
        let c = v[i];
        let code = c as u32;
        let w: usize = if code <= 0x7F { 1 } else if code <= 0x7FF { 2 } else if code <= 0xFFFF { 3 } else { 4 };
        assert(v@.subrange(0, i + 1).drop_last() =~= v@.subrange(0, i as int));
        n = if n + w > 9 { 9 } else { n + w };
        i = i + 1;
    }
    assert(v@.subrange(0, v@.len() as int) =~= v@);
    n
}

/// The `(r, g, b)` bytes that `colorutils_rs::Hsv::new(h, s, v).to_rgb8()` computes.
pub uninterp spec fn colorutils_hsv_rgb8(h: u16, s: u16, v: u16) -> (u8, u8, u8);

/// The `(r, g, b)` bytes that `colorutils_rs::Hsl::new(h, s, l).to_rgb8()` computes.
pub uninterp spec fn colorutils_hsl_rgb8(h: u16, s: u16, l: u16) -> (u8, u8, u8);

/// Calls `colorutils_rs::Hsv::new(h, s, v)` (hue in degrees, saturation and value
/// in percent) and `Hsv::to_rgb8` on the result. The contract names the
/// computed bytes and states one fact the source shows: a value of zero gives
/// black whatever the hue and saturation (`c = v * s` and `m = v - c` are then
/// both zero).
#[verifier::external_body]
fn hsv_rgb8(h: u16, s: u16, v: u16) -> (out: (u8, u8, u8))
    ensures
        out == colorutils_hsv_rgb8(h, s, v),
        v == 0 ==> out == (0u8, 0u8, 0u8),
{
    let rgb = colorutils_rs::Hsv::new(h, s, v).to_rgb8();
    (rgb.r, rgb.g, rgb.b)
}

/// Calls `colorutils_rs::Hsl::new(h, s, l)` (hue in degrees, saturation and
/// lightness in percent) and `Hsl::to_rgb8` on the result. The contract names
/// the computed bytes only.
#[verifier::external_body]
fn hsl_rgb8(h: u16, s: u16, l: u16) -> (out: (u8, u8, u8))
    ensures
        out == colorutils_hsl_rgb8(h, s, l),
{
    let rgb = colorutils_rs::Hsl::new(h, s, l).to_rgb8();
    (rgb.r, rgb.g, rgb.b)
}

impl Color {
    /// An opaque colour from HSV: hue in degrees, saturation and value in percent.
    pub fn from_hsv(h: u16, s: u16, v: u16) -> (c: Self)
        ensures
            c == (Color {
                r: colorutils_hsv_rgb8(h, s, v).0,
                g: colorutils_hsv_rgb8(h, s, v).1,
                b: colorutils_hsv_rgb8(h, s, v).2,
                a: 0xFF,
            }),
            v == 0 ==> c == (Color { r: 0, g: 0, b: 0, a: 0xFF }),
    {
        let (r, g, b) = hsv_rgb8(h, s, v);
        Self::from_rgb(r, g, b)
    }

    /// An opaque colour from HSL: hue in degrees, saturation and lightness in percent.
    pub fn from_hsl(h: u16, s: u16, l: u16) -> (c: Self)
        ensures
            c == (Color {
                r: colorutils_hsl_rgb8(h, s, l).0,
                g: colorutils_hsl_rgb8(h, s, l).1,
                b: colorutils_hsl_rgb8(h, s, l).2,
                a: 0xFF,
            }),
    {
        let (r, g, b) = hsl_rgb8(h, s, l);
        Self::from_rgb(r, g, b)
    }
}

impl<'a> TryFrom<&'a str> for Color {
    type Error = &'static str;

    /// Parses `#RRGGBBAA` (see [`Color::parse`]).
    fn try_from(x: &'a str) -> (res: Result<Self, Self::Error>)
        ensures
            res == parse_color_spec(x@),
    {
        Color::parse(x)
    }
}

impl<'a> vstd::std_specs::convert::TryFromSpecImpl<&'a str> for Color {
    open spec fn obeys_try_from_spec() -> bool {
        true
    }

    open spec fn try_from_spec(v: &'a str) -> Result<Self, Self::Error> {
        parse_color_spec(v@)
    }
}

impl From<u32> for Color {
    /// `0xRRGGBBAA` unpacking (the word [`Color::hex`] spells).
    fn from(x: u32) -> (c: Self)
        ensures
            c == unpack(x),
    {
        Color::from_packed(x)
    }
}

impl vstd::std_specs::convert::FromSpecImpl<u32> for Color {
    open spec fn obeys_from_spec() -> bool {
        true
    }

    open spec fn from_spec(v: u32) -> Self {
        unpack(v)
    }
}

impl From<(u8, u8, u8)> for Color {
    /// An opaque colour from `(r, g, b)`.
    fn from(t: (u8, u8, u8)) -> (c: Self) {
        Color::from_rgb(t.0, t.1, t.2)
    }
}

impl vstd::std_specs::convert::FromSpecImpl<(u8, u8, u8)> for Color {
    open spec fn obeys_from_spec() -> bool {
        true
    }

    open spec fn from_spec(t: (u8, u8, u8)) -> Self {
        Color { r: t.0, g: t.1, b: t.2, a: 255 }
    }
}

impl From<[u8; 3]> for Color {
    /// An opaque colour from `[r, g, b]`.
    fn from(c: [u8; 3]) -> (out: Self) {
        Color::from_rgb(c[0], c[1], c[2])
    }
}

impl vstd::std_specs::convert::FromSpecImpl<[u8; 3]> for Color {
    open spec fn obeys_from_spec() -> bool {
        true
    }

    open spec fn from_spec(c: [u8; 3]) -> Self {
        Color { r: c@[0], g: c@[1], b: c@[2], a: 255 }
    }
}

impl From<(u8, u8, u8, u8)> for Color {
    /// A colour from `(r, g, b, a)`.
    fn from(t: (u8, u8, u8, u8)) -> (c: Self) {
        Color::from_rgba(t.0, t.1, t.2, t.3)
    }
}

impl vstd::std_specs::convert::FromSpecImpl<(u8, u8, u8, u8)> for Color {
    open spec fn obeys_from_spec() -> bool {
        true
    }

    open spec fn from_spec(t: (u8, u8, u8, u8)) -> Self {
        Color { r: t.0, g: t.1, b: t.2, a: t.3 }
    }
}

impl From<[u8; 4]> for Color {
    /// A colour from `[r, g, b, a]`.
    fn from(c: [u8; 4]) -> (out: Self) {
        Color::from_rgba(c[0], c[1], c[2], c[3])
    }
}

impl vstd::std_specs::convert::FromSpecImpl<[u8; 4]> for Color {
    open spec fn obeys_from_spec() -> bool {
        true
    }

    open spec fn from_spec(c: [u8; 4]) -> Self {
        Color { r: c@[0], g: c@[1], b: c@[2], a: c@[3] }
    }
}

impl From<Color> for (u8, u8, u8, u8) {
    /// `(r, g, b, a)`.
    fn from(c: Color) -> (t: Self) {
        (c.r, c.g, c.b, c.a)
    }
}

impl vstd::std_specs::convert::FromSpecImpl<Color> for (u8, u8, u8, u8) {
    open spec fn obeys_from_spec() -> bool {
        true
    }

    open spec fn from_spec(c: Color) -> Self {
        (c.r, c.g, c.b, c.a)
    }
}

impl From<Color> for (u8, u8, u8) {
    /// `(r, g, b)`; the alpha channel is dropped.
    fn from(c: Color) -> (t: Self) {
        (c.r, c.g, c.b)
    }
}

impl vstd::std_specs::convert::FromSpecImpl<Color> for (u8, u8, u8) {
    open spec fn obeys_from_spec() -> bool {
        true
    }

    open spec fn from_spec(c: Color) -> Self {
        (c.r, c.g, c.b)
    }
}

impl From<Color> for [u8; 4] {
    /// `[r, g, b, a]`.
    fn from(c: Color) -> (out: Self) {
        c.as_array()
    }
}

impl vstd::std_specs::convert::FromSpecImpl<Color> for [u8; 4] {
    open spec fn obeys_from_spec() -> bool {
        true
    }

    open spec fn from_spec(c: Color) -> Self {
        [c.r, c.g, c.b, c.a]
    }
}

impl From<Color> for [u8; 3] {
    /// `[r, g, b]`; the alpha channel is dropped.
    fn from(c: Color) -> (out: Self) {
        [c.r, c.g, c.b]
    }
}

impl vstd::std_specs::convert::FromSpecImpl<Color> for [u8; 3] {
    open spec fn obeys_from_spec() -> bool {
        true
    }

    open spec fn from_spec(c: Color) -> Self {
        [c.r, c.g, c.b]
    }
}

/// A hexadecimal digit reads back as the value it was written for.
proof fn lemma_hex_digit_value(d: nat, uppercase: bool)
    requires
        d < 16,
    ensures
        hex_value(hex_digit(d, uppercase)) == Some(d),
{
}

/// Law: unpacking the `0xRRGGBBAA` word of a colour gives the colour back.
pub proof fn law_pack_unpack_roundtrip(c: Color)
    ensures
        pack(c) <= u32::MAX,
        unpack(pack(c) as u32) == c,
{
    let p = pack(c);
    assert(p / 0x1000000 == c.r as nat) by (nonlinear_arith)
        requires p == c.r as nat * 0x1000000 + c.g as nat * 0x10000 + c.b as nat * 0x100 + c.a as nat,
            c.r < 256, c.g < 256, c.b < 256, c.a < 256;
    assert(p / 0x10000 == c.r as nat * 256 + c.g as nat) by (nonlinear_arith)
        requires p == c.r as nat * 0x1000000 + c.g as nat * 0x10000 + c.b as nat * 0x100 + c.a as nat,
            c.r < 256, c.g < 256, c.b < 256, c.a < 256;
    assert(p / 0x100 == c.r as nat * 0x10000 + c.g as nat * 256 + c.b as nat) by (nonlinear_arith)
        requires p == c.r as nat * 0x1000000 + c.g as nat * 0x10000 + c.b as nat * 0x100 + c.a as nat,
            c.r < 256, c.g < 256, c.b < 256, c.a < 256;
    assert((c.r as nat * 256 + c.g as nat) % 256 == c.g as nat) by (nonlinear_arith)
        requires c.g < 256;
    assert((c.r as nat * 0x10000 + c.g as nat * 256 + c.b as nat) % 256 == c.b as nat) by (nonlinear_arith)
        requires c.b < 256;
    assert(p % 256 == c.a as nat) by (nonlinear_arith)
        requires p == c.r as nat * 0x1000000 + c.g as nat * 0x10000 + c.b as nat * 0x100 + c.a as nat,
            c.a < 256;
}

/// The two hexadecimal digits written for a byte read back as that byte.
proof fn lemma_pair_reads_back(h: Seq<char>, i: int, b: u8, uppercase: bool)
    requires
        0 <= i,
        2 * i + 1 < h.len(),
        h[2 * i] == hex_digit((b / 16) as nat, uppercase),
        h[2 * i + 1] == hex_digit((b % 16) as nat, uppercase),
    ensures
        byte_pair(h, i) == b,
{
    lemma_hex_digit_value((b / 16) as nat, uppercase);
    lemma_hex_digit_value((b % 16) as nat, uppercase);
    assert((b / 16) as nat * 16 + (b % 16) as nat == b as nat);
}

/// Law: the `#RRGGBBAA` text of a colour, in either letter case, parses back
/// to the same colour.
pub proof fn law_hex_parse_roundtrip(c: Color, uppercase: bool)
    ensures
        parse_color_spec(hex_text(c, uppercase)) == Ok::<Color, &'static str>(c),
{
    let u = uppercase;
    let t = hex_text(c, u);
    let ds = seq![
        hex_digit((c.r / 16) as nat, u), hex_digit((c.r % 16) as nat, u),
        hex_digit((c.g / 16) as nat, u), hex_digit((c.g % 16) as nat, u),
        hex_digit((c.b / 16) as nat, u), hex_digit((c.b % 16) as nat, u),
        hex_digit((c.a / 16) as nat, u), hex_digit((c.a % 16) as nat, u),
    ];
    assert(t =~= seq!['#'] + ds);
    assert(strip_hash(t) =~= ds);
    lemma_hex_digit_value((c.r / 16) as nat, u);
    lemma_hex_digit_value((c.r % 16) as nat, u);
    lemma_hex_digit_value((c.g / 16) as nat, u);
    lemma_hex_digit_value((c.g % 16) as nat, u);
    lemma_hex_digit_value((c.b / 16) as nat, u);
    lemma_hex_digit_value((c.b % 16) as nat, u);
    lemma_hex_digit_value((c.a / 16) as nat, u);
    lemma_hex_digit_value((c.a % 16) as nat, u);
    assert(all_hex(ds));
    lemma_hex_is_one_byte(ds);
    lemma_pair_reads_back(ds, 0, c.r, u);
    lemma_pair_reads_back(ds, 1, c.g, u);
    lemma_pair_reads_back(ds, 2, c.b, u);
    lemma_pair_reads_back(ds, 3, c.a, u);
}

fn slice_from(v: &Vec<char>, k: usize) -> (out: Vec<char>)
    requires
        k <= v@.len(),
    ensures
        out@ == v@.subrange(k as int, v@.len() as int),
{
    let mut out: Vec<char> = Vec::new();
    let mut i = k;
    while i < v.len()
        invariant
            k <= i <= v@.len(),
            out@ == v@.subrange(k as int, i as int),
        decreases v@.len() - i,
    {
        out.push(v[i]);
        i = i + 1;
    }
    out
}

fn hex_digit_of(d: u8, uppercase: bool) -> (c: char)
    requires
        d < 16,
    ensures
        c == hex_digit(d as nat, uppercase),
{
    if d < 10 {
        if d == 0 { '0' } else if d == 1 { '1' } else if d == 2 { '2' } else if d == 3 { '3' }
        else if d == 4 { '4' } else if d == 5 { '5' } else if d == 6 { '6' } else if d == 7 { '7' }
        else if d == 8 { '8' } else { '9' }
    } else if uppercase {
        if d == 10 { 'A' } else if d == 11 { 'B' } else if d == 12 { 'C' }
        else if d == 13 { 'D' } else if d == 14 { 'E' } else { 'F' }
    } else {
        if d == 10 { 'a' } else if d == 11 { 'b' } else if d == 12 { 'c' }
        else if d == 13 { 'd' } else if d == 14 { 'e' } else { 'f' }
    }
}

fn push_hex_byte(s: &mut String, b: u8, uppercase: bool)
    ensures
        final(s)@ == old(s)@ + hex_byte(b, uppercase),
{
    push_char(s, hex_digit_of(b / 16, uppercase));
    push_char(s, hex_digit_of(b % 16, uppercase));
}

fn hex_value_of(c: char) -> (v: Option<u32>)
    ensures
        match hex_value(c) {
            Some(n) => v == Some(n as u32) && n < 16,
            None => v is None,
        },
{
    if '0' <= c && c <= '9' {
        Some((c as u32) - ('0' as u32))
    } else if 'a' <= c && c <= 'f' {
        Some((c as u32) - ('a' as u32) + 10)
    } else if 'A' <= c && c <= 'F' {
        Some((c as u32) - ('A' as u32) + 10)
    } else {
        None
    }
}

} // verus!
