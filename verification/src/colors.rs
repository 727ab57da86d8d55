//! RGB colours: quantisation to the 256- and 16-colour palettes, brightness
//! and contrast transforms, and linear blending.

use crate::config::{ThemeConfig, ThemeText};
use crate::notification::NotificationType;
use crate::text::{
    chars_of, decimal, hex_digit, hex_pair, hex_value, hex_value_of, push_decimal, push_hex_pair,
    push_text,
};
use vstd::prelude::*;

verus! {

/// One whole, in thousandths: the unit of brightness, phase and luminance.
pub const THOUSAND: u32 = 1000;

/// An RGB colour with 8 bits per channel.
#[derive(Debug, Clone, Copy, PartialEq, Eq, Structural)]
pub struct Color {
    pub r: u8,
    pub g: u8,
    pub b: u8,
}

/// Position of a channel value on the six-step axis of the colour cube:
/// `channel / 255 * 5`, rounded to the nearest step.
pub open spec fn cube_step(channel: int) -> int {
    (10 * channel + 255) / 510
}

/// Code of a grey of the given channel value in the 256-colour palette: the
/// cube's black and white at the two ends, the 24-step grey ramp between.
pub open spec fn grey_code(channel: int) -> int {
    if channel < 8 {
        16
    } else if channel > 248 {
        231
    } else {
        (channel - 8) * 24 / 247 + 232
    }
}

/// A channel multiplied by `numer / denom`, fraction dropped, capped at 255.
pub open spec fn scaled_channel(channel: int, numer: int, denom: int) -> int {
    let v = channel * numer / denom;
    if v > 255 {
        255
    } else {
        v
    }
}

/// The channel at `numer / denom` of the way from `from` to `to`, fraction
/// dropped.
pub open spec fn blended_channel(from: int, to: int, numer: int, denom: int) -> int {
    (from * (denom - numer) + to * numer) / denom
}

/// `s` without its leading `#` characters.
pub open spec fn without_hashes(s: Seq<char>) -> Seq<char>
    decreases s.len(),
{
    if s.len() > 0 && s[0] == '#' {
        without_hashes(s.drop_first())
    } else {
        s
    }
}

/// The byte written by two hexadecimal digits, high digit first.
pub open spec fn hex_byte(high: char, low: char) -> Option<int> {
    match (hex_value(high), hex_value(low)) {
        (Some(h), Some(l)) => Some(16 * h + l),
        _ => None,
    }
}

/// Whether `digits` is a colour in hexadecimal: six hexadecimal digits.
pub open spec fn is_hex_color(digits: Seq<char>) -> bool {
    &&& digits.len() == 6
    &&& forall|i: int| 0 <= i < 6 ==> hex_value(#[trigger] digits[i]) is Some
}

/// The colour that `text` denotes: `RRGGBB` in either case, with or without
/// `#` in front. Any other text denotes black.
pub open spec fn color_of_hex(text: Seq<char>) -> Color {
    let digits = without_hashes(text);
    if is_hex_color(digits) {
        Color {
            r: hex_byte(digits[0], digits[1])->0 as u8,
            g: hex_byte(digits[2], digits[3])->0 as u8,
            b: hex_byte(digits[4], digits[5])->0 as u8,
        }
    } else {
        Color { r: 0, g: 0, b: 0 }
    }
}

impl Color {
    /// This colour as `#rrggbb`, in lower case.
    pub open spec fn hex_text(self) -> Seq<char> {
        seq!['#'] + hex_pair(self.r as int) + hex_pair(self.g as int) + hex_pair(self.b as int)
    }

    /// Luminance weights applied to the channels: 0.299, 0.587 and 0.114, in
    /// thousandths. The result lies between 0 and 255 000.
    pub open spec fn weighted_sum(self) -> int {
        299 * self.r + 587 * self.g + 114 * self.b
    }

    /// The largest of the three channels.
    pub open spec fn max_channel(self) -> int {
        if self.r >= self.g && self.r >= self.b {
            self.r as int
        } else if self.g >= self.b {
            self.g as int
        } else {
            self.b as int
        }
    }

    /// Whether the three channels are equal.
    pub open spec fn is_grey(self) -> bool {
        self.r == self.g && self.g == self.b
    }

    /// Code of this colour in the 256-colour palette.
    pub open spec fn ansi256_code(self) -> int {
        if self.is_grey() {
            grey_code(self.r as int)
        } else {
            16 + 36 * cube_step(self.r as int) + 6 * cube_step(self.g as int) + cube_step(
                self.b as int,
            )
        }
    }

    /// Code of this colour in the 16-colour palette: black below a quarter of
    /// full scale, otherwise one bit per channel above half scale, moved to
    /// the bright range above three quarters.
    pub open spec fn ansi16_code(self) -> int {
        if self.max_channel() < 64 {
            30
        } else {
            30 + (if self.r > 127 { 1int } else { 0 }) + (if self.g > 127 { 2int } else { 0 }) + (
            if self.b > 127 { 4int } else { 0 }) + (if self.max_channel() > 192 { 60int } else { 0 })
        }
    }

    /// Whether the contrast transform lightens this colour (it darkens the
    /// others): luminance above 127 on the 0 to 255 scale.
    pub open spec fn is_bright(self) -> bool {
        self.weighted_sum() > 127_000
    }

    /// This colour with its contrast raised: channels times 1.2, capped, for a
    /// bright colour; channels times 0.9 for the others.
    pub open spec fn contrasted(self) -> Color {
        if self.is_bright() {
            Color {
                r: scaled_channel(self.r as int, 6, 5) as u8,
                g: scaled_channel(self.g as int, 6, 5) as u8,
                b: scaled_channel(self.b as int, 6, 5) as u8,
            }
        } else {
            Color {
                r: scaled_channel(self.r as int, 9, 10) as u8,
                g: scaled_channel(self.g as int, 9, 10) as u8,
                b: scaled_channel(self.b as int, 9, 10) as u8,
            }
        }
    }

    /// This colour with every channel multiplied by `brightness` thousandths
    /// and capped at 255.
    pub open spec fn dimmed(self, brightness: int) -> Color {
        Color {
            r: scaled_channel(self.r as int, brightness, 1000) as u8,
            g: scaled_channel(self.g as int, brightness, 1000) as u8,
            b: scaled_channel(self.b as int, brightness, 1000) as u8,
        }
    }

    /// The colour at `numer / denom` of the way from `self` to `other`. The
    /// factor is held to the range from zero to one. A zero denominator
    /// follows the conventions of floating point: `0 / 0` is no number and
    /// gives black, any other `n / 0` is infinite and gives `other`.
    pub open spec fn blended(self, other: Color, numer: int, denom: int) -> Color {
        if denom == 0 && numer == 0 {
            Color { r: 0, g: 0, b: 0 }
        } else if denom == 0 || numer >= denom {
            other
        } else {
            Color {
                r: blended_channel(self.r as int, other.r as int, numer, denom) as u8,
                g: blended_channel(self.g as int, other.g as int, numer, denom) as u8,
                b: blended_channel(self.b as int, other.b as int, numer, denom) as u8,
            }
        }
    }

    /// A colour from its three channels.
    pub fn new(r: u8, g: u8, b: u8) -> (c: Color)
        ensures
            c == (Color { r, g, b }),
    {
        Color { r, g, b }
    }

    /// Reads a colour written as `#RRGGBB` or `RRGGBB`, in either case. Text
    /// of another length, or with a character that is no hexadecimal digit,
    /// gives black.
    pub fn from_hex(hex: &str) -> (c: Color)
        ensures
            c == color_of_hex(hex@),
    {
        let chars = chars_of(hex);
        let mut start: usize = 0;
        assert(chars@.skip(0) =~= chars@);
        while start < chars.len() && chars[start] == '#'
            invariant
                start <= chars.len(),
                chars@ == hex@,
                without_hashes(hex@) == without_hashes(chars@.skip(start as int)),
            decreases chars.len() - start,
        {
            assert(chars@.skip(start as int).drop_first() =~= chars@.skip(start as int + 1));
            start += 1;
        }
        let ghost digits = chars@.skip(start as int);
        assert(without_hashes(hex@) == digits);
        if chars.len() - start != 6 {
            return Color { r: 0, g: 0, b: 0 };
        }
        let r = byte_of_hex(chars[start], chars[start + 1]);
        let g = byte_of_hex(chars[start + 2], chars[start + 3]);
        let b = byte_of_hex(chars[start + 4], chars[start + 5]);
        match (r, g, b) {
            (Some(r), Some(g), Some(b)) => Color { r, g, b },
            _ => Color { r: 0, g: 0, b: 0 },
        }
    }

    /// Writes the colour as `#rrggbb`, in lower case.
    pub fn to_hex(&self) -> (hex: String)
        ensures
            hex@ == self.hex_text(),
    {
        let mut hex = String::new();
        hex.push('#');
        push_hex_pair(&mut hex, self.r);
        push_hex_pair(&mut hex, self.g);
        push_hex_pair(&mut hex, self.b);
        assert(hex@ =~= self.hex_text());
        hex
    }

    /// Quantises to the 256-colour palette. Greys go to the grey ramp (codes
    /// 232 to 255) with the cube's black (16) and white (231) as end anchors;
    /// every other colour goes to the nearest cell of the 6x6x6 cube.
    pub fn to_ansi256(&self) -> (code: u8)
        ensures
            code == self.ansi256_code(),
            16 <= code,
            !self.is_grey() ==> code <= 231,
    {
        if self.r == self.g && self.g == self.b {
            if self.r < 8 {
                return 16;
            }
            if self.r > 248 {
                return 231;
            }
            let ramp: u32 = (self.r as u32 - 8) * 24 / 247;
            return (ramp + 232) as u8;
        }
        let r: u32 = cube_step_of(self.r);
        let g: u32 = cube_step_of(self.g);
        let b: u32 = cube_step_of(self.b);
        (16 + 36 * r + 6 * g + b) as u8
    }

    /// Quantises to the 16-colour palette, as a foreground code: 30 to 37, or
    /// 90 to 97 for the bright variants.
    pub fn to_ansi16(&self) -> (code: u8)
        ensures
            code == self.ansi16_code(),
            30 <= code <= 37 || 90 <= code <= 97,
    {
        let value: u8 = self.brightest_channel();
        if value < 64 {
            return 30;
        }
        let mut code: u8 = 30;
        if self.r > 127 {
            code += 1;
        }
        if self.g > 127 {
            code += 2;
        }
        if self.b > 127 {
            code += 4;
        }
        if value > 192 {
            code += 60;
        }
        code
    }

    /// The largest of the three channels.
    pub fn brightest_channel(&self) -> (value: u8)
        ensures
            value == self.max_channel(),
    {
        let mut value: u8 = self.r;
        if self.g > value {
            value = self.g;
        }
        if self.b > value {
            value = self.b;
        }
        value
    }

    /// Blends towards `other` by the factor `numer / denom`, held to the range
    /// from zero to one. Each channel moves linearly and drops its fraction.
    pub fn interpolate(&self, other: &Color, numer: u64, denom: u64) -> (c: Color)
        ensures
            c == self.blended(*other, numer as int, denom as int),
    {
        if denom == 0 && numer == 0 {
            return Color { r: 0, g: 0, b: 0 };
        }
        if denom == 0 || numer >= denom {
            return *other;
        }
        Color {
            r: blend_channel(self.r, other.r, numer, denom),
            g: blend_channel(self.g, other.g, numer, denom),
            b: blend_channel(self.b, other.b, numer, denom),
        }
    }

    /// Multiplies every channel by `brightness`, given in thousandths, and
    /// caps it at 255. Values above one thousand brighten the colour.
    pub fn apply_brightness(&self, brightness: u32) -> (c: Color)
        ensures
            c == self.dimmed(brightness as int),
    {
        Color {
            r: scale_channel(self.r, brightness, 1000),
            g: scale_channel(self.g, brightness, 1000),
            b: scale_channel(self.b, brightness, 1000),
        }
    }

    /// Raises the contrast: a colour of luminance above 127 is pushed towards
    /// white (channels times 1.2, capped at 255), any other towards black
    /// (channels times 0.9).
    pub fn increase_contrast(&self) -> (c: Color)
        ensures
            c == self.contrasted(),
    {
        if self.luminance_sum() > 127_000 {
            Color {
                r: scale_channel(self.r, 6, 5),
                g: scale_channel(self.g, 6, 5),
                b: scale_channel(self.b, 6, 5),
            }
        } else {
            Color {
                r: scale_channel(self.r, 9, 10),
                g: scale_channel(self.g, 9, 10),
                b: scale_channel(self.b, 9, 10),
            }
        }
    }

    /// The channels weighted by 299, 587 and 114: luminance on a scale from 0
    /// to 255 000.
    pub fn luminance_sum(&self) -> (sum: u32)
        ensures
            sum == self.weighted_sum(),
            sum <= 255_000,
    {
        299 * (self.r as u32) + 587 * (self.g as u32) + 114 * (self.b as u32)
    }

    /// Luminance in thousandths of full scale, fraction dropped.
    pub fn luminance(&self) -> (l: u32)
        ensures
            l == self.weighted_sum() / 255,
            l <= 1000,
    {
        self.luminance_sum() / 255
    }

    /// Whether the luminance is above one half of full scale.
    pub fn is_light(&self) -> (light: bool)
        ensures
            light == (2 * self.weighted_sum() > 255_000),
    {
        2 * self.luminance_sum() > 255_000
    }
}

impl Default for Color {
    /// Black.
    fn default() -> (c: Color)
        ensures
            c == (Color { r: 0, g: 0, b: 0 }),
    {
        Color { r: 0, g: 0, b: 0 }
    }
}

fn byte_of_hex(high: char, low: char) -> (byte: Option<u8>)
    ensures
        match byte {
            Some(v) => hex_byte(high, low) == Some(v as int),
            None => hex_byte(high, low) is None,
        },
{
    match (hex_value_of(high), hex_value_of(low)) {
        (Some(h), Some(l)) => Some(16 * h + l),
        _ => None,
    }
}

/// Writing a colour in hexadecimal and reading it back gives the colour.
pub proof fn lemma_hex_round_trip(c: Color)
    ensures
        color_of_hex(c.hex_text()) == c,
{
    let text = c.hex_text();
    lemma_hex_pair_reads_back(c.r as int);
    lemma_hex_pair_reads_back(c.g as int);
    lemma_hex_pair_reads_back(c.b as int);
    let digits = hex_pair(c.r as int) + hex_pair(c.g as int) + hex_pair(c.b as int);
    assert(text.drop_first() =~= digits);
    assert(digits[0] != '#');
    assert(without_hashes(digits) == digits);
    assert(without_hashes(text) == digits);
    assert(is_hex_color(digits));
}

/// The two digits written for a byte are hexadecimal digits, none of them
/// `#`, and read back as the byte.
pub proof fn lemma_hex_pair_reads_back(byte: int)
    requires
        0 <= byte < 256,
    ensures
        hex_pair(byte).len() == 2,
        hex_byte(hex_pair(byte)[0], hex_pair(byte)[1]) == Some(byte),
        hex_value(hex_pair(byte)[0]) is Some,
        hex_value(hex_pair(byte)[1]) is Some,
        hex_pair(byte)[0] != '#',
{
    lemma_hex_digit_reads_back(byte / 16);
    lemma_hex_digit_reads_back(byte % 16);
}

proof fn lemma_hex_digit_reads_back(v: int)
    requires
        0 <= v < 16,
    ensures
        hex_value(hex_digit(v)) == Some(v),
        hex_digit(v) != '#',
{
}

fn cube_step_of(channel: u8) -> (step: u32)
    ensures
        step == cube_step(channel as int),
        step <= 5,
{
    (10 * (channel as u32) + 255) / 510
}

fn scale_channel(channel: u8, numer: u32, denom: u32) -> (v: u8)
    requires
        denom > 0,
    ensures
        v == scaled_channel(channel as int, numer as int, denom as int),
{
    assert(channel * numer <= 255 * 0xffff_ffff) by (nonlinear_arith)
        requires
            channel <= 255,
            numer <= 0xffff_ffff,
    ;
    let product: u64 = (channel as u64) * (numer as u64);
    let v: u64 = product / (denom as u64);
    if v > 255 {
        255
    } else {
        v as u8
    }
}

fn blend_channel(from: u8, to: u8, numer: u64, denom: u64) -> (v: u8)
    requires
        numer < denom,
    ensures
        v == blended_channel(from as int, to as int, numer as int, denom as int),
{
    let rest: u128 = (denom - numer) as u128;
    assert(from * rest <= 255 * rest && to * numer <= 255 * numer) by (nonlinear_arith)
        requires
            from <= 255,
            to <= 255,
    ;
    let total: u128 = (from as u128) * rest + (to as u128) * (numer as u128);
    let v: u128 = total / (denom as u128);
    assert(v <= 255) by (nonlinear_arith)
        requires
            v == total / (denom as u128),
            total <= 255 * denom,
            denom > 0,
    ;
    v as u8
}

/// A gradient of `steps` colours from `start` to `end`, both included: colour
/// `i` lies at `i / (steps - 1)` of the way.
pub fn generate_gradient(start: &Color, end: &Color, steps: usize) -> (gradient: Vec<Color>)
    ensures
        gradient@.len() == steps,
        forall|i: int|
            0 <= i < steps ==> #[trigger] gradient@[i] == start.blended(*end, i, steps - 1),
{
    let mut gradient: Vec<Color> = Vec::new();
    let mut i: usize = 0;
    while i < steps
        invariant
            i <= steps,
            gradient@.len() == i,
            forall|j: int| 0 <= j < i ==> #[trigger] gradient@[j] == start.blended(*end, j, steps - 1),
        decreases steps - i,
    {
        gradient.push(start.interpolate(end, i as u64, (steps - 1) as u64));
        i += 1;
    }
    gradient
}

/// Colour `i` of a pulse gradient of `steps` colours: the first half rises
/// from `base` towards `bright`, the second half returns from `bright`
/// towards `base`.
pub open spec fn pulse_color(base: Color, bright: Color, steps: int, i: int) -> Color {
    let half = steps / 2;
    if i < half {
        base.blended(bright, i, half)
    } else {
        bright.blended(base, i - half, steps - half)
    }
}

/// A gradient of `steps` colours that rises from `base` to `bright` and
/// returns.
pub fn generate_pulse_gradient(base: &Color, bright: &Color, steps: usize) -> (gradient: Vec<Color>)
    ensures
        gradient@.len() == steps,
        forall|i: int|
            0 <= i < steps ==> #[trigger] gradient@[i] == pulse_color(*base, *bright, steps as int, i),
{
    let half_steps: usize = steps / 2;
    let mut gradient: Vec<Color> = Vec::new();
    let mut i: usize = 0;
    while i < half_steps
        invariant
            i <= half_steps,
            half_steps == steps / 2,
            gradient@.len() == i,
            forall|j: int|
                0 <= j < i ==> #[trigger] gradient@[j] == pulse_color(*base, *bright, steps as int, j),
        decreases half_steps - i,
    {
        gradient.push(base.interpolate(bright, i as u64, half_steps as u64));
        i += 1;
    }
    let rest: usize = steps - half_steps;
    let mut k: usize = 0;
    while k < rest
        invariant
            k <= rest,
            half_steps == steps / 2,
            rest == steps - half_steps,
            gradient@.len() == half_steps + k,
            forall|j: int|
                0 <= j < half_steps + k ==> #[trigger] gradient@[j] == pulse_color(
                    *base,
                    *bright,
                    steps as int,
                    j,
                ),
        decreases rest - k,
    {
        gradient.push(bright.interpolate(base, k as u64, rest as u64));
        k += 1;
    }
    gradient
}

/// Scaling and blending keep a channel within the range from 0 to 255, so
/// that the channels of a dimmed or blended colour are the scaled or blended
/// channels themselves.
pub proof fn lemma_channels_in_range(from: u8, to: u8, numer: int, denom: int)
    requires
        0 <= numer,
        0 < denom,
    ensures
        0 <= scaled_channel(from as int, numer, denom) <= 255,
        numer < denom ==> 0 <= blended_channel(from as int, to as int, numer, denom) <= 255,
{
    assert(0 <= from * numer / denom) by (nonlinear_arith)
        requires
            0 <= from,
            0 <= numer,
            0 < denom,
    ;
    if numer < denom {
        let mixed = from * (denom - numer) + to * numer;
        assert(0 <= mixed <= 255 * denom) by (nonlinear_arith)
            requires
                mixed == from * (denom - numer) + to * numer,
                0 <= from <= 255,
                0 <= to <= 255,
                0 <= numer < denom,
        ;
        assert(0 <= mixed / denom <= 255) by (nonlinear_arith)
            requires
                0 <= mixed <= 255 * denom,
                0 < denom,
        ;
    }
}

/// Raising the contrast never takes a channel out of the range from 0 to
/// 255: each channel of the result is the scaled channel itself, capped.
pub proof fn lemma_contrast_in_range(c: Color)
    ensures
        0 <= scaled_channel(c.r as int, 6, 5) <= 255,
        0 <= scaled_channel(c.g as int, 6, 5) <= 255,
        0 <= scaled_channel(c.b as int, 6, 5) <= 255,
        0 <= scaled_channel(c.r as int, 9, 10) <= 255,
        0 <= scaled_channel(c.g as int, 9, 10) <= 255,
        0 <= scaled_channel(c.b as int, 9, 10) <= 255,
        c.is_bright() ==> c.contrasted().r == scaled_channel(c.r as int, 6, 5)
            && c.contrasted().g == scaled_channel(c.g as int, 6, 5) && c.contrasted().b
            == scaled_channel(c.b as int, 6, 5),
        !c.is_bright() ==> c.contrasted().r == scaled_channel(c.r as int, 9, 10)
            && c.contrasted().g == scaled_channel(c.g as int, 9, 10) && c.contrasted().b
            == scaled_channel(c.b as int, 9, 10),
        c.is_bright() ==> c.contrasted().r >= c.r && c.contrasted().g >= c.g && c.contrasted().b
            >= c.b,
        !c.is_bright() ==> c.contrasted().r <= c.r && c.contrasted().g <= c.g && c.contrasted().b
            <= c.b,
{
}

/// How many colours the terminal can show.
#[derive(Debug, Clone, Copy, PartialEq, Eq, Structural)]
pub enum ColorCapability {
    /// 24-bit colour.
    TrueColor,
    /// The 256-colour palette.
    Color256,
    /// The 16 basic colours.
    Color16,
}

/// The colour `hex` as a terminal of the given capability is told it: the
/// text itself for true colour, the palette code in decimal for the others.
/// With high contrast the colour first has its contrast raised, and is
/// written anew for true colour.
pub open spec fn adapted(hex: Seq<char>, capability: ColorCapability, high_contrast: bool) -> Seq<
    char,
> {
    let color = if high_contrast {
        color_of_hex(hex).contrasted()
    } else {
        color_of_hex(hex)
    };
    match capability {
        ColorCapability::TrueColor => if high_contrast {
            color.hex_text()
        } else {
            hex
        },
        ColorCapability::Color256 => decimal(color.ansi256_code() as nat),
        ColorCapability::Color16 => decimal(color.ansi16_code() as nat),
    }
}

/// The escape sequence that selects the colour `hex`, as foreground or as
/// background, on a terminal of the given capability.
pub open spec fn escape_text(hex: Seq<char>, capability: ColorCapability, background: bool) -> Seq<
    char,
> {
    let color = color_of_hex(hex);
    match capability {
        ColorCapability::TrueColor => (if background {
            "\x1b[48;2;"@
        } else {
            "\x1b[38;2;"@
        }) + decimal(color.r as nat) + ";"@ + decimal(color.g as nat) + ";"@ + decimal(
            color.b as nat,
        ) + "m"@,
        ColorCapability::Color256 => (if background {
            "\x1b[48;5;"@
        } else {
            "\x1b[38;5;"@
        }) + decimal(color.ansi256_code() as nat) + "m"@,
        ColorCapability::Color16 => "\x1b["@ + decimal(
            (color.ansi16_code() + if background { 10int } else { 0 }) as nat,
        ) + "m"@,
    }
}

/// The colour `hex` at the given brightness in thousandths, in hexadecimal.
pub open spec fn dimmed_hex(hex: Seq<char>, brightness: int) -> Seq<char> {
    color_of_hex(hex).dimmed(brightness).hex_text()
}

/// The theme colour that stands for a kind of notification.
pub open spec fn kind_color(theme: ThemeText, kind: NotificationType) -> Seq<char> {
    match kind {
        NotificationType::Success => theme.success_color,
        NotificationType::Error => theme.error_color,
        NotificationType::Warning => theme.warning_color,
        NotificationType::Info => theme.info_color,
        NotificationType::Progress => theme.highlight_color,
        NotificationType::Attention => theme.warning_color,
    }
}

/// Adapts the colours of a theme to the terminal.
#[derive(Debug, Clone)]
pub struct ColorManager {
    theme: ThemeConfig,
    color_capability: ColorCapability,
    high_contrast: bool,
}

impl ColorManager {
    /// The theme in use.
    pub closed spec fn theme(&self) -> ThemeText {
        self.theme@
    }

    /// The capability assumed of the terminal.
    pub closed spec fn capability(&self) -> ColorCapability {
        self.color_capability
    }

    /// Whether contrast is raised.
    pub closed spec fn high_contrast(&self) -> bool {
        self.high_contrast
    }

    /// The colour `hex` as this manager hands it out.
    pub open spec fn adapt(&self, hex: Seq<char>) -> Seq<char> {
        adapted(hex, self.capability(), self.high_contrast())
    }

    /// The colour of a kind of notification as this manager hands it out.
    pub open spec fn notification_color(&self, kind: NotificationType) -> Seq<char> {
        self.adapt(kind_color(self.theme(), kind))
    }

    /// A manager for the theme, for a true-colour terminal and without high
    /// contrast.
    pub fn new(theme: &ThemeConfig) -> (manager: ColorManager)
        ensures
            manager.theme() == theme@,
            manager.capability() == ColorCapability::TrueColor,
            !manager.high_contrast(),
    {
        ColorManager {
            theme: theme.clone(),
            color_capability: ColorManager::detect_capability(),
            high_contrast: false,
        }
    }

    /// The capability assumed where none is set: true colour.
    pub fn detect_capability() -> (capability: ColorCapability)
        ensures
            capability == ColorCapability::TrueColor,
    {
        ColorCapability::TrueColor
    }

    /// Sets the capability of the terminal.
    pub fn set_capability(&mut self, capability: ColorCapability)
        ensures
            final(self).capability() == capability,
            final(self).theme() == old(self).theme(),
            final(self).high_contrast() == old(self).high_contrast(),
    {
        self.color_capability = capability;
    }

    /// Switches high contrast on or off.
    pub fn set_high_contrast(&mut self, enabled: bool)
        ensures
            final(self).high_contrast() == enabled,
            final(self).theme() == old(self).theme(),
            final(self).capability() == old(self).capability(),
    {
        self.high_contrast = enabled;
    }

    /// The colour of a kind of notification, adapted to the terminal. Every
    /// kind has one.
    pub fn get_notification_color(&self, notification_type: &NotificationType) -> (color: Option<
        String,
    >)
        ensures
            color matches Some(c) && c@ == self.notification_color(*notification_type),
    {
        let base_color = match notification_type {
            NotificationType::Success => &self.theme.success_color,
            NotificationType::Error => &self.theme.error_color,
            NotificationType::Warning => &self.theme.warning_color,
            NotificationType::Info => &self.theme.info_color,
            NotificationType::Progress => &self.theme.highlight_color,
            NotificationType::Attention => &self.theme.warning_color,
        };
        Some(self.adjust_for_capability(base_color.as_str()))
    }

    /// The background colour, adapted to the terminal.
    pub fn get_background_color(&self) -> (color: String)
        ensures
            color@ == self.adapt(self.theme().background_color),
    {
        self.adjust_for_capability(self.theme.background_color.as_str())
    }

    /// The colour of text, adapted to the terminal.
    pub fn get_foreground_color(&self) -> (color: String)
        ensures
            color@ == self.adapt(self.theme().foreground_color),
    {
        self.adjust_for_capability(self.theme.foreground_color.as_str())
    }

    /// The colour of muted text, adapted to the terminal.
    pub fn get_dimmed_color(&self) -> (color: String)
        ensures
            color@ == self.adapt(self.theme().dimmed_color),
    {
        self.adjust_for_capability(self.theme.dimmed_color.as_str())
    }

    /// Adapts a colour to the terminal: with high contrast its contrast is
    /// raised first; then it is quantised to the terminal's palette. For true
    /// colour that changes nothing, and without high contrast the text itself
    /// is handed back.
    pub fn adjust_for_capability(&self, hex_color: &str) -> (color: String)
        ensures
            color@ == self.adapt(hex_color@),
    {
        let color = Color::from_hex(hex_color);
        let color = if self.high_contrast {
            color.increase_contrast()
        } else {
            color
        };
        match self.color_capability {
            ColorCapability::TrueColor => {
                if self.high_contrast {
                    color.to_hex()
                } else {
                    hex_color.to_string()
                }
            },
            ColorCapability::Color256 => crate::text::decimal_string(color.to_ansi256() as u128),
            ColorCapability::Color16 => crate::text::decimal_string(color.to_ansi16() as u128),
        }
    }

    /// The colour at `numer / denom` of the way between two colours, in
    /// hexadecimal.
    pub fn interpolate(&self, color1: &str, color2: &str, numer: u64, denom: u64) -> (color: String)
        ensures
            color@ == color_of_hex(color1@).blended(
                color_of_hex(color2@),
                numer as int,
                denom as int,
            ).hex_text(),
    {
        let c1 = Color::from_hex(color1);
        let c2 = Color::from_hex(color2);
        c1.interpolate(&c2, numer, denom).to_hex()
    }

    /// A colour at the given brightness, in thousandths, in hexadecimal.
    pub fn apply_brightness(&self, hex_color: &str, brightness: u32) -> (color: String)
        ensures
            color@ == dimmed_hex(hex_color@, brightness as int),
    {
        Color::from_hex(hex_color).apply_brightness(brightness).to_hex()
    }

    /// The escape sequence that sets the foreground to a colour.
    pub fn fg_escape(&self, hex_color: &str) -> (escape: String)
        ensures
            escape@ == escape_text(hex_color@, self.capability(), false),
    {
        self.escape(hex_color, false)
    }

    /// The escape sequence that sets the background to a colour.
    pub fn bg_escape(&self, hex_color: &str) -> (escape: String)
        ensures
            escape@ == escape_text(hex_color@, self.capability(), true),
    {
        self.escape(hex_color, true)
    }

    fn escape(&self, hex_color: &str, background: bool) -> (escape: String)
        ensures
            escape@ == escape_text(hex_color@, self.capability(), background),
    {
        let color = Color::from_hex(hex_color);
        let mut escape = String::new();
        match self.color_capability {
            ColorCapability::TrueColor => {
                push_text(&mut escape, if background { "\x1b[48;2;" } else { "\x1b[38;2;" });
                push_decimal(&mut escape, color.r as u128);
                push_text(&mut escape, ";");
                push_decimal(&mut escape, color.g as u128);
                push_text(&mut escape, ";");
                push_decimal(&mut escape, color.b as u128);
                push_text(&mut escape, "m");
            },
            ColorCapability::Color256 => {
                push_text(&mut escape, if background { "\x1b[48;5;" } else { "\x1b[38;5;" });
                push_decimal(&mut escape, color.to_ansi256() as u128);
                push_text(&mut escape, "m");
            },
            ColorCapability::Color16 => {
                let code: u8 = if background {
                    color.to_ansi16() + 10
                } else {
                    color.to_ansi16()
                };
                push_text(&mut escape, "\x1b[");
                push_decimal(&mut escape, code as u128);
                push_text(&mut escape, "m");
            },
        }
        assert(escape@ =~= escape_text(hex_color@, self.capability(), background));
        escape
    }

    /// The escape sequence that resets all attributes.
    pub fn reset_escape(&self) -> (escape: &'static str)
        ensures
            escape@ == "\x1b[0m"@,
    {
        "\x1b[0m"
    }
}

impl Default for ColorManager {
    fn default() -> (manager: ColorManager)
        ensures
            manager.theme() == crate::config::default_theme(),
            manager.capability() == ColorCapability::TrueColor,
            !manager.high_contrast(),
    {
        ColorManager {
            theme: ThemeConfig::default(),
            color_capability: ColorCapability::TrueColor,
            high_contrast: false,
        }
    }
}

} // verus!
