//! Colours with red, green, blue and alpha channels.

use vstd::prelude::*;
use vstd::std_specs::ops::AddSpecImpl;
use vstd::std_specs::ops::DivSpecImpl;
use vstd::std_specs::ops::MulSpecImpl;
use vstd::std_specs::ops::SubSpecImpl;
use vstd::string::StringExecFns;
use vstd::string::StringSliceAdditionalSpecFns;
use crate::types::decimal::append_decimal;
use crate::types::decimal::decimal;

verus! {

/// A colour: red, green, blue and alpha, each meant to lie in 0..=255.
#[derive(Clone, Copy, Debug, PartialEq, Eq, Structural)]
pub struct Color32 {
    pub r: u32,
    pub g: u32,
    pub b: u32,
    pub a: u32,
}

/// Whether `v` can be held in a `u32`.
pub open spec fn fits_u32(v: int) -> bool {
    0 <= v <= u32::MAX
}

/// The largest value of a channel.
pub const CHANNEL_MAX: u32 = 255;

/// `v`, or the largest value of a channel if `v` is above it.
pub open spec fn clamped(v: u32) -> u32 {
    if v > CHANNEL_MAX {
        CHANNEL_MAX
    } else {
        v
    }
}

/// The value of the hexadecimal digit with code `byte`, if it is one.
pub open spec fn digit_value(byte: u8) -> Option<int> {
    if 0x30 <= byte <= 0x39 {
        Some(byte - 0x30)
    } else if 0x61 <= byte <= 0x66 {
        Some(byte - 0x61 + 10)
    } else if 0x41 <= byte <= 0x46 {
        Some(byte - 0x41 + 10)
    } else {
        None
    }
}

/// The number that two characters spell in base sixteen, if they spell
/// one: two digits, or a plus sign and one digit.
pub open spec fn pair_value(first: u8, second: u8) -> Option<int> {
    match (digit_value(first), digit_value(second)) {
        (Some(high), Some(low)) => Some(16 * high + low),
        (None, Some(low)) => if first == 0x2b {
            Some(low)
        } else {
            None
        },
        _ => None,
    }
}

/// Whether `bytes` spells a colour: six bytes that are three numbers in
/// base sixteen.
pub open spec fn spells_color(bytes: Seq<u8>) -> bool {
    &&& bytes.len() == 6
    &&& pair_value(bytes[0], bytes[1]) is Some
    &&& pair_value(bytes[2], bytes[3]) is Some
    &&& pair_value(bytes[4], bytes[5]) is Some
}

/// The colour that `bytes` spells: opaque, with the three numbers as red,
/// green and blue. Text of another length than six bytes stands for black.
pub open spec fn color_of(bytes: Seq<u8>) -> Color32 {
    if bytes.len() != 6 {
        Color32 { r: 0, g: 0, b: 0, a: 255 }
    } else {
        Color32 {
            r: pair_value(bytes[0], bytes[1]).unwrap() as u32,
            g: pair_value(bytes[2], bytes[3]).unwrap() as u32,
            b: pair_value(bytes[4], bytes[5]).unwrap() as u32,
            a: 255,
        }
    }
}

/// The value of the hexadecimal digit with code `byte`, if it is one.
fn digit(byte: u8) -> (value: Option<u32>)
    ensures
        value is Some <==> digit_value(byte) is Some,
        value matches Some(v) ==> digit_value(byte) == Some(v as int) && v < 16,
{
    if 0x30 <= byte && byte <= 0x39 {
        Some((byte - 0x30) as u32)
    } else if 0x61 <= byte && byte <= 0x66 {
        Some((byte - 0x61 + 10) as u32)
    } else if 0x41 <= byte && byte <= 0x46 {
        Some((byte - 0x41 + 10) as u32)
    } else {
        None
    }
}

/// Whether two characters spell a number in base sixteen.
fn spells_pair(first: u8, second: u8) -> (ok: bool)
    ensures
        ok == pair_value(first, second) is Some,
{
    match (digit(first), digit(second)) {
        (Some(_), Some(_)) => true,
        (None, Some(_)) => first == 0x2b,
        _ => false,
    }
}

/// The number that two characters spell in base sixteen.
fn pair(first: u8, second: u8) -> (value: u32)
    requires
        pair_value(first, second) is Some,
    ensures
        pair_value(first, second) == Some(value as int),
        value <= CHANNEL_MAX,
{
    let low = digit(second);
    match (digit(first), low) {
        (Some(high), Some(low)) => 16 * high + low,
        (None, Some(low)) => low,
        _ => 0,
    }
}

impl Color32 {
    /// The colour written out: the four channels in decimal, in round
    /// brackets with a comma and a blank between them.
    pub open spec fn spec_text(self) -> Seq<char> {
        seq!['('] + decimal(self.r as nat) + seq![',', ' '] + decimal(self.g as nat) + seq![
            ',',
            ' ',
        ] + decimal(self.b as nat) + seq![',', ' '] + decimal(self.a as nat) + seq![')']
    }

    /// The colour written out, as in `(255, 128, 0, 255)`.
    pub fn to_text(&self) -> (text: String)
        ensures
            text@ == self.spec_text(),
    {
        proof {
            reveal_strlit("(");
            reveal_strlit(", ");
            reveal_strlit(")");
        }
        let mut text = String::new();
        text.append("(");
        append_decimal(&mut text, self.r as u64);
        text.append(", ");
        append_decimal(&mut text, self.g as u64);
        text.append(", ");
        append_decimal(&mut text, self.b as u64);
        text.append(", ");
        append_decimal(&mut text, self.a as u64);
        text.append(")");
        assert(text@ =~= self.spec_text());
        text
    }

    /// Opaque black.
    pub fn new() -> (color: Color32)
        ensures
            color == (Color32 { r: 0, g: 0, b: 0, a: 255 }),
    {
        Color32 { r: 0, g: 0, b: 0, a: 255 }
    }

    /// Whether `hex` spells a colour: six bytes that are three numbers in
    /// base sixteen, each two digits or a plus sign and one digit.
    pub fn spells_hex(hex: &str) -> (ok: bool)
        ensures
            ok == spells_color(hex.spec_bytes()),
    {
        let bytes = hex.as_bytes();
        bytes.len() == 6 && spells_pair(bytes[0], bytes[1]) && spells_pair(bytes[2], bytes[3])
            && spells_pair(bytes[4], bytes[5])
    }

    /// Reads a colour written as six characters, two for each of red,
    /// green and blue in base sixteen. Text of another length than six
    /// bytes gives black.
    pub fn from_hex(hex: &str) -> (color: Color32)
        requires
            hex.spec_bytes().len() == 6 ==> spells_color(hex.spec_bytes()),
        ensures
            color == color_of(hex.spec_bytes()),
    {
        let bytes = hex.as_bytes();
        if bytes.len() != 6 {
            Color32 { r: 0, g: 0, b: 0, a: 255 }
        } else {
            let r = pair(bytes[0], bytes[1]);
            let g = pair(bytes[2], bytes[3]);
            let b = pair(bytes[4], bytes[5]);
            Color32 { r, g, b, a: 255 }
        }
    }

    /// Opaque red.
    pub fn red() -> (color: Color32)
        ensures
            color == (Color32 { r: 255, g: 0, b: 0, a: 255 }),
    {
        Color32 { r: 255, g: 0, b: 0, a: 255 }
    }

    /// Opaque green.
    pub fn green() -> (color: Color32)
        ensures
            color == (Color32 { r: 0, g: 255, b: 0, a: 255 }),
    {
        Color32 { r: 0, g: 255, b: 0, a: 255 }
    }

    /// Opaque blue.
    pub fn blue() -> (color: Color32)
        ensures
            color == (Color32 { r: 0, g: 0, b: 255, a: 255 }),
    {
        Color32 { r: 0, g: 0, b: 255, a: 255 }
    }

    /// Opaque yellow.
    pub fn yellow() -> (color: Color32)
        ensures
            color == (Color32 { r: 255, g: 255, b: 0, a: 255 }),
    {
        Color32 { r: 255, g: 255, b: 0, a: 255 }
    }

    /// Opaque pink.
    pub fn pink() -> (color: Color32)
        ensures
            color == (Color32 { r: 255, g: 0, b: 255, a: 255 }),
    {
        Color32 { r: 255, g: 0, b: 255, a: 255 }
    }

    /// Opaque teal.
    pub fn teal() -> (color: Color32)
        ensures
            color == (Color32 { r: 0, g: 255, b: 255, a: 255 }),
    {
        Color32 { r: 0, g: 255, b: 255, a: 255 }
    }

    /// Opaque black.
    pub fn black() -> (color: Color32)
        ensures
            color == (Color32 { r: 0, g: 0, b: 0, a: 255 }),
    {
        Color32 { r: 0, g: 0, b: 0, a: 255 }
    }

    /// Opaque white.
    pub fn white() -> (color: Color32)
        ensures
            color == (Color32 { r: 255, g: 255, b: 255, a: 255 }),
    {
        Color32 { r: 255, g: 255, b: 255, a: 255 }
    }

    /// Black with no opacity at all.
    pub fn transparent() -> (color: Color32)
        ensures
            color == (Color32 { r: 0, g: 0, b: 0, a: 0 }),
    {
        Color32 { r: 0, g: 0, b: 0, a: 0 }
    }

    /// The four channels, each divided by the largest value of a channel
    /// and rounded down: red, green, blue, alpha.
    pub fn unit_channels(&self) -> (channels: (u32, u32, u32, u32))
        ensures
            channels.0 == self.r / CHANNEL_MAX,
            channels.1 == self.g / CHANNEL_MAX,
            channels.2 == self.b / CHANNEL_MAX,
            channels.3 == self.a / CHANNEL_MAX,
    {
        (
            self.r / CHANNEL_MAX,
            self.g / CHANNEL_MAX,
            self.b / CHANNEL_MAX,
            self.a / CHANNEL_MAX,
        )
    }

    /// The colour with every channel brought down to at most 255. The
    /// colour itself is left as it was.
    pub fn normalized(&mut self) -> (color: Color32)
        ensures
            *final(self) == *old(self),
            color == (Color32 {
                r: clamped(old(self).r),
                g: clamped(old(self).g),
                b: clamped(old(self).b),
                a: clamped(old(self).a),
            }),
    {
        Color32 {
            r: if self.r > 255 { 255 } else { self.r },
            g: if self.g > 255 { 255 } else { self.g },
            b: if self.b > 255 { 255 } else { self.b },
            a: if self.a > 255 { 255 } else { self.a },
        }
    }
}

impl core::ops::Add<Color32> for Color32 {
    type Output = Color32;

    /// Adds `rhs`, channel by channel.
    fn add(self, rhs: Color32) -> (out: Color32) {
        Color32 { r: self.r + rhs.r, g: self.g + rhs.g, b: self.b + rhs.b, a: self.a + rhs.a }
    }
}

impl AddSpecImpl<Color32> for Color32 {
    open spec fn obeys_add_spec() -> bool {
        true
    }

    open spec fn add_req(self, rhs: Color32) -> bool {
        fits_u32(self.r + rhs.r)
            && fits_u32(self.g + rhs.g)
            && fits_u32(self.b + rhs.b)
            && fits_u32(self.a + rhs.a)
    }

    open spec fn add_spec(self, rhs: Color32) -> Color32 {
        Color32 {
            r: (self.r + rhs.r) as u32,
            g: (self.g + rhs.g) as u32,
            b: (self.b + rhs.b) as u32,
            a: (self.a + rhs.a) as u32,
        }
    }
}

impl core::ops::Sub<Color32> for Color32 {
    type Output = Color32;

    /// Subtracts `rhs`, channel by channel.
    fn sub(self, rhs: Color32) -> (out: Color32) {
        Color32 { r: self.r - rhs.r, g: self.g - rhs.g, b: self.b - rhs.b, a: self.a - rhs.a }
    }
}

impl SubSpecImpl<Color32> for Color32 {
    open spec fn obeys_sub_spec() -> bool {
        true
    }

    open spec fn sub_req(self, rhs: Color32) -> bool {
        fits_u32(self.r - rhs.r)
            && fits_u32(self.g - rhs.g)
            && fits_u32(self.b - rhs.b)
            && fits_u32(self.a - rhs.a)
    }

    open spec fn sub_spec(self, rhs: Color32) -> Color32 {
        Color32 {
            r: (self.r - rhs.r) as u32,
            g: (self.g - rhs.g) as u32,
            b: (self.b - rhs.b) as u32,
            a: (self.a - rhs.a) as u32,
        }
    }
}

impl core::ops::Mul<Color32> for Color32 {
    type Output = Color32;

    /// Multiplies by `rhs`, channel by channel.
    fn mul(self, rhs: Color32) -> (out: Color32) {
        Color32 { r: self.r * rhs.r, g: self.g * rhs.g, b: self.b * rhs.b, a: self.a * rhs.a }
    }
}

impl MulSpecImpl<Color32> for Color32 {
    open spec fn obeys_mul_spec() -> bool {
        true
    }

    open spec fn mul_req(self, rhs: Color32) -> bool {
        fits_u32(self.r * rhs.r)
            && fits_u32(self.g * rhs.g)
            && fits_u32(self.b * rhs.b)
            && fits_u32(self.a * rhs.a)
    }

    open spec fn mul_spec(self, rhs: Color32) -> Color32 {
        Color32 {
            r: (self.r * rhs.r) as u32,
            g: (self.g * rhs.g) as u32,
            b: (self.b * rhs.b) as u32,
            a: (self.a * rhs.a) as u32,
        }
    }
}

impl core::ops::Div<Color32> for Color32 {
    type Output = Color32;

    /// Divides by `rhs`, channel by channel.
    fn div(self, rhs: Color32) -> (out: Color32) {
        Color32 { r: self.r / rhs.r, g: self.g / rhs.g, b: self.b / rhs.b, a: self.a / rhs.a }
    }
}

impl DivSpecImpl<Color32> for Color32 {
    open spec fn obeys_div_spec() -> bool {
        true
    }

    open spec fn div_req(self, rhs: Color32) -> bool {
        rhs.r != 0
            && rhs.g != 0
            && rhs.b != 0
            && rhs.a != 0
    }

    open spec fn div_spec(self, rhs: Color32) -> Color32 {
        Color32 {
            r: (self.r / rhs.r) as u32,
            g: (self.g / rhs.g) as u32,
            b: (self.b / rhs.b) as u32,
            a: (self.a / rhs.a) as u32,
        }
    }
}

impl core::ops::Add<u32> for Color32 {
    type Output = Color32;

    /// Adds `rhs` on every channel.
    fn add(self, rhs: u32) -> (out: Color32) {
        Color32 { r: self.r + rhs, g: self.g + rhs, b: self.b + rhs, a: self.a + rhs }
    }
}

impl AddSpecImpl<u32> for Color32 {
    open spec fn obeys_add_spec() -> bool {
        true
    }

    open spec fn add_req(self, rhs: u32) -> bool {
        fits_u32(self.r + rhs)
            && fits_u32(self.g + rhs)
            && fits_u32(self.b + rhs)
            && fits_u32(self.a + rhs)
    }

    open spec fn add_spec(self, rhs: u32) -> Color32 {
        Color32 {
            r: (self.r + rhs) as u32,
            g: (self.g + rhs) as u32,
            b: (self.b + rhs) as u32,
            a: (self.a + rhs) as u32,
        }
    }
}

impl core::ops::Sub<u32> for Color32 {
    type Output = Color32;

    /// Subtracts `rhs` on every channel.
    fn sub(self, rhs: u32) -> (out: Color32) {
        Color32 { r: self.r - rhs, g: self.g - rhs, b: self.b - rhs, a: self.a - rhs }
    }
}

impl SubSpecImpl<u32> for Color32 {
    open spec fn obeys_sub_spec() -> bool {
        true
    }

    open spec fn sub_req(self, rhs: u32) -> bool {
        fits_u32(self.r - rhs)
            && fits_u32(self.g - rhs)
            && fits_u32(self.b - rhs)
            && fits_u32(self.a - rhs)
    }

    open spec fn sub_spec(self, rhs: u32) -> Color32 {
        Color32 {
            r: (self.r - rhs) as u32,
            g: (self.g - rhs) as u32,
            b: (self.b - rhs) as u32,
            a: (self.a - rhs) as u32,
        }
    }
}

impl core::ops::Mul<u32> for Color32 {
    type Output = Color32;

    /// Multiplies by `rhs` on every channel.
    fn mul(self, rhs: u32) -> (out: Color32) {
        Color32 { r: self.r * rhs, g: self.g * rhs, b: self.b * rhs, a: self.a * rhs }
    }
}

impl MulSpecImpl<u32> for Color32 {
    open spec fn obeys_mul_spec() -> bool {
        true
    }

    open spec fn mul_req(self, rhs: u32) -> bool {
        fits_u32(self.r * rhs)
            && fits_u32(self.g * rhs)
            && fits_u32(self.b * rhs)
            && fits_u32(self.a * rhs)
    }

    open spec fn mul_spec(self, rhs: u32) -> Color32 {
        Color32 {
            r: (self.r * rhs) as u32,
            g: (self.g * rhs) as u32,
            b: (self.b * rhs) as u32,
            a: (self.a * rhs) as u32,
        }
    }
}

impl core::ops::Div<u32> for Color32 {
    type Output = Color32;

    /// Divides by `rhs` on every channel.
    fn div(self, rhs: u32) -> (out: Color32) {
        Color32 { r: self.r / rhs, g: self.g / rhs, b: self.b / rhs, a: self.a / rhs }
    }
}

impl DivSpecImpl<u32> for Color32 {
    open spec fn obeys_div_spec() -> bool {
        true
    }

    open spec fn div_req(self, rhs: u32) -> bool {
        rhs != 0
            && rhs != 0
            && rhs != 0
            && rhs != 0
    }

    open spec fn div_spec(self, rhs: u32) -> Color32 {
        Color32 {
            r: (self.r / rhs) as u32,
            g: (self.g / rhs) as u32,
            b: (self.b / rhs) as u32,
            a: (self.a / rhs) as u32,
        }
    }
}

impl core::ops::AddAssign<Color32> for Color32 {
    /// Adds `rhs`, channel by channel, in place.
    fn add_assign(&mut self, rhs: Color32)
        requires
            fits_u32(old(self).r + rhs.r),
            fits_u32(old(self).g + rhs.g),
            fits_u32(old(self).b + rhs.b),
            fits_u32(old(self).a + rhs.a),
        ensures
            final(self).r == old(self).r + rhs.r,
            final(self).g == old(self).g + rhs.g,
            final(self).b == old(self).b + rhs.b,
            final(self).a == old(self).a + rhs.a,
    {
        self.r = self.r + rhs.r;
        self.g = self.g + rhs.g;
        self.b = self.b + rhs.b;
        self.a = self.a + rhs.a;
    }
}

impl core::ops::SubAssign<Color32> for Color32 {
    /// Subtracts `rhs`, channel by channel, in place.
    fn sub_assign(&mut self, rhs: Color32)
        requires
            fits_u32(old(self).r - rhs.r),
            fits_u32(old(self).g - rhs.g),
            fits_u32(old(self).b - rhs.b),
            fits_u32(old(self).a - rhs.a),
        ensures
            final(self).r == old(self).r - rhs.r,
            final(self).g == old(self).g - rhs.g,
            final(self).b == old(self).b - rhs.b,
            final(self).a == old(self).a - rhs.a,
    {
        self.r = self.r - rhs.r;
        self.g = self.g - rhs.g;
        self.b = self.b - rhs.b;
        self.a = self.a - rhs.a;
    }
}

impl core::ops::MulAssign<Color32> for Color32 {
    /// Multiplies by `rhs`, channel by channel, in place.
    fn mul_assign(&mut self, rhs: Color32)
        requires
            fits_u32(old(self).r * rhs.r),
            fits_u32(old(self).g * rhs.g),
            fits_u32(old(self).b * rhs.b),
            fits_u32(old(self).a * rhs.a),
        ensures
            final(self).r == old(self).r * rhs.r,
            final(self).g == old(self).g * rhs.g,
            final(self).b == old(self).b * rhs.b,
            final(self).a == old(self).a * rhs.a,
    {
        self.r = self.r * rhs.r;
        self.g = self.g * rhs.g;
        self.b = self.b * rhs.b;
        self.a = self.a * rhs.a;
    }
}

impl core::ops::DivAssign<Color32> for Color32 {
    /// Divides by `rhs`, channel by channel, in place.
    fn div_assign(&mut self, rhs: Color32)
        requires
            rhs.r != 0,
            rhs.g != 0,
            rhs.b != 0,
            rhs.a != 0,
        ensures
            final(self).r == old(self).r / rhs.r,
            final(self).g == old(self).g / rhs.g,
            final(self).b == old(self).b / rhs.b,
            final(self).a == old(self).a / rhs.a,
    {
        self.r = self.r / rhs.r;
        self.g = self.g / rhs.g;
        self.b = self.b / rhs.b;
        self.a = self.a / rhs.a;
    }
}

} // verus!
