//! Two-dimensional integer vectors.

use vstd::prelude::*;
use vstd::std_specs::ops::AddSpecImpl;
use vstd::std_specs::ops::DivSpecImpl;
use vstd::std_specs::ops::MulSpecImpl;
use vstd::std_specs::ops::NegSpecImpl;
use vstd::std_specs::ops::SubSpecImpl;
use vstd::string::StringExecFns;
use crate::types::decimal::append_signed_decimal;
use crate::types::decimal::signed_decimal;

verus! {

/// A pair of integer coordinates: `x` counts columns, `y` counts rows.
#[derive(Clone, Copy, Debug, PartialEq, Eq, Structural)]
pub struct Vector2Int {
    pub x: i32,
    pub y: i32,
}

/// Whether `v` can be held in an `i32`.
pub open spec fn fits_i32(v: int) -> bool {
    i32::MIN <= v <= i32::MAX
}

/// Whether `a / b` is defined on `i32`: the divisor is not zero and the
/// quotient does not leave the type.
pub open spec fn divides_i32(a: i32, b: i32) -> bool {
    b != 0 && !(a == i32::MIN && b == -1)
}

/// The quotient of `a` by `b`, rounded towards zero, as machine division
/// rounds it.
pub open spec fn quotient(a: int, b: int) -> int {
    if a >= 0 {
        a / b
    } else {
        -((-a) / b)
    }
}

impl Vector2Int {
    /// The vector written out: both coordinates in decimal, in round
    /// brackets with a comma and a blank between them.
    pub open spec fn spec_text(self) -> Seq<char> {
        seq!['('] + signed_decimal(self.x as int) + seq![',', ' '] + signed_decimal(self.y as int)
            + seq![')']
    }

    /// The vector written out, as in `(3, -4)`.
    pub fn to_text(&self) -> (text: String)
        ensures
            text@ == self.spec_text(),
    {
        proof {
            reveal_strlit("(");
            reveal_strlit(", ");
            reveal_strlit(")");
        }
        let mut text = String::new();
        text.append("(");
        append_signed_decimal(&mut text, self.x);
        text.append(", ");
        append_signed_decimal(&mut text, self.y);
        text.append(")");
        assert(text@ =~= self.spec_text());
        text
    }

    /// The origin.
    pub fn new() -> (v: Vector2Int)
        ensures
            v == (Vector2Int { x: 0, y: 0 }),
    {
        Vector2Int { x: 0, y: 0 }
    }

    /// The vector whose coordinates are both zero.
    pub fn zero() -> (v: Vector2Int)
        ensures
            v == (Vector2Int { x: 0, y: 0 }),
    {
        Vector2Int { x: 0, y: 0 }
    }

    /// The vector whose coordinates are both one.
    pub fn identity() -> (v: Vector2Int)
        ensures
            v == (Vector2Int { x: 1, y: 1 }),
    {
        Vector2Int { x: 1, y: 1 }
    }

    /// One step along the x axis.
    pub fn unit_x() -> (v: Vector2Int)
        ensures
            v == (Vector2Int { x: 1, y: 0 }),
    {
        Vector2Int { x: 1, y: 0 }
    }

    /// One step along the y axis.
    pub fn unit_y() -> (v: Vector2Int)
        ensures
            v == (Vector2Int { x: 0, y: 1 }),
    {
        Vector2Int { x: 0, y: 1 }
    }

    /// The direction of growing `y`.
    pub fn up() -> (v: Vector2Int)
        ensures
            v == (Vector2Int { x: 0, y: 1 }),
    {
        Vector2Int { x: 0, y: 1 }
    }

    /// The direction of shrinking `y`.
    pub fn down() -> (v: Vector2Int)
        ensures
            v == (Vector2Int { x: 0, y: -1i32 }),
    {
        Vector2Int { x: 0, y: -1 }
    }

    /// The direction of shrinking `x`.
    pub fn left() -> (v: Vector2Int)
        ensures
            v == (Vector2Int { x: -1i32, y: 0 }),
    {
        Vector2Int { x: -1, y: 0 }
    }

    /// The direction of growing `x`.
    pub fn right() -> (v: Vector2Int)
        ensures
            v == (Vector2Int { x: 1, y: 0 }),
    {
        Vector2Int { x: 1, y: 0 }
    }

    /// The dot product with `other`. The vector itself is left as it was.
    pub fn dot(&mut self, other: Vector2Int) -> (product: i32)
        requires
            fits_i32(old(self).x * other.x),
            fits_i32(old(self).y * other.y),
            fits_i32(old(self).x * other.x + old(self).y * other.y),
        ensures
            *final(self) == *old(self),
            product == old(self).x * other.x + old(self).y * other.y,
    {
        self.x * other.x + self.y * other.y
    }

    /// Moves the vector by `delta`.
    pub fn translate(&mut self, delta: Vector2Int)
        requires
            fits_i32(old(self).x + delta.x),
            fits_i32(old(self).y + delta.y),
        ensures
            final(self).x == old(self).x + delta.x,
            final(self).y == old(self).y + delta.y,
    {
        self.x = self.x + delta.x;
        self.y = self.y + delta.y;
    }
}

impl core::ops::Add<Vector2Int> for Vector2Int {
    type Output = Vector2Int;

    /// Adds `rhs`, coordinate by coordinate.
    fn add(self, rhs: Vector2Int) -> (out: Vector2Int) {
        Vector2Int { x: self.x + rhs.x, y: self.y + rhs.y }
    }
}

impl AddSpecImpl<Vector2Int> for Vector2Int {
    open spec fn obeys_add_spec() -> bool {
        true
    }

    open spec fn add_req(self, rhs: Vector2Int) -> bool {
        fits_i32(self.x + rhs.x) && fits_i32(self.y + rhs.y)
    }

    open spec fn add_spec(self, rhs: Vector2Int) -> Vector2Int {
        Vector2Int { x: (self.x + rhs.x) as i32, y: (self.y + rhs.y) as i32 }
    }
}

impl core::ops::Sub<Vector2Int> for Vector2Int {
    type Output = Vector2Int;

    /// Subtracts `rhs`, coordinate by coordinate.
    fn sub(self, rhs: Vector2Int) -> (out: Vector2Int) {
        Vector2Int { x: self.x - rhs.x, y: self.y - rhs.y }
    }
}

impl SubSpecImpl<Vector2Int> for Vector2Int {
    open spec fn obeys_sub_spec() -> bool {
        true
    }

    open spec fn sub_req(self, rhs: Vector2Int) -> bool {
        fits_i32(self.x - rhs.x) && fits_i32(self.y - rhs.y)
    }

    open spec fn sub_spec(self, rhs: Vector2Int) -> Vector2Int {
        Vector2Int { x: (self.x - rhs.x) as i32, y: (self.y - rhs.y) as i32 }
    }
}

impl core::ops::Mul<Vector2Int> for Vector2Int {
    type Output = Vector2Int;

    /// Multiplies by `rhs`, coordinate by coordinate.
    fn mul(self, rhs: Vector2Int) -> (out: Vector2Int) {
        Vector2Int { x: self.x * rhs.x, y: self.y * rhs.y }
    }
}

impl MulSpecImpl<Vector2Int> for Vector2Int {
    open spec fn obeys_mul_spec() -> bool {
        true
    }

    open spec fn mul_req(self, rhs: Vector2Int) -> bool {
        fits_i32(self.x * rhs.x) && fits_i32(self.y * rhs.y)
    }

    open spec fn mul_spec(self, rhs: Vector2Int) -> Vector2Int {
        Vector2Int { x: (self.x * rhs.x) as i32, y: (self.y * rhs.y) as i32 }
    }
}

impl core::ops::Div<Vector2Int> for Vector2Int {
    type Output = Vector2Int;

    /// Divides by `rhs`, coordinate by coordinate, rounding towards zero.
    fn div(self, rhs: Vector2Int) -> (out: Vector2Int) {
        Vector2Int { x: self.x / rhs.x, y: self.y / rhs.y }
    }
}

impl DivSpecImpl<Vector2Int> for Vector2Int {
    open spec fn obeys_div_spec() -> bool {
        true
    }

    open spec fn div_req(self, rhs: Vector2Int) -> bool {
        divides_i32(self.x, rhs.x) && divides_i32(self.y, rhs.y)
    }

    open spec fn div_spec(self, rhs: Vector2Int) -> Vector2Int {
        Vector2Int {
            x: quotient(self.x as int, rhs.x as int) as i32,
            y: quotient(self.y as int, rhs.y as int) as i32,
        }
    }
}

impl core::ops::Neg for Vector2Int {
    type Output = Vector2Int;

    /// Negates each coordinate.
    fn neg(self) -> (out: Vector2Int) {
        Vector2Int { x: -self.x, y: -self.y }
    }
}

impl NegSpecImpl for Vector2Int {
    open spec fn obeys_neg_spec() -> bool {
        true
    }

    open spec fn neg_req(self) -> bool {
        self.x != i32::MIN && self.y != i32::MIN
    }

    open spec fn neg_spec(self) -> Vector2Int {
        Vector2Int { x: (-self.x) as i32, y: (-self.y) as i32 }
    }
}

impl core::ops::Add<i32> for Vector2Int {
    type Output = Vector2Int;

    /// Adds `rhs` on every coordinate.
    fn add(self, rhs: i32) -> (out: Vector2Int) {
        Vector2Int { x: self.x + rhs, y: self.y + rhs }
    }
}

impl AddSpecImpl<i32> for Vector2Int {
    open spec fn obeys_add_spec() -> bool {
        true
    }

    open spec fn add_req(self, rhs: i32) -> bool {
        fits_i32(self.x + rhs) && fits_i32(self.y + rhs)
    }

    open spec fn add_spec(self, rhs: i32) -> Vector2Int {
        Vector2Int { x: (self.x + rhs) as i32, y: (self.y + rhs) as i32 }
    }
}

impl core::ops::Sub<i32> for Vector2Int {
    type Output = Vector2Int;

    /// Subtracts `rhs` on every coordinate.
    fn sub(self, rhs: i32) -> (out: Vector2Int) {
        Vector2Int { x: self.x - rhs, y: self.y - rhs }
    }
}

impl SubSpecImpl<i32> for Vector2Int {
    open spec fn obeys_sub_spec() -> bool {
        true
    }

    open spec fn sub_req(self, rhs: i32) -> bool {
        fits_i32(self.x - rhs) && fits_i32(self.y - rhs)
    }

    open spec fn sub_spec(self, rhs: i32) -> Vector2Int {
        Vector2Int { x: (self.x - rhs) as i32, y: (self.y - rhs) as i32 }
    }
}

impl core::ops::Mul<i32> for Vector2Int {
    type Output = Vector2Int;

    /// Multiplies by `rhs` on every coordinate.
    fn mul(self, rhs: i32) -> (out: Vector2Int) {
        Vector2Int { x: self.x * rhs, y: self.y * rhs }
    }
}

impl MulSpecImpl<i32> for Vector2Int {
    open spec fn obeys_mul_spec() -> bool {
        true
    }

    open spec fn mul_req(self, rhs: i32) -> bool {
        fits_i32(self.x * rhs) && fits_i32(self.y * rhs)
    }

    open spec fn mul_spec(self, rhs: i32) -> Vector2Int {
        Vector2Int { x: (self.x * rhs) as i32, y: (self.y * rhs) as i32 }
    }
}

impl core::ops::Div<i32> for Vector2Int {
    type Output = Vector2Int;

    /// Divides by `rhs` on every coordinate, rounding towards zero.
    fn div(self, rhs: i32) -> (out: Vector2Int) {
        Vector2Int { x: self.x / rhs, y: self.y / rhs }
    }
}

impl DivSpecImpl<i32> for Vector2Int {
    open spec fn obeys_div_spec() -> bool {
        true
    }

    open spec fn div_req(self, rhs: i32) -> bool {
        divides_i32(self.x, rhs) && divides_i32(self.y, rhs)
    }

    open spec fn div_spec(self, rhs: i32) -> Vector2Int {
        Vector2Int {
            x: quotient(self.x as int, rhs as int) as i32,
            y: quotient(self.y as int, rhs as int) as i32,
        }
    }
}

impl core::ops::AddAssign<Vector2Int> for Vector2Int {
    /// Adds `rhs`, coordinate by coordinate, in place.
    fn add_assign(&mut self, rhs: Vector2Int)
        requires
            fits_i32(old(self).x + rhs.x),
            fits_i32(old(self).y + rhs.y),
        ensures
            final(self).x == old(self).x + rhs.x,
            final(self).y == old(self).y + rhs.y,
    {
        self.x = self.x + rhs.x;
        self.y = self.y + rhs.y;
    }
}

impl core::ops::SubAssign<Vector2Int> for Vector2Int {
    /// Subtracts `rhs`, coordinate by coordinate, in place.
    fn sub_assign(&mut self, rhs: Vector2Int)
        requires
            fits_i32(old(self).x - rhs.x),
            fits_i32(old(self).y - rhs.y),
        ensures
            final(self).x == old(self).x - rhs.x,
            final(self).y == old(self).y - rhs.y,
    {
        self.x = self.x - rhs.x;
        self.y = self.y - rhs.y;
    }
}

impl core::ops::MulAssign<Vector2Int> for Vector2Int {
    /// Multiplies by `rhs`, coordinate by coordinate, in place.
    fn mul_assign(&mut self, rhs: Vector2Int)
        requires
            fits_i32(old(self).x * rhs.x),
            fits_i32(old(self).y * rhs.y),
        ensures
            final(self).x == old(self).x * rhs.x,
            final(self).y == old(self).y * rhs.y,
    {
        self.x = self.x * rhs.x;
        self.y = self.y * rhs.y;
    }
}

impl core::ops::DivAssign<Vector2Int> for Vector2Int {
    /// Divides by `rhs`, coordinate by coordinate, in place, rounding
    /// towards zero.
    fn div_assign(&mut self, rhs: Vector2Int)
        requires
            divides_i32(old(self).x, rhs.x),
            divides_i32(old(self).y, rhs.y),
        ensures
            final(self).x == quotient(old(self).x as int, rhs.x as int) as i32,
            final(self).y == quotient(old(self).y as int, rhs.y as int) as i32,
    {
        self.x = self.x / rhs.x;
        self.y = self.y / rhs.y;
    }
}

impl core::ops::AddAssign<i32> for Vector2Int {
    /// Adds `rhs` on every coordinate, in place.
    fn add_assign(&mut self, rhs: i32)
        requires
            fits_i32(old(self).x + rhs),
            fits_i32(old(self).y + rhs),
        ensures
            final(self).x == old(self).x + rhs,
            final(self).y == old(self).y + rhs,
    {
        self.x = self.x + rhs;
        self.y = self.y + rhs;
    }
}

impl core::ops::SubAssign<i32> for Vector2Int {
    /// Subtracts `rhs` on every coordinate, in place.
    fn sub_assign(&mut self, rhs: i32)
        requires
            fits_i32(old(self).x - rhs),
            fits_i32(old(self).y - rhs),
        ensures
            final(self).x == old(self).x - rhs,
            final(self).y == old(self).y - rhs,
    {
        self.x = self.x - rhs;
        self.y = self.y - rhs;
    }
}

} // verus!
