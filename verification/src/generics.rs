//! Cell coordinates on the terminal grid.

use vstd::prelude::*;
use vstd::std_specs::ops::{AddSpec, DivSpec, MulSpec, SubSpec};

verus! {

/// A point or an extent on the terminal grid, in cells: `x` counts columns from
/// the left edge, `y` counts rows from the top.
#[derive(Debug, Copy, Clone, PartialEq, Eq, Structural)]
pub struct Vec2 {
    pub x: u16,
    pub y: u16,
}

impl Vec2 {
    /// The vector with the given column and row.
    pub fn new(x: u16, y: u16) -> (v: Self)
        ensures
            v.x == x,
            v.y == y,
    {
        Self { x, y }
    }

    /// The vector whose components are those of the pair, in order.
    pub fn from(tuple: (u16, u16)) -> (v: Self)
        ensures
            v.x == tuple.0,
            v.y == tuple.1,
    {
        Self::new(tuple.0, tuple.1)
    }

    /// The origin, which is also the neutral element of `+`.
    pub fn empty() -> (v: Self)
        ensures
            v.x == 0,
            v.y == 0,
    {
        Self::new(0, 0)
    }

    /// The horizontal part of the vector: same column, row zero.
    pub fn x(&self) -> (v: Self)
        ensures
            v.x == self.x,
            v.y == 0,
    {
        Vec2::new(self.x, 0)
    }

    /// Whether `self + other` stays on the addressable grid.
    pub open spec fn can_add(self, other: Vec2) -> bool {
        self.x + other.x <= u16::MAX && self.y + other.y <= u16::MAX
    }

    /// Whether `other` lies within `self`, so that `self - other` is defined.
    pub open spec fn can_sub(self, other: Vec2) -> bool {
        self.x >= other.x && self.y >= other.y
    }

    /// Whether `self * scalar` stays on the addressable grid.
    pub open spec fn can_scale(self, scalar: u16) -> bool {
        self.x * scalar <= u16::MAX && self.y * scalar <= u16::MAX
    }

    /// The componentwise sum, or `None` where a component would leave the grid.
    pub fn checked_add(self, other: Vec2) -> (r: Option<Vec2>)
        ensures
            r == if self.can_add(other) {
                Some(self.add_spec(other))
            } else {
                None
            },
    {
        match (self.x.checked_add(other.x), self.y.checked_add(other.y)) {
            (Some(x), Some(y)) => Some(Vec2 { x, y }),
            _ => None,
        }
    }

    /// The componentwise difference, or `None` where `other` exceeds `self` in
    /// a component.
    pub fn checked_sub(self, other: Vec2) -> (r: Option<Vec2>)
        ensures
            r == if self.can_sub(other) {
                Some(self.sub_spec(other))
            } else {
                None
            },
    {
        if self.x >= other.x && self.y >= other.y {
            Some(Vec2 { x: self.x - other.x, y: self.y - other.y })
        } else {
            None
        }
    }

    /// The vector scaled by `scalar`, or `None` where a component would leave
    /// the grid.
    pub fn checked_mul(self, scalar: u16) -> (r: Option<Vec2>)
        ensures
            r == if self.can_scale(scalar) {
                Some(self.mul_spec(scalar))
            } else {
                None
            },
    {
        match (self.x.checked_mul(scalar), self.y.checked_mul(scalar)) {
            (Some(x), Some(y)) => Some(Vec2 { x, y }),
            _ => None,
        }
    }
}

impl core::ops::Add for Vec2 {
    type Output = Self;

    fn add(self, other: Self) -> (sum: Self) {
        Self { x: self.x + other.x, y: self.y + other.y }
    }
}

impl vstd::std_specs::ops::AddSpecImpl for Vec2 {
    open spec fn obeys_add_spec() -> bool {
        true
    }

    open spec fn add_req(self, other: Self) -> bool {
        self.can_add(other)
    }

    open spec fn add_spec(self, other: Self) -> Self {
        Vec2 { x: (self.x + other.x) as u16, y: (self.y + other.y) as u16 }
    }
}

impl core::ops::Sub for Vec2 {
    type Output = Self;

    fn sub(self, other: Self) -> (difference: Self) {
        Self { x: self.x - other.x, y: self.y - other.y }
    }
}

impl vstd::std_specs::ops::SubSpecImpl for Vec2 {
    open spec fn obeys_sub_spec() -> bool {
        true
    }

    open spec fn sub_req(self, other: Self) -> bool {
        self.can_sub(other)
    }

    open spec fn sub_spec(self, other: Self) -> Self {
        Vec2 { x: (self.x - other.x) as u16, y: (self.y - other.y) as u16 }
    }
}

impl core::ops::Mul<u16> for Vec2 {
    type Output = Self;

    fn mul(self, scalar: u16) -> (product: Self) {
        Self { x: self.x * scalar, y: self.y * scalar }
    }
}

impl vstd::std_specs::ops::MulSpecImpl<u16> for Vec2 {
    open spec fn obeys_mul_spec() -> bool {
        true
    }

    open spec fn mul_req(self, scalar: u16) -> bool {
        self.can_scale(scalar)
    }

    open spec fn mul_spec(self, scalar: u16) -> Self {
        Vec2 { x: (self.x * scalar) as u16, y: (self.y * scalar) as u16 }
    }
}

impl core::ops::Div<u16> for Vec2 {
    type Output = Self;

    fn div(self, scalar: u16) -> (quotient: Self) {
        Self { x: self.x / scalar, y: self.y / scalar }
    }
}

impl vstd::std_specs::ops::DivSpecImpl<u16> for Vec2 {
    open spec fn obeys_div_spec() -> bool {
        true
    }

    open spec fn div_req(self, scalar: u16) -> bool {
        scalar != 0
    }

    open spec fn div_spec(self, scalar: u16) -> Self {
        Vec2 { x: self.x / scalar, y: self.y / scalar }
    }
}

/// Taking `b` away from `a` and putting it back gives `a` again, wherever
/// `b` lies within `a`.
pub proof fn sub_then_add_restores(a: Vec2, b: Vec2)
    requires
        a.can_sub(b),
    ensures
        a.sub_spec(b).can_add(b),
        a.sub_spec(b).add_spec(b) == a,
{
}

/// Adding `b` to `a` and taking it away again gives `a`, wherever the sum
/// stays on the grid.
pub proof fn add_then_sub_restores(a: Vec2, b: Vec2)
    requires
        a.can_add(b),
    ensures
        a.add_spec(b).can_sub(b),
        a.add_spec(b).sub_spec(b) == a,
{
}

/// The origin is neutral for `+`, on either side.
pub proof fn origin_is_neutral(v: Vec2)
    ensures
        (Vec2 { x: 0, y: 0 }).can_add(v),
        (Vec2 { x: 0, y: 0 }).add_spec(v) == v,
        v.can_add(Vec2 { x: 0, y: 0 }),
        v.add_spec(Vec2 { x: 0, y: 0 }) == v,
{
}

/// Scaling by one and dividing by one both leave a vector as it is.
pub proof fn one_is_neutral(v: Vec2)
    ensures
        v.can_scale(1),
        v.mul_spec(1) == v,
        v.div_spec(1) == v,
{
}

} // verus!
