//! Directions, sides and per-side lengths.

use crate::length::Length;
use vstd::prelude::*;

verus! {

/// The four directions into which content can be laid out.
#[derive(Clone, Copy, Debug, PartialEq, Eq, Structural)]
pub enum Dir {
    /// Left to right.
    Ltr,
    /// Right to left.
    Rtl,
    /// Top to bottom.
    Ttb,
    /// Bottom to top.
    Btt,
}

/// The four sides of a box.
#[derive(Clone, Copy, Debug, PartialEq, Eq, Structural)]
pub enum Side {
    Left,
    Top,
    Right,
    Bottom,
}

impl Dir {
    /// The side at which this direction starts.
    pub open spec fn spec_start(self) -> Side {
        match self {
            Dir::Ltr => Side::Left,
            Dir::Rtl => Side::Right,
            Dir::Ttb => Side::Top,
            Dir::Btt => Side::Bottom,
        }
    }

    #[verifier::when_used_as_spec(spec_start)]
    pub fn start(self) -> (r: Side)
        ensures
            r == self.spec_start(),
    {
        match self {
            Dir::Ltr => Side::Left,
            Dir::Rtl => Side::Right,
            Dir::Ttb => Side::Top,
            Dir::Btt => Side::Bottom,
        }
    }
}

impl Side {
    /// The side across from this one.
    pub open spec fn spec_opposite(self) -> Side {
        match self {
            Side::Left => Side::Right,
            Side::Top => Side::Bottom,
            Side::Right => Side::Left,
            Side::Bottom => Side::Top,
        }
    }
}

/// One length for each side of a box.
#[derive(Clone, Copy, Debug, PartialEq, Eq, Structural)]
pub struct Sides {
    pub left: Length,
    pub top: Length,
    pub right: Length,
    pub bottom: Length,
}

impl Sides {
    /// Zero on every side.
    pub open spec fn spec_zero() -> Sides {
        Sides {
            left: Length::spec_zero(),
            top: Length::spec_zero(),
            right: Length::spec_zero(),
            bottom: Length::spec_zero(),
        }
    }

    /// The length on the given side.
    pub open spec fn spec_get(self, side: Side) -> Length {
        match side {
            Side::Left => self.left,
            Side::Top => self.top,
            Side::Right => self.right,
            Side::Bottom => self.bottom,
        }
    }

    /// These sides with the length on the given side replaced.
    pub open spec fn spec_with(self, side: Side, value: Length) -> Sides {
        match side {
            Side::Left => Sides { left: value, ..self },
            Side::Top => Sides { top: value, ..self },
            Side::Right => Sides { right: value, ..self },
            Side::Bottom => Sides { bottom: value, ..self },
        }
    }
}

impl Default for Sides {
    /// Zero on every side.
    fn default() -> (r: Sides)
        ensures
            r == Sides::spec_zero(),
    {
        Sides {
            left: Length::zero(),
            top: Length::zero(),
            right: Length::zero(),
            bottom: Length::zero(),
        }
    }
}

/// Access to the length on a side by naming the side. The trait builds its
/// setters on the two accessors given here.
impl typst_utils::Get<Side> for Sides {
    type Component = Length;

    fn get_ref(&self, index: Side) -> (r: &Length)
        ensures
            *r == self.spec_get(index),
    {
        match index {
            Side::Left => &self.left,
            Side::Top => &self.top,
            Side::Right => &self.right,
            Side::Bottom => &self.bottom,
        }
    }

    fn get_mut(&mut self, index: Side) -> (r: &mut Length)
        ensures
            *r == old(self).spec_get(index),
            *final(self) == old(self).spec_with(index, *final(r)),
    {
        match index {
            Side::Left => &mut self.left,
            Side::Top => &mut self.top,
            Side::Right => &mut self.right,
            Side::Bottom => &mut self.bottom,
        }
    }
}

/// Calls `typst_utils::Get::with`, the builder-style setter that the trait
/// provides on top of `get_mut`: it stores `value` through the reference
/// that `get_mut` hands out for `side` and returns the structure. With the
/// `get_mut` above, the result is `sides` with that one side replaced.
#[verifier::external_body]
pub(crate) fn with_side(sides: Sides, side: Side, value: Length) -> (r: Sides)
    ensures
        r == sides.spec_with(side, value),
{
    typst_utils::Get::with(sides, side, value)
}

} // verus!
