use vstd::prelude::*;

verus! {

/// A double-precision parameter value, held as the monotone order key of its
/// IEEE-754 binary64 bit pattern: a negative value is keyed by the bitwise
/// complement of its bits, a non-negative value by its bits with the top bit
/// set. The map is strictly increasing, so every comparison the rules make on
/// the original values is exactly a comparison of keys. Callers key the
/// negative zero as positive zero, so equal values always share one key.
#[derive(Clone, Copy, PartialEq, Eq, Structural, Debug)]
pub struct Numeric {
    pub key: u64,
}

/// Order key of the value zero.
pub const KEY_ZERO: u64 = 0x8000000000000000;

/// Order key of the value six tenths, the one step size the Off resolution
/// accepts.
pub const KEY_THREE_FIFTHS: u64 = 0xBFE3333333333333;

/// Order key of the value five, the upper bound on the inner probe.
pub const KEY_FIVE: u64 = 0xC014000000000000;

/// Order key of the value ten, the upper bound on the removal distance.
pub const KEY_TEN: u64 = 0xC024000000000000;

/// Order key of the value fifty, the upper bound on the outer probe.
pub const KEY_FIFTY: u64 = 0xC049000000000000;

impl Numeric {
    /// True when this value lies in the closed interval `[lo, hi]`.
    pub open spec fn spec_in_range(self, lo: u64, hi: u64) -> bool {
        lo <= self.key <= hi
    }

    /// Closed-interval membership on keys.
    pub fn in_range(&self, lo: u64, hi: u64) -> (r: bool)
        ensures
            r == self.spec_in_range(lo, hi),
    {
        lo <= self.key && self.key <= hi
    }
}

/// A point in space, one key per axis; box vertices and atom positions alike.
#[derive(Clone, Copy, PartialEq, Eq, Structural, Debug)]
pub struct Point3 {
    pub x: Numeric,
    pub y: Numeric,
    pub z: Numeric,
}

/// An axis-aligned box, inclusive on every face.
#[derive(Clone, Copy, PartialEq, Eq, Structural, Debug)]
pub struct Bounds {
    pub x_min: Numeric,
    pub x_max: Numeric,
    pub y_min: Numeric,
    pub y_max: Numeric,
    pub z_min: Numeric,
    pub z_max: Numeric,
}

/// True when `p` lies inside `b` on all three axes, faces included.
pub open spec fn spec_point_in_bounds(b: Bounds, p: Point3) -> bool {
    &&& b.x_min.key <= p.x.key <= b.x_max.key
    &&& b.y_min.key <= p.y.key <= b.y_max.key
    &&& b.z_min.key <= p.z.key <= b.z_max.key
}

/// Inclusive containment of a point in a box.
pub fn point_in_bounds(b: &Bounds, p: &Point3) -> (r: bool)
    ensures
        r == spec_point_in_bounds(*b, *p),
{
    b.x_min.key <= p.x.key && p.x.key <= b.x_max.key && b.y_min.key <= p.y.key && p.y.key
        <= b.y_max.key && b.z_min.key <= p.z.key && p.z.key <= b.z_max.key
}

/// The smaller of two keys.
pub open spec fn spec_min_key(a: u64, b: u64) -> u64 {
    if a <= b {
        a
    } else {
        b
    }
}

/// The larger of two keys.
pub open spec fn spec_max_key(a: u64, b: u64) -> u64 {
    if a >= b {
        a
    } else {
        b
    }
}

} // verus!
