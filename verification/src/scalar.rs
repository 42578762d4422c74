//! Single-precision numbers as the verified core sees them.
//!
//! The core never does floating-point arithmetic. It stores numbers, moves
//! them between components and collaborators, and orders them against fixed
//! thresholds. A number is therefore carried by its IEEE-754 binary32 bit
//! pattern, and ordering is defined on that pattern.

use vstd::prelude::*;

verus! {

/// Bit pattern of positive zero.
pub const ZERO_BITS: u32 = 0x0000_0000;

/// Bit pattern of `1.0`.
pub const ONE_BITS: u32 = 0x3F80_0000;

/// The sign bit of a binary32 pattern; also the pattern of negative zero.
pub const SIGN_BIT: u32 = 0x8000_0000;

/// Magnitude of positive infinity; larger magnitudes are NaNs.
pub const INFINITY_MAGNITUDE: u32 = 0x7F80_0000;

/// A binary32 number, held as its bit pattern.
#[derive(Clone, Copy, Debug, PartialEq, Eq, Structural)]
pub struct Scalar {
    pub bits: u32,
}

impl Scalar {
    /// The pattern with the sign bit cleared.
    pub open spec fn magnitude(self) -> int {
        self.bits as int % 0x8000_0000
    }

    /// Whether the sign bit is set.
    pub open spec fn sign_set(self) -> bool {
        self.bits >= 0x8000_0000
    }

    /// Whether the pattern encodes a NaN.
    pub open spec fn nan(self) -> bool {
        self.magnitude() > 0x7F80_0000
    }

    /// Position of a non-NaN number on the number line: patterns of larger
    /// numbers have larger ranks, and both zeros have rank 0.
    pub open spec fn rank(self) -> int {
        if self.sign_set() {
            -self.magnitude()
        } else {
            self.magnitude()
        }
    }

    /// IEEE-754 `<`: false when either side is a NaN.
    pub open spec fn lt(self, other: Scalar) -> bool {
        !self.nan() && !other.nan() && self.rank() < other.rank()
    }

    pub fn from_bits(bits: u32) -> (s: Scalar)
        ensures
            s.bits == bits,
    {
        Scalar { bits }
    }

    pub fn to_bits(&self) -> (bits: u32)
        ensures
            bits == self.bits,
    {
        self.bits
    }

    pub fn zero() -> (s: Scalar)
        ensures
            s.bits == ZERO_BITS,
            s.rank() == 0,
            !s.nan(),
    {
        Scalar { bits: ZERO_BITS }
    }

    pub fn one() -> (s: Scalar)
        ensures
            s.bits == ONE_BITS,
            !s.nan(),
    {
        Scalar { bits: ONE_BITS }
    }

    fn magnitude_bits(&self) -> (m: u32)
        ensures
            m == self.magnitude(),
    {
        if self.bits >= SIGN_BIT {
            self.bits - SIGN_BIT
        } else {
            self.bits
        }
    }

    pub fn is_nan(&self) -> (b: bool)
        ensures
            b == self.nan(),
    {
        self.magnitude_bits() > INFINITY_MAGNITUDE
    }

    /// Whether `self < other` as numbers.
    pub fn less_than(&self, other: &Scalar) -> (b: bool)
        ensures
            b == self.lt(*other),
    {
        if self.is_nan() || other.is_nan() {
            return false;
        }
        let a: u32 = self.magnitude_bits();
        let b: u32 = other.magnitude_bits();
        let a_neg: bool = self.bits >= SIGN_BIT;
        let b_neg: bool = other.bits >= SIGN_BIT;
        if a_neg {
            if b_neg {
                b < a
            } else {
                a > 0 || b > 0
            }
        } else {
            if b_neg {
                false
            } else {
                a < b
            }
        }
    }
}

/// The order on non-NaN numbers is strict: nothing is below itself, and the
/// order is transitive.
pub proof fn lemma_lt_strict_order(a: Scalar, b: Scalar, c: Scalar)
    ensures
        !a.lt(a),
        a.lt(b) ==> !b.lt(a),
        a.lt(b) && b.lt(c) ==> a.lt(c),
{
}

/// Two non-NaN numbers are ordered unless they have the same rank, which
/// means the same pattern or the two zeros.
pub proof fn lemma_lt_total(a: Scalar, b: Scalar)
    requires
        !a.nan(),
        !b.nan(),
    ensures
        a.lt(b) || b.lt(a) || a.rank() == b.rank(),
        a.rank() == b.rank() ==> a.bits == b.bits || (a.magnitude() == 0 && b.magnitude() == 0),
{
}

#[derive(Clone, Copy, Debug, PartialEq, Eq, Structural)]
pub struct Vector2 {
    pub x: Scalar,
    pub y: Scalar,
}

#[derive(Clone, Copy, Debug, PartialEq, Eq, Structural)]
pub struct Vector3 {
    pub x: Scalar,
    pub y: Scalar,
    pub z: Scalar,
}

/// A point in space; kept apart from `Vector3` as a displacement.
#[derive(Clone, Copy, Debug, PartialEq, Eq, Structural)]
pub struct Point3 {
    pub x: Scalar,
    pub y: Scalar,
    pub z: Scalar,
}

/// A rotation, scalar part `s` and vector part `v`.
#[derive(Clone, Copy, Debug, PartialEq, Eq, Structural)]
pub struct Quaternion {
    pub s: Scalar,
    pub v: Vector3,
}

impl Vector2 {
    pub fn new(x: Scalar, y: Scalar) -> (v: Vector2)
        ensures
            v == (Vector2 { x, y }),
    {
        Vector2 { x, y }
    }

    pub fn zero() -> (v: Vector2)
        ensures
            v.x.bits == ZERO_BITS,
            v.y.bits == ZERO_BITS,
    {
        Vector2 { x: Scalar::zero(), y: Scalar::zero() }
    }
}

impl Vector3 {
    pub fn new(x: Scalar, y: Scalar, z: Scalar) -> (v: Vector3)
        ensures
            v == (Vector3 { x, y, z }),
    {
        Vector3 { x, y, z }
    }

    pub fn zero() -> (v: Vector3)
        ensures
            v.x.bits == ZERO_BITS,
            v.y.bits == ZERO_BITS,
            v.z.bits == ZERO_BITS,
    {
        Vector3 { x: Scalar::zero(), y: Scalar::zero(), z: Scalar::zero() }
    }
}

impl Point3 {
    pub fn new(x: Scalar, y: Scalar, z: Scalar) -> (p: Point3)
        ensures
            p == (Point3 { x, y, z }),
    {
        Point3 { x, y, z }
    }
}

impl Quaternion {
    pub fn new(s: Scalar, v: Vector3) -> (q: Quaternion)
        ensures
            q == (Quaternion { s, v }),
    {
        Quaternion { s, v }
    }

    /// The rotation that turns nothing: scalar part one, vector part zero.
    pub fn identity() -> (q: Quaternion)
        ensures
            q.s.bits == ONE_BITS,
            q.v.x.bits == ZERO_BITS,
            q.v.y.bits == ZERO_BITS,
            q.v.z.bits == ZERO_BITS,
    {
        Quaternion { s: Scalar::one(), v: Vector3::zero() }
    }
}

} // verus!
