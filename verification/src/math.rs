//! Exact pose algebra on plain integer values.
//!
//! A pose ([`Isometry`]) is a linear part (a 3x3 integer matrix, enough for
//! every quarter-turn rotation and reflection) together with a fixed-point
//! integer translation. Composition follows the usual affine rule
//! `(A * B)(x) = A.rotation * (B.rotation * x + B.translation) + A.translation`,
//! and every scalar operation saturates at the `i64` bounds, so composition
//! is total and its result is pinned down exactly by the spec functions here.

use vstd::prelude::*;

verus! {

/// The mathematical value of a saturating `i64` operation: the exact result
/// clamped to the representable range.
pub open spec fn clamped(v: int) -> int {
    if v < i64::MIN {
        i64::MIN as int
    } else if v > i64::MAX {
        i64::MAX as int
    } else {
        v
    }
}

/// Saturating product of two scalars.
pub fn sat_mul(a: i64, b: i64) -> (r: i64)
    ensures
        r == clamped(a * b),
{
    proof {
        let pa = a as int;
        let pb = b as int;
        assert(i64::MIN * i64::MAX <= pa * pb <= i64::MIN * i64::MIN) by (nonlinear_arith)
            requires
                i64::MIN <= pa <= i64::MAX,
                i64::MIN <= pb <= i64::MAX,
        ;
    }
    let p: i128 = (a as i128) * (b as i128);
    if p > i64::MAX as i128 {
        i64::MAX
    } else if p < i64::MIN as i128 {
        i64::MIN
    } else {
        p as i64
    }
}

/// Saturating sum of two scalars.
pub fn sat_add(a: i64, b: i64) -> (r: i64)
    ensures
        r == clamped(a + b),
{
    let s: i128 = (a as i128) + (b as i128);
    if s > i64::MAX as i128 {
        i64::MAX
    } else if s < i64::MIN as i128 {
        i64::MIN
    } else {
        s as i64
    }
}

/// A three-component integer vector; used both for translations and for
/// matrix rows.
#[derive(Clone, Copy, Debug, PartialEq, Eq, Structural)]
pub struct Vector3 {
    pub x: i64,
    pub y: i64,
    pub z: i64,
}

/// The saturating dot product of two vectors, accumulated left to right.
pub open spec fn spec_dot(a: Vector3, b: Vector3) -> int {
    clamped(clamped(clamped(a.x * b.x) + clamped(a.y * b.y)) + clamped(a.z * b.z))
}

impl Vector3 {
    /// Builds a vector from its components.
    pub fn new(x: i64, y: i64, z: i64) -> (v: Self)
        ensures
            v == (Vector3 { x, y, z }),
    {
        Vector3 { x, y, z }
    }

    /// The zero vector.
    pub fn zero() -> (v: Self)
        ensures
            v == (Vector3 { x: 0i64, y: 0i64, z: 0i64 }),
    {
        Vector3 { x: 0, y: 0, z: 0 }
    }

    /// The component-wise saturating sum.
    pub open spec fn spec_add(a: Vector3, b: Vector3) -> Vector3 {
        Vector3 {
            x: clamped(a.x + b.x) as i64,
            y: clamped(a.y + b.y) as i64,
            z: clamped(a.z + b.z) as i64,
        }
    }

    /// Adds two vectors, saturating each component.
    pub fn add(&self, other: &Vector3) -> (r: Vector3)
        ensures
            r == Vector3::spec_add(*self, *other),
    {
        Vector3 {
            x: sat_add(self.x, other.x),
            y: sat_add(self.y, other.y),
            z: sat_add(self.z, other.z),
        }
    }

    /// The saturating dot product.
    pub fn dot(&self, other: &Vector3) -> (r: i64)
        ensures
            r == spec_dot(*self, *other),
    {
        sat_add(
            sat_add(sat_mul(self.x, other.x), sat_mul(self.y, other.y)),
            sat_mul(self.z, other.z),
        )
    }
}

/// A 3x3 integer matrix, stored by rows: the linear part of a pose.
#[derive(Clone, Copy, Debug, PartialEq, Eq, Structural)]
pub struct Matrix3 {
    pub r0: Vector3,
    pub r1: Vector3,
    pub r2: Vector3,
}

impl Matrix3 {
    /// The identity matrix.
    pub open spec fn spec_identity() -> Matrix3 {
        Matrix3 {
            r0: Vector3 { x: 1i64, y: 0i64, z: 0i64 },
            r1: Vector3 { x: 0i64, y: 1i64, z: 0i64 },
            r2: Vector3 { x: 0i64, y: 0i64, z: 1i64 },
        }
    }

    /// Builds the identity matrix.
    pub fn identity() -> (m: Self)
        ensures
            m == Matrix3::spec_identity(),
    {
        Matrix3 {
            r0: Vector3 { x: 1, y: 0, z: 0 },
            r1: Vector3 { x: 0, y: 1, z: 0 },
            r2: Vector3 { x: 0, y: 0, z: 1 },
        }
    }

    /// Column `0` of the matrix, as a vector.
    pub open spec fn spec_col0(self) -> Vector3 {
        Vector3 { x: self.r0.x, y: self.r1.x, z: self.r2.x }
    }

    /// Column `1` of the matrix, as a vector.
    pub open spec fn spec_col1(self) -> Vector3 {
        Vector3 { x: self.r0.y, y: self.r1.y, z: self.r2.y }
    }

    /// Column `2` of the matrix, as a vector.
    pub open spec fn spec_col2(self) -> Vector3 {
        Vector3 { x: self.r0.z, y: self.r1.z, z: self.r2.z }
    }

    /// Application of the matrix to a vector, row by row.
    pub open spec fn spec_apply(m: Matrix3, v: Vector3) -> Vector3 {
        Vector3 {
            x: spec_dot(m.r0, v) as i64,
            y: spec_dot(m.r1, v) as i64,
            z: spec_dot(m.r2, v) as i64,
        }
    }

    /// Applies the matrix to a vector.
    pub fn apply(&self, v: &Vector3) -> (r: Vector3)
        ensures
            r == Matrix3::spec_apply(*self, *v),
    {
        Vector3 { x: self.r0.dot(v), y: self.r1.dot(v), z: self.r2.dot(v) }
    }

    /// The matrix product, entry by entry.
    pub open spec fn spec_mul(a: Matrix3, b: Matrix3) -> Matrix3 {
        Matrix3 {
            r0: Vector3 {
                x: spec_dot(a.r0, b.spec_col0()) as i64,
                y: spec_dot(a.r0, b.spec_col1()) as i64,
                z: spec_dot(a.r0, b.spec_col2()) as i64,
            },
            r1: Vector3 {
                x: spec_dot(a.r1, b.spec_col0()) as i64,
                y: spec_dot(a.r1, b.spec_col1()) as i64,
                z: spec_dot(a.r1, b.spec_col2()) as i64,
            },
            r2: Vector3 {
                x: spec_dot(a.r2, b.spec_col0()) as i64,
                y: spec_dot(a.r2, b.spec_col1()) as i64,
                z: spec_dot(a.r2, b.spec_col2()) as i64,
            },
        }
    }

    /// Multiplies two matrices.
    pub fn mul(&self, other: &Matrix3) -> (r: Matrix3)
        ensures
            r == Matrix3::spec_mul(*self, *other),
    {
        let c0 = Vector3 { x: other.r0.x, y: other.r1.x, z: other.r2.x };
        let c1 = Vector3 { x: other.r0.y, y: other.r1.y, z: other.r2.y };
        let c2 = Vector3 { x: other.r0.z, y: other.r1.z, z: other.r2.z };
        Matrix3 {
            r0: Vector3 { x: self.r0.dot(&c0), y: self.r0.dot(&c1), z: self.r0.dot(&c2) },
            r1: Vector3 { x: self.r1.dot(&c0), y: self.r1.dot(&c1), z: self.r1.dot(&c2) },
            r2: Vector3 { x: self.r2.dot(&c0), y: self.r2.dot(&c1), z: self.r2.dot(&c2) },
        }
    }
}

/// A pose: a linear part and a translation. Composition is non-commutative
/// and chains left to right, parent first.
#[derive(Clone, Copy, Debug, PartialEq, Eq, Structural)]
pub struct Isometry {
    pub rotation: Matrix3,
    pub translation: Vector3,
}

impl Isometry {
    /// The identity pose.
    pub open spec fn spec_identity() -> Isometry {
        Isometry {
            rotation: Matrix3::spec_identity(),
            translation: Vector3 { x: 0i64, y: 0i64, z: 0i64 },
        }
    }

    /// Builds the identity pose.
    pub fn identity() -> (p: Self)
        ensures
            p == Isometry::spec_identity(),
    {
        Isometry { rotation: Matrix3::identity(), translation: Vector3::zero() }
    }

    /// Builds a pose from its parts.
    pub fn new(rotation: Matrix3, translation: Vector3) -> (p: Self)
        ensures
            p == (Isometry { rotation, translation }),
    {
        Isometry { rotation, translation }
    }

    /// Builds a pure translation.
    pub fn from_translation(translation: Vector3) -> (p: Self)
        ensures
            p == (Isometry { rotation: Matrix3::spec_identity(), translation }),
    {
        Isometry { rotation: Matrix3::identity(), translation }
    }

    /// The composition `a * b`: the pose of a child with local pose `b`
    /// under a parent with world pose `a`.
    pub open spec fn spec_mul(a: Isometry, b: Isometry) -> Isometry {
        Isometry {
            rotation: Matrix3::spec_mul(a.rotation, b.rotation),
            translation: Vector3::spec_add(
                Matrix3::spec_apply(a.rotation, b.translation),
                a.translation,
            ),
        }
    }

    /// Composes two poses, `self` being the parent.
    pub fn mul(&self, other: &Isometry) -> (r: Isometry)
        ensures
            r == Isometry::spec_mul(*self, *other),
    {
        Isometry {
            rotation: self.rotation.mul(&other.rotation),
            translation: self.rotation.apply(&other.translation).add(&self.translation),
        }
    }
}

} // verus!
