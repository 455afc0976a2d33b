use vstd::prelude::*;

verus! {

/// A single-precision number, held by its IEEE-754 bit pattern.
///
/// The engine's bookkeeping only stores and copies such numbers; it never
/// does arithmetic on them, so the bit pattern is all it needs.
#[derive(Clone, Copy, Debug, PartialEq, Eq, Structural)]
pub struct Float {
    pub bits: u32,
}

/// Bit pattern of `0.0`.
pub const ZERO_BITS: u32 = 0;

/// Bit pattern of `1.0`.
pub const ONE_BITS: u32 = 0x3f80_0000;

/// The bit that holds the sign of a single-precision number.
pub const SIGN_BIT: u32 = 0x8000_0000;

impl Float {
    pub open spec fn spec_zero() -> Float {
        Float { bits: ZERO_BITS }
    }

    pub open spec fn spec_one() -> Float {
        Float { bits: ONE_BITS }
    }

    /// The number with the given bit pattern.
    pub fn from_bits(bits: u32) -> (r: Float)
        ensures
            r.bits == bits,
    {
        Float { bits }
    }

    /// The bit pattern of this number.
    pub fn to_bits(self) -> (r: u32)
        ensures
            r == self.bits,
    {
        self.bits
    }

    /// The number of the same size and the other sign.
    pub open spec fn spec_neg(self) -> Float {
        Float { bits: self.bits ^ SIGN_BIT }
    }

    /// The number of the same size and the other sign.
    #[verifier::when_used_as_spec(spec_neg)]
    pub fn neg(self) -> (r: Float)
        ensures
            r == self.spec_neg(),
    {
        Float { bits: self.bits ^ SIGN_BIT }
    }

    /// `0.0`
    #[verifier::when_used_as_spec(spec_zero)]
    pub fn zero() -> (r: Float)
        ensures
            r == Float::spec_zero(),
    {
        Float { bits: ZERO_BITS }
    }

    /// `1.0`
    #[verifier::when_used_as_spec(spec_one)]
    pub fn one() -> (r: Float)
        ensures
            r == Float::spec_one(),
    {
        Float { bits: ONE_BITS }
    }
}

/// A vector of two numbers.
#[derive(Clone, Copy, Debug, PartialEq, Eq, Structural)]
pub struct Vector2 {
    pub x: Float,
    pub y: Float,
}

impl Vector2 {
    pub fn new(x: Float, y: Float) -> (r: Vector2)
        ensures
            r == (Vector2 { x, y }),
    {
        Vector2 { x, y }
    }
}

/// A vector of three numbers.
#[derive(Clone, Copy, Debug, PartialEq, Eq, Structural)]
pub struct Vector3 {
    pub x: Float,
    pub y: Float,
    pub z: Float,
}

impl Vector3 {
    pub open spec fn spec_zero() -> Vector3 {
        Vector3 { x: Float::spec_zero(), y: Float::spec_zero(), z: Float::spec_zero() }
    }

    pub fn new(x: Float, y: Float, z: Float) -> (r: Vector3)
        ensures
            r == (Vector3 { x, y, z }),
    {
        Vector3 { x, y, z }
    }

    /// The vector whose three components are `0.0`.
    #[verifier::when_used_as_spec(spec_zero)]
    pub fn zero() -> (r: Vector3)
        ensures
            r == Vector3::spec_zero(),
    {
        Vector3 { x: Float::zero(), y: Float::zero(), z: Float::zero() }
    }

    /// The vector that points the other way: each component with its sign
    /// turned over.
    pub fn neg(self) -> (r: Vector3)
        ensures
            r == (Vector3 { x: self.x.spec_neg(), y: self.y.spec_neg(), z: self.z.spec_neg() }),
    {
        Vector3 { x: self.x.neg(), y: self.y.neg(), z: self.z.neg() }
    }
}

/// Three rotation angles, one around each axis.
#[derive(Clone, Copy, Debug, PartialEq, Eq, Structural)]
pub struct Euler {
    pub x: Float,
    pub y: Float,
    pub z: Float,
}

impl Euler {
    pub open spec fn spec_zero() -> Euler {
        Euler { x: Float::spec_zero(), y: Float::spec_zero(), z: Float::spec_zero() }
    }

    pub fn new(x: Float, y: Float, z: Float) -> (r: Euler)
        ensures
            r == (Euler { x, y, z }),
    {
        Euler { x, y, z }
    }

    /// No rotation around any axis.
    #[verifier::when_used_as_spec(spec_zero)]
    pub fn zero() -> (r: Euler)
        ensures
            r == Euler::spec_zero(),
    {
        Euler { x: Float::zero(), y: Float::zero(), z: Float::zero() }
    }
}

/// A vector of four numbers: one column of a [`Matrix4`].
#[derive(Clone, Copy, Debug, PartialEq, Eq, Structural)]
pub struct Vector4 {
    pub x: Float,
    pub y: Float,
    pub z: Float,
    pub w: Float,
}

impl Vector4 {
    pub fn new(x: Float, y: Float, z: Float, w: Float) -> (r: Vector4)
        ensures
            r == (Vector4 { x, y, z, w }),
    {
        Vector4 { x, y, z, w }
    }
}

/// A 4x4 matrix, stored column by column: `x`, `y`, `z` and `w` are its
/// four columns, and the fields of each are its rows.
#[derive(Clone, Copy, Debug, PartialEq, Eq, Structural)]
pub struct Matrix4 {
    pub x: Vector4,
    pub y: Vector4,
    pub z: Vector4,
    pub w: Vector4,
}

impl Matrix4 {
    /// The matrix that scales all three axes by `d`: `d`, `d`, `d`, `1.0`
    /// on the diagonal and `0.0` elsewhere.
    pub open spec fn spec_from_scale(d: Float) -> Matrix4 {
        let o = Float::spec_zero();
        let l = Float::spec_one();
        Matrix4 {
            x: Vector4 { x: d, y: o, z: o, w: o },
            y: Vector4 { x: o, y: d, z: o, w: o },
            z: Vector4 { x: o, y: o, z: d, w: o },
            w: Vector4 { x: o, y: o, z: o, w: l },
        }
    }

    /// The matrix with `1.0` on the diagonal and `0.0` elsewhere.
    pub open spec fn spec_identity() -> Matrix4 {
        Matrix4::spec_from_scale(Float::spec_one())
    }

    /// The matrix that moves a point by `v` and does nothing else: the
    /// identity, with `v` in the first three rows of the last column.
    pub open spec fn spec_from_translation(v: Vector3) -> Matrix4 {
        let o = Float::spec_zero();
        let l = Float::spec_one();
        Matrix4 {
            x: Vector4 { x: l, y: o, z: o, w: o },
            y: Vector4 { x: o, y: l, z: o, w: o },
            z: Vector4 { x: o, y: o, z: l, w: o },
            w: Vector4 { x: v.x, y: v.y, z: v.z, w: l },
        }
    }

    /// The matrix whose sixteen entries are `0.0`.
    pub open spec fn spec_zero() -> Matrix4 {
        let o = Float::spec_zero();
        let c = Vector4 { x: o, y: o, z: o, w: o };
        Matrix4 { x: c, y: c, z: c, w: c }
    }

    /// The matrix with the given entries, column by column: `c0r1` is the
    /// entry of the first column and the second row.
    pub fn new(
        c0r0: Float,
        c0r1: Float,
        c0r2: Float,
        c0r3: Float,
        c1r0: Float,
        c1r1: Float,
        c1r2: Float,
        c1r3: Float,
        c2r0: Float,
        c2r1: Float,
        c2r2: Float,
        c2r3: Float,
        c3r0: Float,
        c3r1: Float,
        c3r2: Float,
        c3r3: Float,
    ) -> (m: Matrix4)
        ensures
            m == (Matrix4 {
                x: Vector4 { x: c0r0, y: c0r1, z: c0r2, w: c0r3 },
                y: Vector4 { x: c1r0, y: c1r1, z: c1r2, w: c1r3 },
                z: Vector4 { x: c2r0, y: c2r1, z: c2r2, w: c2r3 },
                w: Vector4 { x: c3r0, y: c3r1, z: c3r2, w: c3r3 },
            }),
    {
        Matrix4 {
            x: Vector4::new(c0r0, c0r1, c0r2, c0r3),
            y: Vector4::new(c1r0, c1r1, c1r2, c1r3),
            z: Vector4::new(c2r0, c2r1, c2r2, c2r3),
            w: Vector4::new(c3r0, c3r1, c3r2, c3r3),
        }
    }

    /// The identity matrix.
    #[verifier::when_used_as_spec(spec_identity)]
    pub fn identity() -> (m: Matrix4)
        ensures
            m == Matrix4::spec_identity(),
    {
        Matrix4::from_scale(Float::one())
    }

    /// The matrix that moves every point by `position`.
    #[verifier::when_used_as_spec(spec_from_translation)]
    pub fn from_translation(position: Vector3) -> (m: Matrix4)
        ensures
            m == Matrix4::spec_from_translation(position),
    {
        let o: Float = Float::zero();
        let l: Float = Float::one();
        Matrix4 {
            x: Vector4::new(l, o, o, o),
            y: Vector4::new(o, l, o, o),
            z: Vector4::new(o, o, l, o),
            w: Vector4::new(position.x, position.y, position.z, l),
        }
    }

    /// The matrix that scales all three axes by `scale`.
    #[verifier::when_used_as_spec(spec_from_scale)]
    pub fn from_scale(scale: Float) -> (m: Matrix4)
        ensures
            m == Matrix4::spec_from_scale(scale),
    {
        let o: Float = Float::zero();
        let l: Float = Float::one();
        Matrix4 {
            x: Vector4::new(scale, o, o, o),
            y: Vector4::new(o, scale, o, o),
            z: Vector4::new(o, o, scale, o),
            w: Vector4::new(o, o, o, l),
        }
    }

    /// The matrix whose sixteen entries are `0.0`.
    #[verifier::when_used_as_spec(spec_zero)]
    pub fn zero() -> (m: Matrix4)
        ensures
            m == Matrix4::spec_zero(),
    {
        let o: Float = Float::zero();
        let c: Vector4 = Vector4::new(o, o, o, o);
        Matrix4 { x: c, y: c, z: c, w: c }
    }

    /// The first three rows of the first column.
    pub fn position(self) -> (v: Vector3)
        ensures
            v == (Vector3 { x: self.x.x, y: self.x.y, z: self.x.z }),
    {
        Vector3 { x: self.x.x, y: self.x.y, z: self.x.z }
    }
}

} // verus!
