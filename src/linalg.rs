//! Fixed-size vectors, quaternions and 4x4 matrices with exact arithmetic.
use vstd::prelude::*;

verus! {

/// A mathematical 3-vector.
pub type V3 = (int, int, int);

/// A mathematical 4-vector.
pub type V4 = (int, int, int, int);

/// A mathematical 4x4 matrix, as its four columns.
pub type M4 = (V4, V4, V4, V4);

/// Whether an integer can be held by an `i64`.
pub open spec fn fits(x: int) -> bool {
    i64::MIN <= x <= i64::MAX
}

pub open spec fn fits3(v: V3) -> bool {
    fits(v.0) && fits(v.1) && fits(v.2)
}

pub open spec fn fits4(v: V4) -> bool {
    fits(v.0) && fits(v.1) && fits(v.2) && fits(v.3)
}

pub open spec fn fits_m4(m: M4) -> bool {
    fits4(m.0) && fits4(m.1) && fits4(m.2) && fits4(m.3)
}

pub open spec fn add3(a: V3, b: V3) -> V3 {
    (a.0 + b.0, a.1 + b.1, a.2 + b.2)
}

pub open spec fn sub3(a: V3, b: V3) -> V3 {
    (a.0 - b.0, a.1 - b.1, a.2 - b.2)
}

pub open spec fn scale3(a: V3, k: int) -> V3 {
    (a.0 * k, a.1 * k, a.2 * k)
}

pub open spec fn dot3(a: V3, b: V3) -> int {
    a.0 * b.0 + a.1 * b.1 + a.2 * b.2
}

pub open spec fn cross3(a: V3, b: V3) -> V3 {
    (a.1 * b.2 - a.2 * b.1, a.2 * b.0 - a.0 * b.2, a.0 * b.1 - a.1 * b.0)
}

pub open spec fn add4(a: V4, b: V4) -> V4 {
    (a.0 + b.0, a.1 + b.1, a.2 + b.2, a.3 + b.3)
}

pub open spec fn scale4(a: V4, k: int) -> V4 {
    (a.0 * k, a.1 * k, a.2 * k, a.3 * k)
}

/// The product of a matrix and a column vector: the columns weighted by the
/// vector's components.
pub open spec fn mat_vec(m: M4, v: V4) -> V4 {
    add4(add4(add4(scale4(m.0, v.0), scale4(m.1, v.1)), scale4(m.2, v.2)), scale4(m.3, v.3))
}

/// The matrix product `a * b`: column `j` of the result is `a` applied to column `j` of `b`.
pub open spec fn mat_mul(a: M4, b: M4) -> M4 {
    (mat_vec(a, b.0), mat_vec(a, b.1), mat_vec(a, b.2), mat_vec(a, b.3))
}

pub open spec fn identity4() -> M4 {
    ((1, 0, 0, 0), (0, 1, 0, 0), (0, 0, 1, 0), (0, 0, 0, 1))
}

/// The product of two `i64` lies in `[-(2^126 - 2^63), 2^126]`.
proof fn lemma_mul_i64_bound(x: i64, y: i64)
    ensures
        -0x3FFF_FFFF_FFFF_FFFF_8000_0000_0000_0000 <= (x as int) * (y as int)
            <= 0x4000_0000_0000_0000_0000_0000_0000_0000,
{
    let a = x as int;
    let b = y as int;
    if a >= 0 && b >= 0 {
        assert(a * b <= 0x7FFF_FFFF_FFFF_FFFF * 0x7FFF_FFFF_FFFF_FFFF) by (nonlinear_arith)
            requires 0 <= a <= 0x7FFF_FFFF_FFFF_FFFF, 0 <= b <= 0x7FFF_FFFF_FFFF_FFFF;
        assert(0 <= a * b) by (nonlinear_arith) requires 0 <= a, 0 <= b;
    } else if a < 0 && b < 0 {
        assert(a * b <= 0x8000_0000_0000_0000 * 0x8000_0000_0000_0000) by (nonlinear_arith)
            requires -0x8000_0000_0000_0000 <= a < 0, -0x8000_0000_0000_0000 <= b < 0;
        assert(0 <= a * b) by (nonlinear_arith) requires a < 0, b < 0;
    } else if a < 0 {
        assert(-0x8000_0000_0000_0000 * 0x7FFF_FFFF_FFFF_FFFF <= a * b) by (nonlinear_arith)
            requires -0x8000_0000_0000_0000 <= a < 0, 0 <= b <= 0x7FFF_FFFF_FFFF_FFFF;
        assert(a * b <= 0) by (nonlinear_arith) requires a < 0, 0 <= b;
    } else {
        assert(0x7FFF_FFFF_FFFF_FFFF * -0x8000_0000_0000_0000 <= a * b) by (nonlinear_arith)
            requires 0 <= a <= 0x7FFF_FFFF_FFFF_FFFF, -0x8000_0000_0000_0000 <= b < 0;
        assert(a * b <= 0) by (nonlinear_arith) requires 0 <= a, b < 0;
    }
}

/// The exact product of two `i64`, as an `i128`.
fn wide_mul(x: i64, y: i64) -> (r: i128)
    ensures
        r == (x as int) * (y as int),
        -0x3FFF_FFFF_FFFF_FFFF_8000_0000_0000_0000 <= r <= 0x4000_0000_0000_0000_0000_0000_0000_0000,
{
    proof {
        lemma_mul_i64_bound(x, y);
    }
    (x as i128) * (y as i128)
}

/// A 3-vector of `i64` components.
#[derive(Clone, Copy, Debug, PartialEq, Eq, Structural)]
pub struct Vector3 {
    pub x: i64,
    pub y: i64,
    pub z: i64,
}

impl View for Vector3 {
    type V = V3;

    open spec fn view(&self) -> V3 {
        (self.x as int, self.y as int, self.z as int)
    }
}

impl Vector3 {
    pub fn new(x: i64, y: i64, z: i64) -> (r: Vector3)
        ensures
            r@ == (x as int, y as int, z as int),
    {
        Vector3 { x, y, z }
    }

    /// Component-wise sum.
    pub fn add(&self, other: &Vector3) -> (r: Vector3)
        requires
            fits3(add3(self@, other@)),
        ensures
            r@ == add3(self@, other@),
    {
        Vector3 { x: self.x + other.x, y: self.y + other.y, z: self.z + other.z }
    }

    /// Component-wise difference `self - other`.
    pub fn sub(&self, other: &Vector3) -> (r: Vector3)
        requires
            fits3(sub3(self@, other@)),
        ensures
            r@ == sub3(self@, other@),
    {
        Vector3 { x: self.x - other.x, y: self.y - other.y, z: self.z - other.z }
    }

    /// Every component multiplied by `k`.
    pub fn scale(&self, k: i64) -> (r: Vector3)
        requires
            fits3(scale3(self@, k as int)),
        ensures
            r@ == scale3(self@, k as int),
    {
        Vector3 {
            x: wide_mul(self.x, k) as i64,
            y: wide_mul(self.y, k) as i64,
            z: wide_mul(self.z, k) as i64,
        }
    }

    /// The dot product.
    pub fn dot(&self, other: &Vector3) -> (r: i64)
        requires
            fits(dot3(self@, other@)),
        ensures
            r == dot3(self@, other@),
    {
        let px = wide_mul(self.x, other.x);
        let py = wide_mul(self.y, other.y);
        let pz = wide_mul(self.z, other.z);
        (px + py + pz) as i64
    }

    /// The cross product `self × other`.
    pub fn cross(&self, other: &Vector3) -> (r: Vector3)
        requires
            fits3(cross3(self@, other@)),
        ensures
            r@ == cross3(self@, other@),
    {
        Vector3 {
            x: (wide_mul(self.y, other.z) - wide_mul(self.z, other.y)) as i64,
            y: (wide_mul(self.z, other.x) - wide_mul(self.x, other.z)) as i64,
            z: (wide_mul(self.x, other.y) - wide_mul(self.y, other.x)) as i64,
        }
    }
}

/// A 4-vector of `i64` components.
#[derive(Clone, Copy, Debug, PartialEq, Eq, Structural)]
pub struct Vector4 {
    pub x: i64,
    pub y: i64,
    pub z: i64,
    pub w: i64,
}

impl View for Vector4 {
    type V = V4;

    open spec fn view(&self) -> V4 {
        (self.x as int, self.y as int, self.z as int, self.w as int)
    }
}

impl Vector4 {
    pub fn new(x: i64, y: i64, z: i64, w: i64) -> (r: Vector4)
        ensures
            r@ == (x as int, y as int, z as int, w as int),
    {
        Vector4 { x, y, z, w }
    }
}

/// A 4x4 matrix of `i64` entries, stored as four columns.
#[derive(Clone, Copy, Debug, PartialEq, Eq, Structural)]
pub struct Matrix4 {
    pub x: Vector4,
    pub y: Vector4,
    pub z: Vector4,
    pub w: Vector4,
}

impl View for Matrix4 {
    type V = M4;

    open spec fn view(&self) -> M4 {
        (self.x@, self.y@, self.z@, self.w@)
    }
}

/// `a * p + b * q + c * r + d * t`, summed left to right.
fn weighted_sum(a: i64, b: i64, c: i64, d: i64, p: i64, q: i64, r: i64, t: i64) -> (s: i64)
    requires
        fits(a * p + b * q + c * r + d * t),
    ensures
        s == a * p + b * q + c * r + d * t,
{
    let e0 = wide_mul(a, p);
    let e1 = wide_mul(b, q);
    let e2 = wide_mul(c, r);
    let e3 = wide_mul(d, t);
    (e0 + e1 + e2 + e3) as i64
}

impl Matrix4 {
    /// The matrix whose columns are `x`, `y`, `z` and `w`.
    pub fn from_cols(x: Vector4, y: Vector4, z: Vector4, w: Vector4) -> (r: Matrix4)
        ensures
            r@ == (x@, y@, z@, w@),
    {
        Matrix4 { x, y, z, w }
    }

    /// The identity matrix.
    pub fn identity() -> (r: Matrix4)
        ensures
            r@ == identity4(),
    {
        Matrix4 {
            x: Vector4::new(1, 0, 0, 0),
            y: Vector4::new(0, 1, 0, 0),
            z: Vector4::new(0, 0, 1, 0),
            w: Vector4::new(0, 0, 0, 1),
        }
    }

    /// The matrix applied to a column vector.
    pub fn transform(&self, v: &Vector4) -> (r: Vector4)
        requires
            fits4(mat_vec(self@, v@)),
        ensures
            r@ == mat_vec(self@, v@),
    {
        let m = self;
        Vector4 {
            x: weighted_sum(m.x.x, m.y.x, m.z.x, m.w.x, v.x, v.y, v.z, v.w),
            y: weighted_sum(m.x.y, m.y.y, m.z.y, m.w.y, v.x, v.y, v.z, v.w),
            z: weighted_sum(m.x.z, m.y.z, m.z.z, m.w.z, v.x, v.y, v.z, v.w),
            w: weighted_sum(m.x.w, m.y.w, m.z.w, m.w.w, v.x, v.y, v.z, v.w),
        }
    }

    /// The matrix product `self * rhs`.
    pub fn multiply(&self, rhs: &Matrix4) -> (r: Matrix4)
        requires
            fits_m4(mat_mul(self@, rhs@)),
        ensures
            r@ == mat_mul(self@, rhs@),
    {
        Matrix4 {
            x: self.transform(&rhs.x),
            y: self.transform(&rhs.y),
            z: self.transform(&rhs.z),
            w: self.transform(&rhs.w),
        }
    }
}

/// A quaternion `s + v`, with scalar part `s` and vector part `v`.
#[derive(Clone, Copy, Debug, PartialEq, Eq, Structural)]
pub struct Quaternion {
    pub s: i64,
    pub v: Vector3,
}

impl View for Quaternion {
    type V = (int, V3);

    open spec fn view(&self) -> (int, V3) {
        (self.s as int, self.v@)
    }
}

/// The intermediate vector of a rotation: `v × vec + vec * s`.
pub open spec fn rotate_tmp(q: (int, V3), vec: V3) -> V3 {
    add3(cross3(q.1, vec), scale3(vec, q.0))
}

/// A quaternion applied to a vector: `(v × tmp) * 2 + vec`, with `tmp` as in
/// `rotate_tmp`. For a unit quaternion this is the rotation `q vec q*`.
pub open spec fn rotate3(q: (int, V3), vec: V3) -> V3 {
    add3(scale3(cross3(q.1, rotate_tmp(q, vec)), 2), vec)
}

/// Every value of the evaluation of `rotate3` fits in an `i64`.
pub open spec fn rotate_fits(q: (int, V3), vec: V3) -> bool {
    &&& fits3(cross3(q.1, vec))
    &&& fits3(scale3(vec, q.0))
    &&& fits3(rotate_tmp(q, vec))
    &&& fits3(cross3(q.1, rotate_tmp(q, vec)))
    &&& fits3(scale3(cross3(q.1, rotate_tmp(q, vec)), 2))
    &&& fits3(rotate3(q, vec))
}

impl Quaternion {
    pub fn from_sv(s: i64, v: Vector3) -> (r: Quaternion)
        ensures
            r@ == (s as int, v@),
    {
        Quaternion { s, v }
    }

    /// The identity quaternion `1 + 0`.
    pub fn one() -> (r: Quaternion)
        ensures
            r@ == (1int, (0int, 0int, 0int)),
    {
        Quaternion { s: 1, v: Vector3::new(0, 0, 0) }
    }

    /// The quaternion applied to `vec`.
    pub fn rotate_vector(&self, vec: &Vector3) -> (r: Vector3)
        requires
            rotate_fits(self@, vec@),
        ensures
            r@ == rotate3(self@, vec@),
    {
        let tmp = self.v.cross(vec).add(&vec.scale(self.s));
        self.v.cross(&tmp).scale(2).add(vec)
    }
}

/// The identity quaternion leaves every vector as it is.
pub proof fn lemma_rotate_identity(vec: V3)
    ensures
        rotate3((1, (0, 0, 0)), vec) == vec,
{
}

/// The identity matrix is neutral for the matrix product on either side.
pub proof fn lemma_mat_mul_identity(m: M4)
    ensures
        mat_mul(identity4(), m) == m,
        mat_mul(m, identity4()) == m,
{
}

} // verus!
