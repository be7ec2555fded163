//! Fixed-point vectors and column-major 4x4 matrices.
//!
//! Each executable type (`Vec2Fx`, `Vec3Fx`, `Vec4Fx`, `Mat4Fx`) has a ghost
//! mirror over `int` (`V2`, `V3`, `V4`, `M4`) reached through its view, and
//! every operation is proved equal to a spec-level mirror over the ghost
//! types.  Matrices are column-major: `x_axis` is the first column, and
//! `m4_mul_v4` forms the linear combination of the columns.

use crate::fx::{
    cos_fx, cos_fx_s, fx_add, fx_add_s, fx_div, fx_div_s, fx_mul, fx_mul_s, fx_neg, fx_neg_s,
    fx_sub, fx_sub_s, isqrt_u128, lemma_i64_product_fits, narrow_i128, sat64,
    sin_fx, sin_fx_s, sqrt_floor, tdiv, tdiv_i128, FX_ONE,
};
use vstd::prelude::*;

verus! {

/// Ghost mirror of a 2D vector.
pub ghost struct V2 {
    pub x: int,
    pub y: int,
}

/// Ghost mirror of a 3D vector.
pub ghost struct V3 {
    pub x: int,
    pub y: int,
    pub z: int,
}

/// Ghost mirror of a 4D vector.
pub ghost struct V4 {
    pub x: int,
    pub y: int,
    pub z: int,
    pub w: int,
}

/// Ghost mirror of a column-major 4x4 matrix.
pub ghost struct M4 {
    pub x_axis: V4,
    pub y_axis: V4,
    pub z_axis: V4,
    pub w_axis: V4,
}

/// A 2D fixed-point vector.
#[derive(Clone, Copy, Debug, PartialEq, Eq, Structural)]
pub struct Vec2Fx {
    pub x: i64,
    pub y: i64,
}

/// A 3D fixed-point vector.
#[derive(Clone, Copy, Debug, PartialEq, Eq, Structural)]
pub struct Vec3Fx {
    pub x: i64,
    pub y: i64,
    pub z: i64,
}

/// A 4D fixed-point vector.
#[derive(Clone, Copy, Debug, PartialEq, Eq, Structural)]
pub struct Vec4Fx {
    pub x: i64,
    pub y: i64,
    pub z: i64,
    pub w: i64,
}

/// A column-major 4x4 fixed-point matrix.
#[derive(Clone, Copy, Debug, PartialEq, Eq, Structural)]
pub struct Mat4Fx {
    pub x_axis: Vec4Fx,
    pub y_axis: Vec4Fx,
    pub z_axis: Vec4Fx,
    pub w_axis: Vec4Fx,
}

impl View for Vec2Fx {
    type V = V2;

    open spec fn view(&self) -> V2 {
        V2 { x: self.x as int, y: self.y as int }
    }
}

impl View for Vec3Fx {
    type V = V3;

    open spec fn view(&self) -> V3 {
        V3 { x: self.x as int, y: self.y as int, z: self.z as int }
    }
}

impl View for Vec4Fx {
    type V = V4;

    open spec fn view(&self) -> V4 {
        V4 { x: self.x as int, y: self.y as int, z: self.z as int, w: self.w as int }
    }
}

impl View for Mat4Fx {
    type V = M4;

    open spec fn view(&self) -> M4 {
        M4 { x_axis: self.x_axis@, y_axis: self.y_axis@, z_axis: self.z_axis@, w_axis: self.w_axis@ }
    }
}

/// The zero 2D vector.
pub open spec fn v2_zero_s() -> V2 {
    V2 { x: 0, y: 0 }
}

/// The zero 3D vector.
pub open spec fn v3_zero_s() -> V3 {
    V3 { x: 0, y: 0, z: 0 }
}

/// The world-up axis.
pub open spec fn v3_up_s() -> V3 {
    V3 { x: 0, y: FX_ONE as int, z: 0 }
}

pub open spec fn v2_add_s(a: V2, b: V2) -> V2 {
    V2 { x: fx_add_s(a.x, b.x), y: fx_add_s(a.y, b.y) }
}

pub open spec fn v2_sub_s(a: V2, b: V2) -> V2 {
    V2 { x: fx_sub_s(a.x, b.x), y: fx_sub_s(a.y, b.y) }
}

pub open spec fn v3_add_s(a: V3, b: V3) -> V3 {
    V3 { x: fx_add_s(a.x, b.x), y: fx_add_s(a.y, b.y), z: fx_add_s(a.z, b.z) }
}

pub open spec fn v3_sub_s(a: V3, b: V3) -> V3 {
    V3 { x: fx_sub_s(a.x, b.x), y: fx_sub_s(a.y, b.y), z: fx_sub_s(a.z, b.z) }
}

pub open spec fn v3_scale_s(a: V3, k: int) -> V3 {
    V3 { x: fx_mul_s(a.x, k), y: fx_mul_s(a.y, k), z: fx_mul_s(a.z, k) }
}

pub open spec fn v3_neg_s(a: V3) -> V3 {
    V3 { x: fx_neg_s(a.x), y: fx_neg_s(a.y), z: fx_neg_s(a.z) }
}

pub open spec fn v3_dot_s(a: V3, b: V3) -> int {
    fx_add_s(fx_add_s(fx_mul_s(a.x, b.x), fx_mul_s(a.y, b.y)), fx_mul_s(a.z, b.z))
}

pub open spec fn v3_cross_s(a: V3, b: V3) -> V3 {
    V3 {
        x: fx_sub_s(fx_mul_s(a.y, b.z), fx_mul_s(a.z, b.y)),
        y: fx_sub_s(fx_mul_s(a.z, b.x), fx_mul_s(a.x, b.z)),
        z: fx_sub_s(fx_mul_s(a.x, b.y), fx_mul_s(a.y, b.x)),
    }
}

/// The exact (unsaturated) squared Euclidean norm.
pub open spec fn v3_norm_sq_s(a: V3) -> int {
    a.x * a.x + a.y * a.y + a.z * a.z
}

/// The fixed-point magnitude: the floor square root of the squared norm.
pub open spec fn v3_mag_s(a: V3) -> int {
    sqrt_floor(v3_norm_sq_s(a))
}

/// Rescale a vector to unit length; the zero vector stays zero.
pub open spec fn v3_normalize_s(a: V3) -> V3 {
    let mag = v3_mag_s(a);
    if mag == 0 {
        v3_zero_s()
    } else {
        V3 {
            x: sat64(tdiv(a.x * (FX_ONE as int), mag)),
            y: sat64(tdiv(a.y * (FX_ONE as int), mag)),
            z: sat64(tdiv(a.z * (FX_ONE as int), mag)),
        }
    }
}

pub open spec fn v4_add_s(a: V4, b: V4) -> V4 {
    V4 {
        x: fx_add_s(a.x, b.x),
        y: fx_add_s(a.y, b.y),
        z: fx_add_s(a.z, b.z),
        w: fx_add_s(a.w, b.w),
    }
}

pub open spec fn v4_scale_s(a: V4, k: int) -> V4 {
    V4 {
        x: fx_mul_s(a.x, k),
        y: fx_mul_s(a.y, k),
        z: fx_mul_s(a.z, k),
        w: fx_mul_s(a.w, k),
    }
}

/// The linear combination of a matrix's columns by a vector's components.
pub open spec fn m4_mul_v4_s(m: M4, v: V4) -> V4 {
    v4_add_s(
        v4_add_s(v4_scale_s(m.x_axis, v.x), v4_scale_s(m.y_axis, v.y)),
        v4_add_s(v4_scale_s(m.z_axis, v.z), v4_scale_s(m.w_axis, v.w)),
    )
}

/// Column-major matrix product: each column of `b` is mapped through `a`.
pub open spec fn m4_mul_s(a: M4, b: M4) -> M4 {
    M4 {
        x_axis: m4_mul_v4_s(a, b.x_axis),
        y_axis: m4_mul_v4_s(a, b.y_axis),
        z_axis: m4_mul_v4_s(a, b.z_axis),
        w_axis: m4_mul_v4_s(a, b.w_axis),
    }
}

impl Vec2Fx {
    /// The zero 2D vector.
    pub fn zero() -> (r: Vec2Fx)
        ensures
            r@ == v2_zero_s(),
    {
        Vec2Fx { x: 0, y: 0 }
    }
}

impl Vec3Fx {
    /// The zero 3D vector.
    pub fn zero() -> (r: Vec3Fx)
        ensures
            r@ == v3_zero_s(),
    {
        Vec3Fx { x: 0, y: 0, z: 0 }
    }

    /// The world-up axis.
    pub fn up() -> (r: Vec3Fx)
        ensures
            r@ == v3_up_s(),
    {
        Vec3Fx { x: 0, y: FX_ONE, z: 0 }
    }
}

pub fn v2_add(a: Vec2Fx, b: Vec2Fx) -> (r: Vec2Fx)
    ensures
        r@ == v2_add_s(a@, b@),
{
    Vec2Fx { x: fx_add(a.x, b.x), y: fx_add(a.y, b.y) }
}

pub fn v2_sub(a: Vec2Fx, b: Vec2Fx) -> (r: Vec2Fx)
    ensures
        r@ == v2_sub_s(a@, b@),
{
    Vec2Fx { x: fx_sub(a.x, b.x), y: fx_sub(a.y, b.y) }
}

pub fn v3_add(a: Vec3Fx, b: Vec3Fx) -> (r: Vec3Fx)
    ensures
        r@ == v3_add_s(a@, b@),
{
    Vec3Fx { x: fx_add(a.x, b.x), y: fx_add(a.y, b.y), z: fx_add(a.z, b.z) }
}

pub fn v3_sub(a: Vec3Fx, b: Vec3Fx) -> (r: Vec3Fx)
    ensures
        r@ == v3_sub_s(a@, b@),
{
    Vec3Fx { x: fx_sub(a.x, b.x), y: fx_sub(a.y, b.y), z: fx_sub(a.z, b.z) }
}

pub fn v3_scale(a: Vec3Fx, k: i64) -> (r: Vec3Fx)
    ensures
        r@ == v3_scale_s(a@, k as int),
{
    Vec3Fx { x: fx_mul(a.x, k), y: fx_mul(a.y, k), z: fx_mul(a.z, k) }
}

pub fn v3_neg(a: Vec3Fx) -> (r: Vec3Fx)
    ensures
        r@ == v3_neg_s(a@),
{
    Vec3Fx { x: fx_neg(a.x), y: fx_neg(a.y), z: fx_neg(a.z) }
}

pub fn v3_dot(a: Vec3Fx, b: Vec3Fx) -> (r: i64)
    ensures
        r as int == v3_dot_s(a@, b@),
{
    fx_add(fx_add(fx_mul(a.x, b.x), fx_mul(a.y, b.y)), fx_mul(a.z, b.z))
}

pub fn v3_cross(a: Vec3Fx, b: Vec3Fx) -> (r: Vec3Fx)
    ensures
        r@ == v3_cross_s(a@, b@),
{
    Vec3Fx {
        x: fx_sub(fx_mul(a.y, b.z), fx_mul(a.z, b.y)),
        y: fx_sub(fx_mul(a.z, b.x), fx_mul(a.x, b.z)),
        z: fx_sub(fx_mul(a.x, b.y), fx_mul(a.y, b.x)),
    }
}

/// One signed square, widened so the sum of three of them is exact.
fn square_to_u128(x: i64) -> (r: u128)
    ensures
        r as int == (x as int) * (x as int),
        r <= 0x4000_0000_0000_0000_0000_0000_0000_0000u128,
{
    proof {
        lemma_i64_product_fits(x as int, x as int);
        assert(0 <= (x as int) * (x as int)) by (nonlinear_arith);
    }
    let p: i128 = (x as i128) * (x as i128);
    p as u128
}

pub fn v3_normalize(a: Vec3Fx) -> (r: Vec3Fx)
    ensures
        r@ == v3_normalize_s(a@),
{
    let sum: u128 = square_to_u128(a.x) + square_to_u128(a.y) + square_to_u128(a.z);
    let mag: u64 = isqrt_u128(sum);
    if mag == 0 {
        Vec3Fx::zero()
    } else {
        proof {
            lemma_i64_product_fits(a.x as int, FX_ONE as int);
            lemma_i64_product_fits(a.y as int, FX_ONE as int);
            lemma_i64_product_fits(a.z as int, FX_ONE as int);
        }
        Vec3Fx {
            x: narrow_i128(tdiv_i128((a.x as i128) * (FX_ONE as i128), mag as i128)),
            y: narrow_i128(tdiv_i128((a.y as i128) * (FX_ONE as i128), mag as i128)),
            z: narrow_i128(tdiv_i128((a.z as i128) * (FX_ONE as i128), mag as i128)),
        }
    }
}

pub fn v4_add(a: Vec4Fx, b: Vec4Fx) -> (r: Vec4Fx)
    ensures
        r@ == v4_add_s(a@, b@),
{
    Vec4Fx { x: fx_add(a.x, b.x), y: fx_add(a.y, b.y), z: fx_add(a.z, b.z), w: fx_add(a.w, b.w) }
}

pub fn v4_scale(a: Vec4Fx, k: i64) -> (r: Vec4Fx)
    ensures
        r@ == v4_scale_s(a@, k as int),
{
    Vec4Fx { x: fx_mul(a.x, k), y: fx_mul(a.y, k), z: fx_mul(a.z, k), w: fx_mul(a.w, k) }
}

pub fn m4_mul_v4(m: &Mat4Fx, v: Vec4Fx) -> (r: Vec4Fx)
    ensures
        r@ == m4_mul_v4_s(m@, v@),
{
    v4_add(
        v4_add(v4_scale(m.x_axis, v.x), v4_scale(m.y_axis, v.y)),
        v4_add(v4_scale(m.z_axis, v.z), v4_scale(m.w_axis, v.w)),
    )
}

pub fn m4_mul(a: &Mat4Fx, b: &Mat4Fx) -> (r: Mat4Fx)
    ensures
        r@ == m4_mul_s(a@, b@),
{
    Mat4Fx {
        x_axis: m4_mul_v4(a, b.x_axis),
        y_axis: m4_mul_v4(a, b.y_axis),
        z_axis: m4_mul_v4(a, b.z_axis),
        w_axis: m4_mul_v4(a, b.w_axis),
    }
}

/// The identity matrix.
pub open spec fn m4_identity_s() -> M4 {
    M4 {
        x_axis: V4 { x: FX_ONE as int, y: 0, z: 0, w: 0 },
        y_axis: V4 { x: 0, y: FX_ONE as int, z: 0, w: 0 },
        z_axis: V4 { x: 0, y: 0, z: FX_ONE as int, w: 0 },
        w_axis: V4 { x: 0, y: 0, z: 0, w: FX_ONE as int },
    }
}

/// A diagonal scaling matrix.
pub open spec fn m4_from_scale_s(s: V3) -> M4 {
    M4 {
        x_axis: V4 { x: s.x, y: 0, z: 0, w: 0 },
        y_axis: V4 { x: 0, y: s.y, z: 0, w: 0 },
        z_axis: V4 { x: 0, y: 0, z: s.z, w: 0 },
        w_axis: V4 { x: 0, y: 0, z: 0, w: FX_ONE as int },
    }
}

/// A translation matrix.
pub open spec fn m4_from_translation_s(t: V3) -> M4 {
    M4 {
        x_axis: V4 { x: FX_ONE as int, y: 0, z: 0, w: 0 },
        y_axis: V4 { x: 0, y: FX_ONE as int, z: 0, w: 0 },
        z_axis: V4 { x: 0, y: 0, z: FX_ONE as int, w: 0 },
        w_axis: V4 { x: t.x, y: t.y, z: t.z, w: FX_ONE as int },
    }
}

/// A rotation about the x axis by an angle in fixed-point degrees.
pub open spec fn m4_from_rotation_x_s(d: int) -> M4 {
    let c = cos_fx_s(d);
    let s = sin_fx_s(d);
    M4 {
        x_axis: V4 { x: FX_ONE as int, y: 0, z: 0, w: 0 },
        y_axis: V4 { x: 0, y: c, z: s, w: 0 },
        z_axis: V4 { x: 0, y: -s, z: c, w: 0 },
        w_axis: V4 { x: 0, y: 0, z: 0, w: FX_ONE as int },
    }
}

/// A rotation about the y axis by an angle in fixed-point degrees.
pub open spec fn m4_from_rotation_y_s(d: int) -> M4 {
    let c = cos_fx_s(d);
    let s = sin_fx_s(d);
    M4 {
        x_axis: V4 { x: c, y: 0, z: -s, w: 0 },
        y_axis: V4 { x: 0, y: FX_ONE as int, z: 0, w: 0 },
        z_axis: V4 { x: s, y: 0, z: c, w: 0 },
        w_axis: V4 { x: 0, y: 0, z: 0, w: FX_ONE as int },
    }
}

/// A rotation about the z axis by an angle in fixed-point degrees.
pub open spec fn m4_from_rotation_z_s(d: int) -> M4 {
    let c = cos_fx_s(d);
    let s = sin_fx_s(d);
    M4 {
        x_axis: V4 { x: c, y: s, z: 0, w: 0 },
        y_axis: V4 { x: -s, y: c, z: 0, w: 0 },
        z_axis: V4 { x: 0, y: 0, z: FX_ONE as int, w: 0 },
        w_axis: V4 { x: 0, y: 0, z: 0, w: FX_ONE as int },
    }
}

/// A right-handed look-at view matrix.
pub open spec fn m4_look_at_rh_s(eye: V3, center: V3, up: V3) -> M4 {
    let f = v3_normalize_s(v3_sub_s(center, eye));
    let s = v3_normalize_s(v3_cross_s(f, up));
    let u = v3_cross_s(s, f);
    M4 {
        x_axis: V4 { x: s.x, y: u.x, z: fx_neg_s(f.x), w: 0 },
        y_axis: V4 { x: s.y, y: u.y, z: fx_neg_s(f.y), w: 0 },
        z_axis: V4 { x: s.z, y: u.z, z: fx_neg_s(f.z), w: 0 },
        w_axis: V4 {
            x: fx_neg_s(v3_dot_s(s, eye)),
            y: fx_neg_s(v3_dot_s(u, eye)),
            z: v3_dot_s(f, eye),
            w: FX_ONE as int,
        },
    }
}

/// A right-handed perspective projection.  The field of view is the vertical
/// opening angle in fixed-point degrees.
pub open spec fn m4_perspective_rh_s(fov_deg: int, aspect: int, near: int, far: int) -> M4 {
    let half = sat64(tdiv(fov_deg, 2));
    let h = fx_div_s(cos_fx_s(half), sin_fx_s(half));
    let w = fx_div_s(h, aspect);
    let r = fx_div_s(far, fx_sub_s(near, far));
    M4 {
        x_axis: V4 { x: w, y: 0, z: 0, w: 0 },
        y_axis: V4 { x: 0, y: h, z: 0, w: 0 },
        z_axis: V4 { x: 0, y: 0, z: r, w: -(FX_ONE as int) },
        w_axis: V4 { x: 0, y: 0, z: fx_mul_s(r, near), w: 0 },
    }
}

/// The identity matrix.
pub fn m4_identity() -> (r: Mat4Fx)
    ensures
        r@ == m4_identity_s(),
{
    Mat4Fx {
        x_axis: Vec4Fx { x: FX_ONE, y: 0, z: 0, w: 0 },
        y_axis: Vec4Fx { x: 0, y: FX_ONE, z: 0, w: 0 },
        z_axis: Vec4Fx { x: 0, y: 0, z: FX_ONE, w: 0 },
        w_axis: Vec4Fx { x: 0, y: 0, z: 0, w: FX_ONE },
    }
}

/// A diagonal scaling matrix.
pub fn m4_from_scale(s: Vec3Fx) -> (r: Mat4Fx)
    ensures
        r@ == m4_from_scale_s(s@),
{
    Mat4Fx {
        x_axis: Vec4Fx { x: s.x, y: 0, z: 0, w: 0 },
        y_axis: Vec4Fx { x: 0, y: s.y, z: 0, w: 0 },
        z_axis: Vec4Fx { x: 0, y: 0, z: s.z, w: 0 },
        w_axis: Vec4Fx { x: 0, y: 0, z: 0, w: FX_ONE },
    }
}

/// A translation matrix.
pub fn m4_from_translation(t: Vec3Fx) -> (r: Mat4Fx)
    ensures
        r@ == m4_from_translation_s(t@),
{
    Mat4Fx {
        x_axis: Vec4Fx { x: FX_ONE, y: 0, z: 0, w: 0 },
        y_axis: Vec4Fx { x: 0, y: FX_ONE, z: 0, w: 0 },
        z_axis: Vec4Fx { x: 0, y: 0, z: FX_ONE, w: 0 },
        w_axis: Vec4Fx { x: t.x, y: t.y, z: t.z, w: FX_ONE },
    }
}

/// A rotation about the x axis by an angle in fixed-point degrees.
pub fn m4_from_rotation_x(d: i64) -> (r: Mat4Fx)
    ensures
        r@ == m4_from_rotation_x_s(d as int),
{
    let c = cos_fx(d);
    let s = sin_fx(d);
    Mat4Fx {
        x_axis: Vec4Fx { x: FX_ONE, y: 0, z: 0, w: 0 },
        y_axis: Vec4Fx { x: 0, y: c, z: s, w: 0 },
        z_axis: Vec4Fx { x: 0, y: -s, z: c, w: 0 },
        w_axis: Vec4Fx { x: 0, y: 0, z: 0, w: FX_ONE },
    }
}

/// A rotation about the y axis by an angle in fixed-point degrees.
pub fn m4_from_rotation_y(d: i64) -> (r: Mat4Fx)
    ensures
        r@ == m4_from_rotation_y_s(d as int),
{
    let c = cos_fx(d);
    let s = sin_fx(d);
    Mat4Fx {
        x_axis: Vec4Fx { x: c, y: 0, z: -s, w: 0 },
        y_axis: Vec4Fx { x: 0, y: FX_ONE, z: 0, w: 0 },
        z_axis: Vec4Fx { x: s, y: 0, z: c, w: 0 },
        w_axis: Vec4Fx { x: 0, y: 0, z: 0, w: FX_ONE },
    }
}

/// A rotation about the z axis by an angle in fixed-point degrees.
pub fn m4_from_rotation_z(d: i64) -> (r: Mat4Fx)
    ensures
        r@ == m4_from_rotation_z_s(d as int),
{
    let c = cos_fx(d);
    let s = sin_fx(d);
    Mat4Fx {
        x_axis: Vec4Fx { x: c, y: s, z: 0, w: 0 },
        y_axis: Vec4Fx { x: -s, y: c, z: 0, w: 0 },
        z_axis: Vec4Fx { x: 0, y: 0, z: FX_ONE, w: 0 },
        w_axis: Vec4Fx { x: 0, y: 0, z: 0, w: FX_ONE },
    }
}

/// A right-handed look-at view matrix.
pub fn m4_look_at_rh(eye: Vec3Fx, center: Vec3Fx, up: Vec3Fx) -> (r: Mat4Fx)
    ensures
        r@ == m4_look_at_rh_s(eye@, center@, up@),
{
    let f = v3_normalize(v3_sub(center, eye));
    let s = v3_normalize(v3_cross(f, up));
    let u = v3_cross(s, f);
    Mat4Fx {
        x_axis: Vec4Fx { x: s.x, y: u.x, z: fx_neg(f.x), w: 0 },
        y_axis: Vec4Fx { x: s.y, y: u.y, z: fx_neg(f.y), w: 0 },
        z_axis: Vec4Fx { x: s.z, y: u.z, z: fx_neg(f.z), w: 0 },
        w_axis: Vec4Fx {
            x: fx_neg(v3_dot(s, eye)),
            y: fx_neg(v3_dot(u, eye)),
            z: v3_dot(f, eye),
            w: FX_ONE,
        },
    }
}

/// A right-handed perspective projection from a vertical field of view in
/// fixed-point degrees.
pub fn m4_perspective_rh(fov_deg: i64, aspect: i64, near: i64, far: i64) -> (r: Mat4Fx)
    ensures
        r@ == m4_perspective_rh_s(fov_deg as int, aspect as int, near as int, far as int),
{
    let half = narrow_i128(tdiv_i128(fov_deg as i128, 2));
    let h = fx_div(cos_fx(half), sin_fx(half));
    let w = fx_div(h, aspect);
    let r = fx_div(far, fx_sub(near, far));
    Mat4Fx {
        x_axis: Vec4Fx { x: w, y: 0, z: 0, w: 0 },
        y_axis: Vec4Fx { x: 0, y: h, z: 0, w: 0 },
        z_axis: Vec4Fx { x: 0, y: 0, z: r, w: -FX_ONE },
        w_axis: Vec4Fx { x: 0, y: 0, z: fx_mul(r, near), w: 0 },
    }
}

} // verus!
