//! Fixed-point 4x4 matrix math for the per-frame transforms.
//!
//! Matrices are column-major, as the GPU expects them, with entries in
//! fixed-point units: the value one is `SCALE`.  The host computes the
//! trigonometric scalars (sine, cosine, the focal factor of the projection)
//! and hands them in as fixed-point values; everything composed from them
//! here is exact integer arithmetic.

use vstd::prelude::*;
use crate::fixed::{div_trunc, fp_mul, fp_mul_spec, lemma_fp_mul_one, lemma_fp_mul_zero, mag, SCALE};

verus! {

/// Entry bound asked of the left operand of a multiplication.
pub const ENTRY_LIMIT: i64 = 0x100_0000;

/// Near clipping plane of the projection, in scene units.
pub const NEAR_PLANE: i64 = 1;

/// Far clipping plane of the projection, in scene units.
pub const FAR_PLANE: i64 = 100;

/// The cube sits this far in front of the camera, in scene units.
pub const VIEW_DISTANCE: i64 = 6;

/// One column of a matrix, as unbounded integers.
pub ghost struct ColumnModel {
    pub x: int,
    pub y: int,
    pub z: int,
    pub w: int,
}

/// A whole matrix, as unbounded integers, column-major.
pub ghost struct MatrixModel {
    pub c0: ColumnModel,
    pub c1: ColumnModel,
    pub c2: ColumnModel,
    pub c3: ColumnModel,
}

/// One column of a fixed-point matrix.
pub struct Col4 {
    pub x: i64,
    pub y: i64,
    pub z: i64,
    pub w: i64,
}

/// A fixed-point 4x4 matrix, column-major.
pub struct Mat4 {
    pub c0: Col4,
    pub c1: Col4,
    pub c2: Col4,
    pub c3: Col4,
}

impl View for Col4 {
    type V = ColumnModel;

    open spec fn view(&self) -> ColumnModel {
        ColumnModel { x: self.x as int, y: self.y as int, z: self.z as int, w: self.w as int }
    }
}

impl View for Mat4 {
    type V = MatrixModel;

    open spec fn view(&self) -> MatrixModel {
        MatrixModel { c0: self.c0@, c1: self.c1@, c2: self.c2@, c3: self.c3@ }
    }
}

/// All entries of a column have magnitude at most `k`.
pub open spec fn column_bounded(v: ColumnModel, k: int) -> bool {
    mag(v.x) <= k && mag(v.y) <= k && mag(v.z) <= k && mag(v.w) <= k
}

/// All entries of a matrix have magnitude at most `k`.
pub open spec fn matrix_bounded(m: MatrixModel, k: int) -> bool {
    column_bounded(m.c0, k) && column_bounded(m.c1, k) && column_bounded(m.c2, k)
        && column_bounded(m.c3, k)
}

/// The image of column `v` under matrix `a`: the fixed-point linear
/// combination of `a`'s columns by the entries of `v`.
pub open spec fn transform_column(a: MatrixModel, v: ColumnModel) -> ColumnModel {
    ColumnModel {
        x: fp_mul_spec(a.c0.x, v.x) + fp_mul_spec(a.c1.x, v.y) + fp_mul_spec(a.c2.x, v.z)
            + fp_mul_spec(a.c3.x, v.w),
        y: fp_mul_spec(a.c0.y, v.x) + fp_mul_spec(a.c1.y, v.y) + fp_mul_spec(a.c2.y, v.z)
            + fp_mul_spec(a.c3.y, v.w),
        z: fp_mul_spec(a.c0.z, v.x) + fp_mul_spec(a.c1.z, v.y) + fp_mul_spec(a.c2.z, v.z)
            + fp_mul_spec(a.c3.z, v.w),
        w: fp_mul_spec(a.c0.w, v.x) + fp_mul_spec(a.c1.w, v.y) + fp_mul_spec(a.c2.w, v.z)
            + fp_mul_spec(a.c3.w, v.w),
    }
}

/// Fixed-point matrix product `a * b`, column by column.
pub open spec fn mat_mul_spec(a: MatrixModel, b: MatrixModel) -> MatrixModel {
    MatrixModel {
        c0: transform_column(a, b.c0),
        c1: transform_column(a, b.c1),
        c2: transform_column(a, b.c2),
        c3: transform_column(a, b.c3),
    }
}

/// Translation by `(tx, ty, tz)` (fixed-point): identity rotation block,
/// translation in the last column.
pub open spec fn translation_spec(tx: int, ty: int, tz: int) -> MatrixModel {
    MatrixModel {
        c0: ColumnModel { x: SCALE as int, y: 0, z: 0, w: 0 },
        c1: ColumnModel { x: 0, y: SCALE as int, z: 0, w: 0 },
        c2: ColumnModel { x: 0, y: 0, z: SCALE as int, w: 0 },
        c3: ColumnModel { x: tx, y: ty, z: tz, w: SCALE as int },
    }
}

/// Rotation about the X axis with cosine `c` and sine `s` (fixed-point).
pub open spec fn rotation_x_spec(c: int, s: int) -> MatrixModel {
    MatrixModel {
        c0: ColumnModel { x: SCALE as int, y: 0, z: 0, w: 0 },
        c1: ColumnModel { x: 0, y: c, z: s, w: 0 },
        c2: ColumnModel { x: 0, y: -s, z: c, w: 0 },
        c3: ColumnModel { x: 0, y: 0, z: 0, w: SCALE as int },
    }
}

/// Rotation about the Y axis with cosine `c` and sine `s` (fixed-point).
pub open spec fn rotation_y_spec(c: int, s: int) -> MatrixModel {
    MatrixModel {
        c0: ColumnModel { x: c, y: 0, z: -s, w: 0 },
        c1: ColumnModel { x: 0, y: SCALE as int, z: 0, w: 0 },
        c2: ColumnModel { x: s, y: 0, z: c, w: 0 },
        c3: ColumnModel { x: 0, y: 0, z: 0, w: SCALE as int },
    }
}

/// The model-view matrix: identity, then translation by
/// `(0, 0, -VIEW_DISTANCE)`, then rotation about X by `phi`, then rotation
/// about Y by `theta`, composed in exactly that order.
pub open spec fn model_view_spec(cos_phi: int, sin_phi: int, cos_theta: int, sin_theta: int)
    -> MatrixModel {
    mat_mul_spec(
        mat_mul_spec(
            translation_spec(0, 0, -VIEW_DISTANCE * SCALE),
            rotation_x_spec(cos_phi, sin_phi),
        ),
        rotation_y_spec(cos_theta, sin_theta),
    )
}

/// The perspective projection with a vertical field of view whose cotangent
/// of the half-angle is `focal`, aspect ratio `width / height`, near plane
/// `NEAR_PLANE` and far plane `FAR_PLANE`.
pub open spec fn perspective_spec(focal: int, width: int, height: int) -> MatrixModel {
    MatrixModel {
        c0: ColumnModel { x: div_trunc(focal * height, width), y: 0, z: 0, w: 0 },
        c1: ColumnModel { x: 0, y: focal, z: 0, w: 0 },
        c2: ColumnModel {
            x: 0,
            y: 0,
            z: -div_trunc((FAR_PLANE + NEAR_PLANE) * SCALE, FAR_PLANE - NEAR_PLANE),
            w: -(SCALE as int),
        },
        c3: ColumnModel {
            x: 0,
            y: 0,
            z: -div_trunc(2 * FAR_PLANE * NEAR_PLANE * SCALE, FAR_PLANE - NEAR_PLANE),
            w: 0,
        },
    }
}

/// Builds the translation matrix for `(tx, ty, tz)`.
pub fn translation(tx: i64, ty: i64, tz: i64) -> (r: Mat4)
    ensures
        r@ == translation_spec(tx as int, ty as int, tz as int),
{
    Mat4 {
        c0: Col4 { x: SCALE, y: 0, z: 0, w: 0 },
        c1: Col4 { x: 0, y: SCALE, z: 0, w: 0 },
        c2: Col4 { x: 0, y: 0, z: SCALE, w: 0 },
        c3: Col4 { x: tx, y: ty, z: tz, w: SCALE },
    }
}

/// Builds the rotation about X from a fixed-point cosine and sine.
pub fn rotation_x(c: i64, s: i64) -> (r: Mat4)
    requires
        mag(c as int) <= SCALE as int,
        mag(s as int) <= SCALE as int,
    ensures
        r@ == rotation_x_spec(c as int, s as int),
        matrix_bounded(r@, SCALE as int),
{
    Mat4 {
        c0: Col4 { x: SCALE, y: 0, z: 0, w: 0 },
        c1: Col4 { x: 0, y: c, z: s, w: 0 },
        c2: Col4 { x: 0, y: -s, z: c, w: 0 },
        c3: Col4 { x: 0, y: 0, z: 0, w: SCALE },
    }
}

/// Builds the rotation about Y from a fixed-point cosine and sine.
pub fn rotation_y(c: i64, s: i64) -> (r: Mat4)
    requires
        mag(c as int) <= SCALE as int,
        mag(s as int) <= SCALE as int,
    ensures
        r@ == rotation_y_spec(c as int, s as int),
        matrix_bounded(r@, SCALE as int),
{
    Mat4 {
        c0: Col4 { x: c, y: 0, z: -s, w: 0 },
        c1: Col4 { x: 0, y: SCALE, z: 0, w: 0 },
        c2: Col4 { x: s, y: 0, z: c, w: 0 },
        c3: Col4 { x: 0, y: 0, z: 0, w: SCALE },
    }
}

/// Transforms one column of `b` by `a`.
fn multiply_column(a: &Mat4, v: &Col4) -> (r: Col4)
    requires
        matrix_bounded(a@, ENTRY_LIMIT as int),
        column_bounded(v@, SCALE as int),
    ensures
        r@ == transform_column(a@, v@),
        mag(r@.x) <= mag(a@.c0.x) + mag(a@.c1.x) + mag(a@.c2.x) + mag(a@.c3.x),
        mag(r@.y) <= mag(a@.c0.y) + mag(a@.c1.y) + mag(a@.c2.y) + mag(a@.c3.y),
        mag(r@.z) <= mag(a@.c0.z) + mag(a@.c1.z) + mag(a@.c2.z) + mag(a@.c3.z),
        mag(r@.w) <= mag(a@.c0.w) + mag(a@.c1.w) + mag(a@.c2.w) + mag(a@.c3.w),
{
    Col4 {
        x: fp_mul(a.c0.x, v.x) + fp_mul(a.c1.x, v.y) + fp_mul(a.c2.x, v.z) + fp_mul(a.c3.x, v.w),
        y: fp_mul(a.c0.y, v.x) + fp_mul(a.c1.y, v.y) + fp_mul(a.c2.y, v.z) + fp_mul(a.c3.y, v.w),
        z: fp_mul(a.c0.z, v.x) + fp_mul(a.c1.z, v.y) + fp_mul(a.c2.z, v.z) + fp_mul(a.c3.z, v.w),
        w: fp_mul(a.c0.w, v.x) + fp_mul(a.c1.w, v.y) + fp_mul(a.c2.w, v.z) + fp_mul(a.c3.w, v.w),
    }
}

/// Fixed-point matrix product `a * b`.
///
/// The right operand is expected to be a rotation, whose entries stay within
/// the fixed-point one; each entry of the product is then bounded by the sum
/// of the magnitudes of the matching row of `a`.
pub fn multiply(a: &Mat4, b: &Mat4) -> (r: Mat4)
    requires
        matrix_bounded(a@, ENTRY_LIMIT as int),
        matrix_bounded(b@, SCALE as int),
    ensures
        r@ == mat_mul_spec(a@, b@),
        matrix_bounded(r@, 4 * ENTRY_LIMIT as int),
{
    Mat4 {
        c0: multiply_column(a, &b.c0),
        c1: multiply_column(a, &b.c1),
        c2: multiply_column(a, &b.c2),
        c3: multiply_column(a, &b.c3),
    }
}

/// Computes the model-view matrix for the accumulated angles: translate the
/// cube `VIEW_DISTANCE` units in front of the camera, rotate about X by
/// `phi`, then about Y by `theta`.  The host supplies the fixed-point cosine
/// and sine of each angle.
pub fn model_view(cos_phi: i64, sin_phi: i64, cos_theta: i64, sin_theta: i64) -> (r: Mat4)
    requires
        mag(cos_phi as int) <= SCALE as int,
        mag(sin_phi as int) <= SCALE as int,
        mag(cos_theta as int) <= SCALE as int,
        mag(sin_theta as int) <= SCALE as int,
    ensures
        r@ == model_view_spec(cos_phi as int, sin_phi as int, cos_theta as int, sin_theta as int),
        matrix_bounded(r@, 4 * ENTRY_LIMIT as int),
{
    let t = translation(0, 0, -VIEW_DISTANCE * SCALE);
    let rx = rotation_x(cos_phi, sin_phi);
    let tr = multiply(&t, &rx);
    let ry = rotation_y(cos_theta, sin_theta);
    multiply(&tr, &ry)
}

/// Computes the perspective projection matrix for the current canvas extent.
/// `focal` is the fixed-point cotangent of half the vertical field of view
/// (the host computes it once for the fixed 45 degree field).
pub fn perspective(focal: i64, width: u32, height: u32) -> (r: Mat4)
    requires
        0 < focal <= 0x4000_0000,
        0 < width,
        0 < height <= 16384,
    ensures
        r@ == perspective_spec(focal as int, width as int, height as int),
{
    proof {
        assert(mag((focal as int) * (height as int)) <= 0x4000_0000int * 16384int)
            by (nonlinear_arith)
            requires 0 < focal <= 0x4000_0000 && 0 < height <= 16384;
    }
    let fh: i64 = focal * (height as i64);
    let fa: i64 = fh / (width as i64);
    Mat4 {
        c0: Col4 { x: fa, y: 0, z: 0, w: 0 },
        c1: Col4 { x: 0, y: focal, z: 0, w: 0 },
        c2: Col4 {
            x: 0,
            y: 0,
            z: -(((FAR_PLANE + NEAR_PLANE) * SCALE) / (FAR_PLANE - NEAR_PLANE)),
            w: -SCALE,
        },
        c3: Col4 {
            x: 0,
            y: 0,
            z: -((2 * FAR_PLANE * NEAR_PLANE * SCALE) / (FAR_PLANE - NEAR_PLANE)),
            w: 0,
        },
    }
}

/// Rotation order is not commutative: for any angle with a nonzero sine,
/// rotating by `theta` alone and rotating by `phi` alone produce different
/// model-view matrices.
pub proof fn lemma_rotation_order_noncommutative(c: int, s: int)
    requires
        s != 0,
        mag(c) <= SCALE as int,
        mag(s) <= SCALE as int,
    ensures
        model_view_spec(SCALE as int, 0, c, s) != model_view_spec(c, s, SCALE as int, 0),
{
    let one = SCALE as int;
    let t = translation_spec(0, 0, -VIEW_DISTANCE * SCALE);
    let theta_only = model_view_spec(one, 0, c, s);
    let phi_only = model_view_spec(c, s, one, 0);

    let tr_a = mat_mul_spec(t, rotation_x_spec(one, 0));
    let tr_b = mat_mul_spec(t, rotation_x_spec(c, s));

    lemma_fp_mul_one(one);
    lemma_fp_mul_one(0);
    lemma_fp_mul_one(c);
    lemma_fp_mul_one(s);
    lemma_fp_mul_zero(one);
    lemma_fp_mul_zero(0);
    lemma_fp_mul_zero(c);
    lemma_fp_mul_zero(s);
    lemma_fp_mul_zero(-VIEW_DISTANCE * SCALE);

    assert(tr_a.c0.x == one && tr_a.c1.x == 0 && tr_a.c2.x == 0 && tr_a.c3.x == 0);
    assert(tr_b.c0.x == one && tr_b.c1.x == 0 && tr_b.c2.x == 0 && tr_b.c3.x == 0);
    assert(theta_only.c2.x == fp_mul_spec(one, s) + fp_mul_spec(0, 0) + fp_mul_spec(0, c)
        + fp_mul_spec(0, 0));
    assert(theta_only.c2.x == s);
    assert(phi_only.c2.x == fp_mul_spec(one, 0) + fp_mul_spec(0, 0) + fp_mul_spec(0, one)
        + fp_mul_spec(0, 0));
    assert(phi_only.c2.x == 0);
}

} // verus!
