use cube_engine::matrix::{model_view, multiply, perspective, rotation_x, rotation_y, translation};

// cos(45 degrees) * 65536 and sin(45 degrees) * 65536, truncated.
const COS_45: i64 = 46340;
const SIN_45: i64 = 46340;

// cot(22.5 degrees) * 65536, truncated: the focal factor of the fixed
// 45 degree vertical field of view.
const FOCAL_45: i64 = 158218;

#[test]
fn model_view_of_rest_is_the_translation() {
    let m = model_view(65536, 0, 65536, 0);
    // identity rotation block, scaled by the fixed-point one
    assert_eq!(m.c0.x, 65536);
    assert_eq!(m.c1.y, 65536);
    assert_eq!(m.c2.z, 65536);
    assert_eq!(m.c3.w, 65536);
    // the cube sits six units down the view axis
    assert_eq!(m.c3.x, 0);
    assert_eq!(m.c3.y, 0);
    assert_eq!(m.c3.z, -6 * 65536);
    // no stray rotation terms
    assert_eq!(m.c0.y, 0);
    assert_eq!(m.c0.z, 0);
    assert_eq!(m.c1.x, 0);
    assert_eq!(m.c2.x, 0);
}

#[test]
fn model_view_theta_only_rotates_about_y() {
    let m = model_view(65536, 0, COS_45, SIN_45);
    assert_eq!(m.c0.x, COS_45);
    assert_eq!(m.c2.x, SIN_45);
    assert_eq!(m.c0.z, -SIN_45);
    assert_eq!(m.c2.z, COS_45);
    assert_eq!(m.c1.y, 65536);
    assert_eq!(m.c3.z, -6 * 65536);
}

#[test]
fn model_view_phi_only_rotates_about_x() {
    let m = model_view(COS_45, SIN_45, 65536, 0);
    assert_eq!(m.c1.y, COS_45);
    assert_eq!(m.c1.z, SIN_45);
    assert_eq!(m.c2.y, -SIN_45);
    assert_eq!(m.c2.z, COS_45);
    assert_eq!(m.c0.x, 65536);
}

#[test]
fn rotation_order_is_not_commutative() {
    // rotating by theta alone and by phi alone give different matrices
    let theta_only = model_view(65536, 0, COS_45, SIN_45);
    let phi_only = model_view(COS_45, SIN_45, 65536, 0);
    assert_eq!(theta_only.c2.x, SIN_45);
    assert_eq!(phi_only.c2.x, 0);
    assert_ne!(theta_only.c2.x, phi_only.c2.x);
}

#[test]
fn perspective_uses_current_aspect_and_depth_range() {
    let p = perspective(FOCAL_45, 800, 600);
    // focal / aspect == focal * height / width == 158218 * 600 / 800
    assert_eq!(p.c0.x, 118663);
    assert_eq!(p.c1.y, FOCAL_45);
    // (far + near) / (near - far) == -101/99 in fixed point
    assert_eq!(p.c2.z, -66859);
    assert_eq!(p.c2.w, -65536);
    // 2 * far * near / (near - far) == -200/99 in fixed point
    assert_eq!(p.c3.z, -132395);
    assert_eq!(p.c3.w, 0);
    assert_eq!(p.c0.y, 0);
    assert_eq!(p.c1.x, 0);
}

#[test]
fn perspective_square_canvas_keeps_focal() {
    let p = perspective(FOCAL_45, 640, 640);
    assert_eq!(p.c0.x, FOCAL_45);
    assert_eq!(p.c1.y, FOCAL_45);
}

#[test]
fn multiplying_by_identity_rotation_changes_nothing() {
    let t = translation(0, 0, -6 * 65536);
    let rx = rotation_x(65536, 0);
    let m = multiply(&t, &rx);
    assert_eq!(m.c0.x, t.c0.x);
    assert_eq!(m.c1.y, t.c1.y);
    assert_eq!(m.c2.z, t.c2.z);
    assert_eq!(m.c3.x, t.c3.x);
    assert_eq!(m.c3.y, t.c3.y);
    assert_eq!(m.c3.z, t.c3.z);
    assert_eq!(m.c3.w, t.c3.w);
}

#[test]
fn rotation_constructors_place_sine_and_cosine() {
    let rx = rotation_x(COS_45, SIN_45);
    assert_eq!(rx.c1.y, COS_45);
    assert_eq!(rx.c1.z, SIN_45);
    assert_eq!(rx.c2.y, -SIN_45);
    let ry = rotation_y(COS_45, SIN_45);
    assert_eq!(ry.c0.x, COS_45);
    assert_eq!(ry.c0.z, -SIN_45);
    assert_eq!(ry.c2.x, SIN_45);
}
