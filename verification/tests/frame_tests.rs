use cube_engine::frame::{build_frame_plan, should_reschedule};
use cube_engine::rotation::RotationState;

// cot(22.5 degrees) * 65536, truncated.
const FOCAL_45: i64 = 158218;

#[test]
fn drag_then_frame_uses_current_extent_and_angles() {
    // an 800x600 canvas, a drag of 80 pixels in x: a tenth of a turn
    let mut rot = RotationState::new();
    rot.on_pointer_down();
    rot.on_pointer_move(80, 0, 800, 600);
    assert_eq!(rot.theta(), 41177);
    assert_eq!(rot.phi(), 0);
    // while dragging the tick leaves the angles alone
    rot.tick();
    assert_eq!(rot.theta(), 41177);

    // phi stayed zero, so the host's trigonometric scalars for it are 1 and 0
    let plan = build_frame_plan(65536, 0, 53019, 38524, FOCAL_45, 800, 600);
    assert_eq!(plan.viewport_width, 800);
    assert_eq!(plan.viewport_height, 600);
    // projection: fov 45 degrees, aspect 800/600, near 1, far 100
    assert_eq!(plan.projection.c0.x, 118663);
    assert_eq!(plan.projection.c1.y, FOCAL_45);
    assert_eq!(plan.projection.c2.z, -66859);
    assert_eq!(plan.projection.c2.w, -65536);
    assert_eq!(plan.projection.c3.z, -132395);
    // model-view: rotation about Y only, translation six units out
    assert_eq!(plan.model_view.c0.x, 53019);
    assert_eq!(plan.model_view.c2.x, 38524);
    assert_eq!(plan.model_view.c0.z, -38524);
    assert_eq!(plan.model_view.c3.z, -6 * 65536);
}

#[test]
fn plan_carries_the_fixed_draw_parameters() {
    let plan = build_frame_plan(65536, 0, 65536, 0, FOCAL_45, 640, 480);
    assert_eq!(plan.position_components, 3);
    assert_eq!(plan.color_components, 4);
    assert_eq!(plan.vertex_count, 36);
    // clear to opaque black and the far depth, with depth testing on
    assert_eq!(plan.clear_color, [0, 0, 0, 65536]);
    assert_eq!(plan.clear_depth, 65536);
    assert!(plan.depth_test);
}

#[test]
fn failed_draw_stops_the_loop() {
    assert!(!should_reschedule(false));
    assert!(should_reschedule(true));
}
