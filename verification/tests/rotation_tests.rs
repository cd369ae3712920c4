use cube_engine::rotation::RotationState;

// One fixed-point turn per canvas width: 80 pixels on an 800-wide canvas is
// a tenth of a turn, 80 * 411775 / 800 == 41177 (truncated).
const DRAG_80_OF_800: i64 = 41177;

#[test]
fn drag_accumulates_move_delta() {
    let mut rot = RotationState::new();
    rot.on_pointer_down();
    rot.on_pointer_move(80, 0, 800, 600);
    assert_eq!(rot.theta(), DRAG_80_OF_800);
    assert_eq!(rot.phi(), 0);
}

#[test]
fn drag_sums_several_moves() {
    let mut rot = RotationState::new();
    rot.on_pointer_down();
    rot.on_pointer_move(80, 0, 800, 600);
    rot.on_pointer_move(40, 0, 800, 600);
    rot.on_pointer_up();
    // 40 * 411775 / 800 == 20588 (truncated)
    assert_eq!(rot.theta(), DRAG_80_OF_800 + 20588);
    assert_eq!(rot.phi(), 0);
    assert!(!rot.dragging());
}

#[test]
fn vertical_movement_drives_phi() {
    let mut rot = RotationState::new();
    rot.on_pointer_down();
    rot.on_pointer_move(0, 60, 800, 600);
    // 60 * 411775 / 600 == 41177 (truncated)
    assert_eq!(rot.theta(), 0);
    assert_eq!(rot.phi(), 41177);
}

#[test]
fn negative_movement_rotates_backward() {
    let mut rot = RotationState::new();
    rot.on_pointer_down();
    rot.on_pointer_move(-80, 0, 800, 600);
    assert_eq!(rot.theta(), -DRAG_80_OF_800);
}

#[test]
fn move_without_drag_is_ignored() {
    let mut rot = RotationState::new();
    rot.on_pointer_move(80, 40, 800, 600);
    assert_eq!(rot.theta(), 0);
    assert_eq!(rot.phi(), 0);
}

#[test]
fn pointer_leave_ends_drag() {
    let mut rot = RotationState::new();
    rot.on_pointer_down();
    rot.on_pointer_leave();
    rot.on_pointer_move(80, 0, 800, 600);
    assert_eq!(rot.theta(), 0);
}

#[test]
fn tick_while_dragging_changes_nothing() {
    let mut rot = RotationState::new();
    rot.on_pointer_down();
    rot.on_pointer_move(80, 0, 800, 600);
    rot.tick();
    assert_eq!(rot.theta(), DRAG_80_OF_800);
}

#[test]
fn idle_ticks_decay_velocity_geometrically() {
    let mut rot = RotationState::new();
    rot.on_pointer_down();
    rot.on_pointer_move(80, 0, 800, 600);
    rot.on_pointer_up();
    // velocity 41177 decays by 19/20 each idle tick and is added to theta
    rot.tick();
    // 41177 * 19 / 20 == 39118
    assert_eq!(rot.theta(), 41177 + 39118);
    rot.tick();
    // 39118 * 19 / 20 == 37162
    assert_eq!(rot.theta(), 41177 + 39118 + 37162);
}

#[test]
fn released_velocity_is_decayed_n_times() {
    let mut rot = RotationState::new();
    rot.on_pointer_down();
    rot.on_pointer_move(80, 0, 800, 600);
    rot.on_pointer_up();
    let mut expected: i64 = DRAG_80_OF_800;
    for _ in 0..20 {
        rot.tick();
        expected = expected * 19 / 20;
        assert_eq!(rot.velocity_x(), expected);
        assert_eq!(rot.velocity_y(), 0);
    }
}

#[test]
fn coasting_angle_stays_within_geometric_limit() {
    let mut rot = RotationState::new();
    rot.on_pointer_down();
    rot.on_pointer_move(80, 0, 800, 600);
    rot.on_pointer_up();
    let released = rot.theta();
    for _ in 0..1000 {
        rot.tick();
    }
    // the whole coast is below 19 times the released velocity
    assert!(rot.theta() - released <= 19 * DRAG_80_OF_800);
    // and the velocity has fully died out by then
    let settled = rot.theta();
    rot.tick();
    assert_eq!(rot.theta(), settled);
}
