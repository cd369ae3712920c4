//! Per-frame orchestration.
//!
//! Each tick the loop advances the rotation state
//! ([`crate::rotation::RotationState::tick`]), has the host read the current
//! canvas extent and the trigonometric scalars of the new angles, and builds
//! the frame's draw plan here: both matrices and every fixed draw parameter.
//! The aspect ratio comes from the extent passed in for this very frame, so
//! a resized canvas is never rendered with a stale ratio.

use vstd::prelude::*;
use crate::fixed::{mag, SCALE};
use crate::matrix::{
    matrix_bounded, model_view, model_view_spec, perspective, perspective_spec, Mat4, ENTRY_LIMIT,
};

verus! {

/// Everything the host needs to issue one frame's draw calls.
pub struct FramePlan {
    /// Viewport width: the canvas width of this frame, in pixels.
    pub viewport_width: u32,
    /// Viewport height: the canvas height of this frame, in pixels.
    pub viewport_height: u32,
    /// Perspective projection for this frame's aspect ratio.
    pub projection: Mat4,
    /// Model-view transform for the current rotation angles.
    pub model_view: Mat4,
    /// Components per vertex of the position attribute.
    pub position_components: u32,
    /// Components per vertex of the color attribute.
    pub color_components: u32,
    /// Number of indices of the indexed triangle draw.
    pub vertex_count: u32,
    /// Fixed-point red, green, blue and alpha of the clear color: opaque black.
    pub clear_color: [i64; 4],
    /// Fixed-point depth the depth buffer is cleared to: the far value, one.
    pub clear_depth: i64,
    /// Depth testing is always on.
    pub depth_test: bool,
}

/// Builds the draw plan of one frame from the fixed-point cosine and sine
/// of the two current angles, the projection's focal factor, and the canvas
/// extent read this frame.
pub fn build_frame_plan(
    cos_phi: i64,
    sin_phi: i64,
    cos_theta: i64,
    sin_theta: i64,
    focal: i64,
    width: u32,
    height: u32,
) -> (plan: FramePlan)
    requires
        mag(cos_phi as int) <= SCALE as int,
        mag(sin_phi as int) <= SCALE as int,
        mag(cos_theta as int) <= SCALE as int,
        mag(sin_theta as int) <= SCALE as int,
        0 < focal <= 0x4000_0000,
        0 < width,
        0 < height <= 16384,
    ensures
        plan.viewport_width == width,
        plan.viewport_height == height,
        plan.projection@ == perspective_spec(focal as int, width as int, height as int),
        plan.model_view@ == model_view_spec(
            cos_phi as int,
            sin_phi as int,
            cos_theta as int,
            sin_theta as int,
        ),
        matrix_bounded(plan.model_view@, 4 * ENTRY_LIMIT as int),
        plan.position_components == 3,
        plan.color_components == 4,
        plan.vertex_count == 36,
        plan.clear_color@ == seq![0i64, 0i64, 0i64, SCALE],
        plan.clear_depth == SCALE,
        plan.depth_test,
{
    FramePlan {
        viewport_width: width,
        viewport_height: height,
        projection: perspective(focal, width, height),
        model_view: model_view(cos_phi, sin_phi, cos_theta, sin_theta),
        position_components: 3,
        color_components: 4,
        vertex_count: 36,
        clear_color: [0, 0, 0, SCALE],
        clear_depth: SCALE,
        depth_test: true,
    }
}

/// Decides whether the loop schedules another frame after a draw: a failed
/// draw ends the loop gracefully instead of tearing the whole engine down.
pub fn should_reschedule(draw_succeeded: bool) -> (r: bool)
    ensures
        r == draw_succeeded,
{
    draw_succeeded
}

} // verus!
