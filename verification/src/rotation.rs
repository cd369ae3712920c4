//! Drag/inertia rotation state machine.
//!
//! Pointer events turn into two accumulated rotation angles.  While a drag is
//! in progress every pointer move sets the angular velocity to
//! `movement * TWO_PI / extent` and adds it to the angles at once; after
//! release each frame tick decays the velocity by the factor 19/20 and adds
//! the decayed velocity to the angles, giving "flick and coast" motion.
//!
//! Angles and velocities are fixed-point values (see [`crate::fixed`]).

use vstd::prelude::*;
use crate::fixed::{div_trunc, mag, TWO_PI};

verus! {

/// Mathematical model of the rotation state: unbounded integers in
/// fixed-point units.
pub ghost struct RotationModel {
    /// Accumulated rotation about the Y axis.
    pub theta: int,
    /// Accumulated rotation about the X axis.
    pub phi: int,
    /// Angular velocity added to `theta` per tick.
    pub dx: int,
    /// Angular velocity added to `phi` per tick.
    pub dy: int,
    /// Whether a drag is in progress.
    pub dragging: bool,
}

/// One pointer move while dragging: movement deltas in pixels and the canvas
/// extent at the time of the move.
pub ghost struct DragMove {
    pub movement_x: int,
    pub movement_y: int,
    pub width: int,
    pub height: int,
}

/// The velocity contributed by a single pointer move:
/// `movement * TWO_PI / extent`, truncated.
pub open spec fn move_delta(movement: int, extent: int) -> int {
    div_trunc(movement * TWO_PI, extent)
}

/// Per-tick velocity decay: multiplication by the amortization factor
/// 0.95 == 19/20, truncated.
pub open spec fn decay(v: int) -> int {
    div_trunc(v * 19, 20)
}

/// Pointer down: begin dragging; angles and velocity keep their values.
pub open spec fn step_down(m: RotationModel) -> RotationModel {
    RotationModel { dragging: true, ..m }
}

/// Pointer up or leave: stop dragging; angles and velocity keep their values.
pub open spec fn step_up(m: RotationModel) -> RotationModel {
    RotationModel { dragging: false, ..m }
}

/// Pointer move: only has effect while dragging, when it sets the velocity
/// from the movement deltas and adds it to the angles at once.
pub open spec fn step_move(m: RotationModel, mv: DragMove) -> RotationModel {
    if m.dragging {
        let dx = move_delta(mv.movement_x, mv.width);
        let dy = move_delta(mv.movement_y, mv.height);
        RotationModel {
            theta: m.theta + dx,
            phi: m.phi + dy,
            dx: dx,
            dy: dy,
            dragging: true,
        }
    } else {
        m
    }
}

/// Frame tick: while dragging nothing moves between pointer events; when
/// idle the velocity decays and the decayed velocity is added to the angles.
pub open spec fn step_tick(m: RotationModel) -> RotationModel {
    if m.dragging {
        m
    } else {
        RotationModel {
            theta: m.theta + decay(m.dx),
            phi: m.phi + decay(m.dy),
            dx: decay(m.dx),
            dy: decay(m.dy),
            dragging: false,
        }
    }
}

/// A whole sequence of pointer moves, applied first to last.
pub open spec fn apply_moves(m: RotationModel, moves: Seq<DragMove>) -> RotationModel
    decreases moves.len(),
{
    if moves.len() == 0 {
        m
    } else {
        apply_moves(step_move(m, moves[0]), moves.drop_first())
    }
}

/// Sum of the per-move `theta` deltas of a sequence of moves.
pub open spec fn sum_delta_x(moves: Seq<DragMove>) -> int
    decreases moves.len(),
{
    if moves.len() == 0 {
        0
    } else {
        move_delta(moves[0].movement_x, moves[0].width) + sum_delta_x(moves.drop_first())
    }
}

/// Sum of the per-move `phi` deltas of a sequence of moves.
pub open spec fn sum_delta_y(moves: Seq<DragMove>) -> int
    decreases moves.len(),
{
    if moves.len() == 0 {
        0
    } else {
        move_delta(moves[0].movement_y, moves[0].height) + sum_delta_y(moves.drop_first())
    }
}

/// `n` frame ticks in a row.
pub open spec fn ticks(m: RotationModel, n: nat) -> RotationModel
    decreases n,
{
    if n == 0 {
        m
    } else {
        ticks(step_tick(m), (n - 1) as nat)
    }
}

/// The velocity after `n` idle decays of `v`.
pub open spec fn decay_iter(v: int, n: nat) -> int
    decreases n,
{
    if n == 0 {
        v
    } else {
        decay_iter(decay(v), (n - 1) as nat)
    }
}

/// While a drag is in progress, applying a sequence of moves accumulates
/// exactly the sum of the per-move deltas onto each angle, and the last
/// move's deltas stand as the velocity.
proof fn lemma_moves_accumulate_from(m: RotationModel, moves: Seq<DragMove>)
    requires
        m.dragging,
    ensures
        apply_moves(m, moves).theta == m.theta + sum_delta_x(moves),
        apply_moves(m, moves).phi == m.phi + sum_delta_y(moves),
        apply_moves(m, moves).dragging,
    decreases moves.len(),
{
    if moves.len() > 0 {
        lemma_moves_accumulate_from(step_move(m, moves[0]), moves.drop_first());
    }
}

/// For any pointer-down, move..., pointer-up sequence, the angles after the
/// sequence equal their old values plus the sum of all per-move deltas
/// `movement * TWO_PI / extent`, and the drag is over.
pub proof fn lemma_drag_accumulates_deltas(m: RotationModel, moves: Seq<DragMove>)
    ensures
        step_up(apply_moves(step_down(m), moves)).theta == m.theta + sum_delta_x(moves),
        step_up(apply_moves(step_down(m), moves)).phi == m.phi + sum_delta_y(moves),
        !step_up(apply_moves(step_down(m), moves)).dragging,
{
    lemma_moves_accumulate_from(step_down(m), moves);
}

/// After release, with no further input, the velocity after `n` idle ticks
/// is the released velocity decayed `n` times by the factor 19/20.
pub proof fn lemma_idle_velocity_decays(m: RotationModel, n: nat)
    requires
        !m.dragging,
    ensures
        ticks(m, n).dx == decay_iter(m.dx, n),
        ticks(m, n).dy == decay_iter(m.dy, n),
        !ticks(m, n).dragging,
    decreases n,
{
    if n > 0 {
        lemma_idle_velocity_decays(step_tick(m), (n - 1) as nat);
    }
}

/// Each decay takes away at least a twentieth of the velocity's magnitude.
proof fn lemma_decay_contracts(v: int)
    ensures
        20 * mag(decay(v)) <= 19 * mag(v),
        mag(decay(v)) >= 0,
{
    crate::fixed::lemma_div_trunc_mag(v * 19, 20);
    assert(mag(v * 19) == 19 * mag(v)) by (nonlinear_arith);
    assert(mag(decay(v)) * 20 == 20 * mag(decay(v))) by (nonlinear_arith);
}

/// After release, the accumulated angles stay within a fixed distance of
/// their values at release, however many idle ticks pass: the decayed
/// velocities form a geometric series whose whole sum is below
/// `19 * mag(velocity at release)`.  The angles approach a finite limit and
/// never diverge.
pub proof fn lemma_idle_angles_bounded(m: RotationModel, n: nat)
    requires
        !m.dragging,
    ensures
        mag(ticks(m, n).theta - m.theta) <= 19 * mag(m.dx),
        mag(ticks(m, n).phi - m.phi) <= 19 * mag(m.dy),
    decreases n,
{
    if n == 0 {
        assert(19 * mag(m.dx) >= 0) by (nonlinear_arith)
            requires mag(m.dx) >= 0;
        assert(19 * mag(m.dy) >= 0) by (nonlinear_arith)
            requires mag(m.dy) >= 0;
    } else {
        let m1 = step_tick(m);
        lemma_idle_angles_bounded(m1, (n - 1) as nat);
        lemma_decay_contracts(m.dx);
        lemma_decay_contracts(m.dy);
    }
}

/// The live rotation state: fixed-point angles and velocities.
pub struct RotationState {
    theta: i64,
    phi: i64,
    dx: i64,
    dy: i64,
    dragging: bool,
}

/// Velocities stay below this bound: a single move contributes at most
/// `mag(movement) * TWO_PI`, with pixel movements limited to 32 bits, and
/// decay only shrinks a velocity.
pub const VELOCITY_LIMIT: i64 = 0x4_0000_0000_0000;

impl View for RotationState {
    type V = RotationModel;

    closed spec fn view(&self) -> RotationModel {
        RotationModel {
            theta: self.theta as int,
            phi: self.phi as int,
            dx: self.dx as int,
            dy: self.dy as int,
            dragging: self.dragging,
        }
    }
}

impl RotationState {
    /// Bounds kept by every operation, so that the fixed-point arithmetic of
    /// a tick cannot overflow on the velocity side.
    pub open spec fn wf(self) -> bool {
        mag(self@.dx) <= VELOCITY_LIMIT as int && mag(self@.dy) <= VELOCITY_LIMIT as int
    }

    /// Fresh state: no rotation, no velocity, no drag in progress.
    pub fn new() -> (r: RotationState)
        ensures
            r@ == (RotationModel { theta: 0, phi: 0, dx: 0, dy: 0, dragging: false }),
            r.wf(),
    {
        RotationState { theta: 0, phi: 0, dx: 0, dy: 0, dragging: false }
    }

    /// Current angle about the Y axis, in fixed-point radians.
    pub fn theta(&self) -> (r: i64)
        ensures
            r as int == self@.theta,
    {
        self.theta
    }

    /// Current angle about the X axis, in fixed-point radians.
    pub fn phi(&self) -> (r: i64)
        ensures
            r as int == self@.phi,
    {
        self.phi
    }

    /// Current angular velocity of `theta`, in fixed-point radians per tick.
    pub fn velocity_x(&self) -> (r: i64)
        ensures
            r as int == self@.dx,
    {
        self.dx
    }

    /// Current angular velocity of `phi`, in fixed-point radians per tick.
    pub fn velocity_y(&self) -> (r: i64)
        ensures
            r as int == self@.dy,
    {
        self.dy
    }

    /// Whether a drag is in progress.
    pub fn dragging(&self) -> (r: bool)
        ensures
            r == self@.dragging,
    {
        self.dragging
    }

    /// Pointer down: begin a drag.
    pub fn on_pointer_down(&mut self)
        ensures
            final(self)@ == step_down(old(self)@),
            old(self).wf() ==> final(self).wf(),
    {
        self.dragging = true;
    }

    /// Pointer up: end the drag; the velocity set by the last move remains
    /// and coasts from the next tick on.
    pub fn on_pointer_up(&mut self)
        ensures
            final(self)@ == step_up(old(self)@),
            old(self).wf() ==> final(self).wf(),
    {
        self.dragging = false;
    }

    /// Pointer leaving the surface ends the drag exactly as pointer up does.
    pub fn on_pointer_leave(&mut self)
        ensures
            final(self)@ == step_up(old(self)@),
            old(self).wf() ==> final(self).wf(),
    {
        self.dragging = false;
    }

    /// Pointer move: while dragging, set the velocity to
    /// `movement * TWO_PI / extent` per axis and add it to the angles.
    ///
    /// The caller keeps the accumulated angles within `i64`.
    pub fn on_pointer_move(&mut self, movement_x: i32, movement_y: i32, width: u32, height: u32)
        requires
            old(self).wf(),
            width > 0,
            height > 0,
            old(self)@.dragging ==> i64::MIN
                <= old(self)@.theta + move_delta(movement_x as int, width as int)
                <= i64::MAX,
            old(self)@.dragging ==> i64::MIN
                <= old(self)@.phi + move_delta(movement_y as int, height as int)
                <= i64::MAX,
        ensures
            final(self)@ == step_move(
                old(self)@,
                DragMove {
                    movement_x: movement_x as int,
                    movement_y: movement_y as int,
                    width: width as int,
                    height: height as int,
                },
            ),
            final(self).wf(),
    {
        if self.dragging {
            let dx: i64 = (movement_x as i64) * TWO_PI / (width as i64);
            let dy: i64 = (movement_y as i64) * TWO_PI / (height as i64);
            proof {
                assert(mag((movement_x as int) * (TWO_PI as int)) <= 0x8000_0000int * (
                TWO_PI as int)) by (nonlinear_arith)
                    requires mag(movement_x as int) <= 0x8000_0000;
                assert(mag((movement_y as int) * (TWO_PI as int)) <= 0x8000_0000int * (
                TWO_PI as int)) by (nonlinear_arith)
                    requires mag(movement_y as int) <= 0x8000_0000;
                crate::fixed::lemma_div_trunc_mag_ordered(
                    (movement_x as int) * (TWO_PI as int),
                    VELOCITY_LIMIT as int,
                    width as int,
                );
                crate::fixed::lemma_div_trunc_mag_ordered(
                    (movement_y as int) * (TWO_PI as int),
                    VELOCITY_LIMIT as int,
                    height as int,
                );
            }
            self.dx = dx;
            self.dy = dy;
            self.theta = self.theta + dx;
            self.phi = self.phi + dy;
        }
    }

    /// Frame tick: when idle, decay both velocities by 19/20 and add the
    /// decayed velocities to the angles; while dragging, do nothing.
    ///
    /// The caller keeps the accumulated angles within `i64`.
    pub fn tick(&mut self)
        requires
            old(self).wf(),
            !old(self)@.dragging ==> i64::MIN
                <= old(self)@.theta + decay(old(self)@.dx)
                <= i64::MAX,
            !old(self)@.dragging ==> i64::MIN
                <= old(self)@.phi + decay(old(self)@.dy)
                <= i64::MAX,
        ensures
            final(self)@ == step_tick(old(self)@),
            final(self).wf(),
    {
        if !self.dragging {
            proof {
                lemma_decay_contracts(self@.dx);
                lemma_decay_contracts(self@.dy);
                assert(mag((self@.dx) * 19) <= 19 * VELOCITY_LIMIT as int) by (nonlinear_arith)
                    requires mag(self@.dx) <= VELOCITY_LIMIT as int;
                assert(mag((self@.dy) * 19) <= 19 * VELOCITY_LIMIT as int) by (nonlinear_arith)
                    requires mag(self@.dy) <= VELOCITY_LIMIT as int;
            }
            let dx: i64 = self.dx * 19 / 20;
            let dy: i64 = self.dy * 19 / 20;
            self.dx = dx;
            self.dy = dy;
            self.theta = self.theta + dx;
            self.phi = self.phi + dy;
        }
    }
}

} // verus!
