//! Session-and-render engine for a rotating textured cube shown on an
//! XR-capable display surface.
//!
//! The crate holds the verified core of the engine: the drag/inertia rotation
//! state machine, the fixed-point projection and model-view matrix math, the
//! fixed cube mesh, and the decision logic for session negotiation and GPU
//! program construction.  All host-mediated work (DOM access, GL calls, the
//! XR session itself, the per-frame callback) stays outside; the host hands
//! this crate plain values and receives plain values back.

pub mod fixed;

pub mod errors;

pub mod rotation;

pub mod matrix;

pub mod geometry;

pub mod program;

pub mod session;

pub mod frame;
