//! Error kinds of the engine.

use vstd::prelude::*;

verus! {

/// Everything that can go wrong while bringing the engine up.
///
/// An unsupported session is a normal negative capability result, not a
/// failure; the remaining kinds are unrecoverable for the run in which they
/// occur.  Each log or detail string carries the host diagnostic verbatim.
#[derive(Debug, PartialEq, Eq)]
pub enum EngineError {
    /// The display system does not support the requested session mode.
    UnsupportedSession,
    /// A shader failed to compile; `log` is the host compile log.
    ShaderCompile { log: String },
    /// The two shaders failed to link into a program; `log` is the host link log.
    ProgramLink { log: String },
    /// The host GPU context refused to allocate a buffer.
    BufferAllocation { detail: String },
    /// A uniform location lookup by `name` found nothing.
    UniformNotFound { name: String },
}

} // verus!
