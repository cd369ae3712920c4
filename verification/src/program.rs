//! GPU program construction decisions.
//!
//! Compiling, linking and location lookup are host operations; the host
//! reports what happened (creation succeeded or not, the status flag, the
//! diagnostic log) and the functions here turn those reports into the
//! engine's own outcomes.  A failed compile or link surfaces the host
//! diagnostic log verbatim as the error payload.

use vstd::prelude::*;
use crate::errors::EngineError;

verus! {

/// The two shader stages of the program.
#[derive(Clone, Copy, Debug, PartialEq, Eq, Structural)]
pub enum ShaderKind {
    Vertex,
    Fragment,
}

/// The host GPU context's numeric value for a shader stage.
pub fn shader_stage_value(kind: ShaderKind) -> (r: u32)
    ensures
        kind == ShaderKind::Vertex ==> r == 35633,
        kind == ShaderKind::Fragment ==> r == 35632,
{
    match kind {
        ShaderKind::Vertex => 35633,
        ShaderKind::Fragment => 35632,
    }
}

/// The two attribute slot indices of the linked program.
#[derive(Clone, Copy, Debug, PartialEq, Eq, Structural)]
pub struct ProgramSlots {
    /// Slot of the vertex position attribute.
    pub vertex_position: u32,
    /// Slot of the vertex color attribute.
    pub vertex_color: u32,
}

/// Name of the vertex position attribute in the shader source.
pub fn position_attribute_name() -> (r: &'static str)
    ensures
        r@ == "aVertexPosition"@,
{
    "aVertexPosition"
}

/// Name of the vertex color attribute in the shader source.
pub fn color_attribute_name() -> (r: &'static str)
    ensures
        r@ == "aVertexColor"@,
{
    "aVertexColor"
}

/// Name of the projection matrix uniform in the shader source.
pub fn projection_uniform_name() -> (r: &'static str)
    ensures
        r@ == "uProjectionMatrix"@,
{
    "uProjectionMatrix"
}

/// Name of the model-view matrix uniform in the shader source.
pub fn model_view_uniform_name() -> (r: &'static str)
    ensures
        r@ == "uModelViewMatrix"@,
{
    "uModelViewMatrix"
}

/// Decides the outcome of one shader compilation from the host's report:
/// whether the shader object was created, the compile status flag, and the
/// compile info log if one was read.
///
/// Success exactly when the shader was created and compiled; on a compile
/// failure the host log is the error payload, verbatim.
pub fn evaluate_compile(created: bool, compile_status: bool, info_log: Option<String>) -> (r:
    Result<(), EngineError>)
    ensures
        r is Ok <==> created && compile_status,
        !created ==> (r matches Err(EngineError::ShaderCompile { log }) && log@
            == "unable to create shader"@),
        created && !compile_status ==> (r matches Err(EngineError::ShaderCompile { log })
            && (info_log matches Some(l) ==> log == l)
            && (info_log is None ==> log@ == "unable to get shader parameter"@)),
{
    if !created {
        Err(EngineError::ShaderCompile { log: "unable to create shader".to_string() })
    } else if !compile_status {
        match info_log {
            Some(l) => Err(EngineError::ShaderCompile { log: l }),
            None => Err(
                EngineError::ShaderCompile { log: "unable to get shader parameter".to_string() },
            ),
        }
    } else {
        Ok(())
    }
}

/// Decides the outcome of linking the program from the host's report, as
/// [`evaluate_compile`] does for a shader; on a link failure the host log is
/// the error payload, verbatim.
pub fn evaluate_link(created: bool, link_status: bool, info_log: Option<String>) -> (r: Result<
    (),
    EngineError,
>)
    ensures
        r is Ok <==> created && link_status,
        !created ==> (r matches Err(EngineError::ProgramLink { log }) && log@
            == "unable to create program"@),
        created && !link_status ==> (r matches Err(EngineError::ProgramLink { log })
            && (info_log matches Some(l) ==> log == l)
            && (info_log is None ==> log@ == "unable to get program parameter"@)),
{
    if !created {
        Err(EngineError::ProgramLink { log: "unable to create program".to_string() })
    } else if !link_status {
        match info_log {
            Some(l) => Err(EngineError::ProgramLink { log: l }),
            None => Err(
                EngineError::ProgramLink { log: "unable to get program parameter".to_string() },
            ),
        }
    } else {
        Ok(())
    }
}

/// Orders the two compile outcomes as program setup does: a vertex shader
/// failure is reported first, then a fragment shader failure; linking is
/// only reached when both compiled.
pub fn compile_pair_outcome(vertex: Result<(), EngineError>, fragment: Result<(), EngineError>)
    -> (r: Result<(), EngineError>)
    ensures
        r is Ok <==> vertex is Ok && fragment is Ok,
        vertex is Err ==> r == vertex,
        vertex is Ok && fragment is Err ==> r == fragment,
{
    match vertex {
        Err(e) => Err(e),
        Ok(()) => match fragment {
            Err(e) => Err(e),
            Ok(()) => Ok(()),
        },
    }
}

/// Resolves the program's locations from what the host lookups returned:
/// the two attribute slots and whether each matrix uniform was found.
///
/// A missing uniform is fatal here, before the first frame ever runs: the
/// projection matrix uniform is checked first, then the model-view one.
pub fn resolve_locations(
    vertex_position: i32,
    vertex_color: i32,
    projection_found: bool,
    model_view_found: bool,
) -> (r: Result<ProgramSlots, EngineError>)
    requires
        vertex_position >= 0,
        vertex_color >= 0,
    ensures
        r is Ok <==> projection_found && model_view_found,
        !projection_found ==> (r matches Err(EngineError::UniformNotFound { name }) && name@
            == "uProjectionMatrix"@),
        projection_found && !model_view_found ==> (r matches Err(
            EngineError::UniformNotFound { name },
        ) && name@ == "uModelViewMatrix"@),
        projection_found && model_view_found ==> (r matches Ok(slots) && slots.vertex_position
            == vertex_position as u32 && slots.vertex_color == vertex_color as u32),
{
    if !projection_found {
        Err(EngineError::UniformNotFound { name: "uProjectionMatrix".to_string() })
    } else if !model_view_found {
        Err(EngineError::UniformNotFound { name: "uModelViewMatrix".to_string() })
    } else {
        Ok(
            ProgramSlots {
                vertex_position: vertex_position as u32,
                vertex_color: vertex_color as u32,
            },
        )
    }
}

} // verus!
