//! The fixed cube mesh.
//!
//! 24 vertices (4 per face, none shared across faces, so that flat per-face
//! coloring works), one RGBA color per face broadcast to its 4 vertices, and
//! 36 indices forming 2 triangles per face.  Coordinates are in scene units
//! (the cube spans -1..1 on each axis) and color channels are 0 or 1; the
//! host widens them to floating point when it uploads the buffers.

use vstd::prelude::*;
use crate::errors::EngineError;

verus! {

/// Number of vertices of the mesh.
pub const VERTEX_COUNT: usize = 24;

/// Number of position components: three per vertex.
pub const POSITION_COMPONENTS: usize = 72;

/// Number of color components: four per vertex.
pub const COLOR_COMPONENTS: usize = 96;

/// Number of triangle indices: six faces, two triangles each.
pub const INDEX_COUNT: usize = 36;

/// The position components, vertex by vertex, face by face:
/// front, back, top, bottom, right, left.
pub open spec fn cube_positions_spec() -> Seq<int> {
    seq![
        -1, -1, 1, 1, -1, 1, 1, 1, 1, -1, 1, 1,
        -1, -1, -1, -1, 1, -1, 1, 1, -1, 1, -1, -1,
        -1, 1, -1, -1, 1, 1, 1, 1, 1, 1, 1, -1,
        -1, -1, -1, 1, -1, -1, 1, -1, 1, -1, -1, 1,
        1, -1, -1, 1, 1, -1, 1, 1, 1, 1, -1, 1,
        -1, -1, -1, -1, -1, 1, -1, 1, 1, -1, 1, -1,
    ]
}

/// Color channel `channel` of the face color of face `face`:
/// white, red, green, blue, yellow, purple, each fully opaque.
pub open spec fn color_component_spec(face: int, channel: int) -> int {
    if channel == 3 {
        1
    } else if face == 0 {
        1
    } else if face == 1 {
        if channel == 0 { 1 } else { 0 }
    } else if face == 2 {
        if channel == 1 { 1 } else { 0 }
    } else if face == 3 {
        if channel == 2 { 1 } else { 0 }
    } else if face == 4 {
        if channel == 2 { 0 } else { 1 }
    } else {
        if channel == 1 { 0 } else { 1 }
    }
}

/// Position within a face of the `j`-th of the six indices that triangulate
/// it: the two triangles `(0, 1, 2)` and `(0, 2, 3)` of its four corners.
pub open spec fn triangle_corner_spec(j: int) -> int {
    if j == 0 { 0 } else if j == 1 { 1 } else if j == 2 { 2 }
    else if j == 3 { 0 } else if j == 4 { 2 } else { 3 }
}

/// The three GPU-ready arrays of the cube mesh.
pub struct CubeGeometry {
    /// 72 position components, three per vertex.
    pub positions: Vec<i32>,
    /// 96 color components, four per vertex.
    pub colors: Vec<i32>,
    /// 36 triangle indices into the 24 vertices.
    pub indices: Vec<u16>,
}

impl CubeGeometry {
    /// What the mesh arrays hold.
    pub open spec fn wf(self) -> bool {
        &&& self.positions@.len() == POSITION_COMPONENTS
        &&& self.positions@.map_values(|v: i32| v as int) == cube_positions_spec()
        &&& self.colors@.len() == COLOR_COMPONENTS
        &&& (forall|f: int, v: int, ch: int|
            0 <= f < 6 && 0 <= v < 4 && 0 <= ch < 4 ==> #[trigger] self.colors@[f * 16 + v * 4
                + ch] == color_component_spec(f, ch))
        &&& self.indices@.len() == INDEX_COUNT
        &&& (forall|i: int|
            0 <= i < INDEX_COUNT ==> #[trigger] self.indices@[i] == 4 * (i / 6)
                + triangle_corner_spec(i % 6))
        &&& (forall|i: int| 0 <= i < INDEX_COUNT ==> #[trigger] self.indices@[i] < VERTEX_COUNT)
    }
}

/// Appends one vertex position to the array.
fn push_vertex(v: &mut Vec<i32>, x: i32, y: i32, z: i32)
    ensures
        final(v)@ == old(v)@.push(x).push(y).push(z),
{
    v.push(x);
    v.push(y);
    v.push(z);
}

/// Builds the 72 position components.
fn build_positions() -> (r: Vec<i32>)
    ensures
        r@.len() == POSITION_COMPONENTS,
        r@.map_values(|v: i32| v as int) == cube_positions_spec(),
{
    let mut v: Vec<i32> = Vec::new();
    // front face
    push_vertex(&mut v, -1, -1, 1);
    push_vertex(&mut v, 1, -1, 1);
    push_vertex(&mut v, 1, 1, 1);
    push_vertex(&mut v, -1, 1, 1);
    // back face
    push_vertex(&mut v, -1, -1, -1);
    push_vertex(&mut v, -1, 1, -1);
    push_vertex(&mut v, 1, 1, -1);
    push_vertex(&mut v, 1, -1, -1);
    // top face
    push_vertex(&mut v, -1, 1, -1);
    push_vertex(&mut v, -1, 1, 1);
    push_vertex(&mut v, 1, 1, 1);
    push_vertex(&mut v, 1, 1, -1);
    // bottom face
    push_vertex(&mut v, -1, -1, -1);
    push_vertex(&mut v, 1, -1, -1);
    push_vertex(&mut v, 1, -1, 1);
    push_vertex(&mut v, -1, -1, 1);
    // right face
    push_vertex(&mut v, 1, -1, -1);
    push_vertex(&mut v, 1, 1, -1);
    push_vertex(&mut v, 1, 1, 1);
    push_vertex(&mut v, 1, -1, 1);
    // left face
    push_vertex(&mut v, -1, -1, -1);
    push_vertex(&mut v, -1, -1, 1);
    push_vertex(&mut v, -1, 1, 1);
    push_vertex(&mut v, -1, 1, -1);
    proof {
        assert(v@.map_values(|c: i32| c as int) =~= cube_positions_spec());
    }
    v
}

/// Color channel `channel` of face `face`.
fn color_component(face: usize, channel: usize) -> (r: i32)
    requires
        face < 6,
        channel < 4,
    ensures
        r as int == color_component_spec(face as int, channel as int),
        r == 0 || r == 1,
{
    if channel == 3 {
        1
    } else if face == 0 {
        1
    } else if face == 1 {
        if channel == 0 { 1 } else { 0 }
    } else if face == 2 {
        if channel == 1 { 1 } else { 0 }
    } else if face == 3 {
        if channel == 2 { 1 } else { 0 }
    } else if face == 4 {
        if channel == 2 { 0 } else { 1 }
    } else {
        if channel == 1 { 0 } else { 1 }
    }
}

/// Builds the 96 color components: each face color broadcast across the
/// face's four vertices.
fn build_colors() -> (r: Vec<i32>)
    ensures
        r@.len() == COLOR_COMPONENTS,
        forall|f: int, v: int, ch: int|
            0 <= f < 6 && 0 <= v < 4 && 0 <= ch < 4 ==> #[trigger] r@[f * 16 + v * 4 + ch]
                == color_component_spec(f, ch),
{
    let mut v: Vec<i32> = Vec::new();
    let mut i: usize = 0;
    while i < COLOR_COMPONENTS
        invariant
            i <= COLOR_COMPONENTS,
            v@.len() == i,
            forall|j: int| 0 <= j < i ==> #[trigger] v@[j] == color_component_spec(j / 16, j % 4),
        decreases COLOR_COMPONENTS - i,
    {
        v.push(color_component(i / 16, i % 4));
        i = i + 1;
    }
    proof {
        assert forall|f: int, vx: int, ch: int|
            0 <= f < 6 && 0 <= vx < 4 && 0 <= ch < 4 implies #[trigger] v@[f * 16 + vx * 4 + ch]
            == color_component_spec(f, ch) by {
            let j = f * 16 + vx * 4 + ch;
            assert(j / 16 == f && j % 4 == ch) by (nonlinear_arith)
                requires 0 <= f < 6 && 0 <= vx < 4 && 0 <= ch < 4 && j == f * 16 + vx * 4 + ch;
        }
    }
    v
}

/// Position within its face of the `j`-th of the six triangle indices.
fn triangle_corner(j: usize) -> (r: u16)
    requires
        j < 6,
    ensures
        r as int == triangle_corner_spec(j as int),
        r < 4,
{
    if j == 0 { 0 } else if j == 1 { 1 } else if j == 2 { 2 }
    else if j == 3 { 0 } else if j == 4 { 2 } else { 3 }
}

/// Builds the 36 triangle indices: for each face `f`, the triangles
/// `(4f, 4f+1, 4f+2)` and `(4f, 4f+2, 4f+3)`.
fn build_indices() -> (r: Vec<u16>)
    ensures
        r@.len() == INDEX_COUNT,
        forall|i: int|
            0 <= i < INDEX_COUNT ==> #[trigger] r@[i] == 4 * (i / 6) + triangle_corner_spec(i % 6),
        forall|i: int| 0 <= i < INDEX_COUNT ==> #[trigger] r@[i] < VERTEX_COUNT,
{
    let mut v: Vec<u16> = Vec::new();
    let mut i: usize = 0;
    while i < INDEX_COUNT
        invariant
            i <= INDEX_COUNT,
            v@.len() == i,
            forall|j: int|
                0 <= j < i ==> #[trigger] v@[j] == 4 * (j / 6) + triangle_corner_spec(j % 6),
            forall|j: int| 0 <= j < i ==> #[trigger] v@[j] < VERTEX_COUNT,
        decreases INDEX_COUNT - i,
    {
        let face: usize = i / 6;
        let corner: u16 = triangle_corner(i % 6);
        v.push((face as u16) * 4 + corner);
        i = i + 1;
    }
    v
}

/// Builds the whole cube mesh.
pub fn build_cube_geometry() -> (g: CubeGeometry)
    ensures
        g.wf(),
{
    CubeGeometry { positions: build_positions(), colors: build_colors(), indices: build_indices() }
}

/// Decides the outcome of the host's three buffer allocations, position,
/// color and index buffer in that order: the first refusal is the error.
pub fn buffer_creation_outcome(position_created: bool, color_created: bool, index_created: bool)
    -> (r: Result<(), EngineError>)
    ensures
        r is Ok <==> position_created && color_created && index_created,
        !position_created ==> (r matches Err(EngineError::BufferAllocation { detail })
            && detail@ == "unable to create position buffer"@),
        position_created && !color_created ==> (r matches Err(
            EngineError::BufferAllocation { detail },
        ) && detail@ == "unable to create color buffer"@),
        position_created && color_created && !index_created ==> (r matches Err(
            EngineError::BufferAllocation { detail },
        ) && detail@ == "unable to create index buffer"@),
{
    if !position_created {
        Err(EngineError::BufferAllocation { detail: "unable to create position buffer".to_string() })
    } else if !color_created {
        Err(EngineError::BufferAllocation { detail: "unable to create color buffer".to_string() })
    } else if !index_created {
        Err(EngineError::BufferAllocation { detail: "unable to create index buffer".to_string() })
    } else {
        Ok(())
    }
}

} // verus!
