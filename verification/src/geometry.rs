//! Geometry staging: the layout of a frame's vertices and indices in device
//! memory, and the sizes of the buffers that carry them there.

use vstd::prelude::*;

verus! {

/// Bytes one vertex takes: a position and a texture coordinate of two 32-bit
/// floats each, and a colour of four bytes.
pub const VERTEX_STRIDE: u32 = 20;

/// Bytes one index takes.
pub const INDEX_SIZE: u32 = 4;

/// Bytes one triangle takes in the index buffer.
pub const TRIANGLE_SIZE: u32 = 12;

/// How the device reads one attribute of a vertex.
#[derive(Clone, Copy, Debug, PartialEq, Eq, Structural)]
pub enum VertexFormat {
    /// Two 32-bit floats.
    Float2,
    /// Four bytes, each read as a fraction of 255.
    Ubyte4Norm,
}

/// One attribute of the vertex layout: where the shader finds it and where
/// it starts within a vertex.
#[derive(Clone, Copy, Debug, PartialEq, Eq, Structural)]
pub struct VertexAttribute {
    pub location: u32,
    pub offset: u32,
    pub format: VertexFormat,
}

/// Three indices into the frame's vertex array.
#[derive(Clone, Copy, Debug, PartialEq, Eq)]
pub struct Triangle {
    pub indices: [u32; 3],
}

/// Why a frame's geometry cannot be staged.
#[derive(Clone, Copy, Debug, PartialEq, Eq, Structural)]
pub enum StageError {
    /// The vertices take more bytes than one buffer can hold.
    TooManyVertices,
    /// The indices take more bytes than one buffer can hold.
    TooManyTriangles,
}

/// What to allocate and copy for one frame.
#[derive(Debug, PartialEq, Eq)]
pub struct StagePlan {
    /// Size of the vertex buffer in bytes.
    pub vertex_bytes: u32,
    /// Size of the index buffer in bytes.
    pub index_bytes: u32,
    /// Size of the one transfer buffer that both copies go through.
    pub transfer_bytes: u32,
    /// The contents of the index buffer.
    pub indices: Vec<u32>,
}

impl VertexFormat {
    pub open spec fn spec_size(self) -> nat {
        match self {
            VertexFormat::Float2 => 8,
            VertexFormat::Ubyte4Norm => 4,
        }
    }

    /// Bytes an attribute of this format takes.
    pub fn size(self) -> (n: u32)
        ensures
            n == self.spec_size(),
    {
        match self {
            VertexFormat::Float2 => 8,
            VertexFormat::Ubyte4Norm => 4,
        }
    }
}

/// The attributes of a vertex in the order they lie in memory: position,
/// texture coordinate, colour.
pub open spec fn vertex_layout_spec() -> Seq<VertexAttribute> {
    seq![
        VertexAttribute { location: 0, offset: 0, format: VertexFormat::Float2 },
        VertexAttribute { location: 1, offset: 8, format: VertexFormat::Float2 },
        VertexAttribute { location: 2, offset: 16, format: VertexFormat::Ubyte4Norm },
    ]
}

/// The vertex layout the pipeline is built with.
pub fn vertex_layout() -> (layout: [VertexAttribute; 3])
    ensures
        layout@ == vertex_layout_spec(),
{
    let layout = [
        VertexAttribute { location: 0, offset: 0, format: VertexFormat::Float2 },
        VertexAttribute { location: 1, offset: 8, format: VertexFormat::Float2 },
        VertexAttribute { location: 2, offset: 16, format: VertexFormat::Ubyte4Norm },
    ];
    assert(layout@ =~= vertex_layout_spec());
    layout
}

/// The attributes fill a vertex without gap or overlap: each starts where the
/// one before ends, and the last ends at the stride.
pub proof fn lemma_vertex_layout_is_packed()
    ensures
        vertex_layout_spec().len() == 3,
        vertex_layout_spec()[0].offset == 0,
        forall|i: int|
            0 <= i < 2 ==> #[trigger] vertex_layout_spec()[i].offset
                + vertex_layout_spec()[i].format.spec_size() == vertex_layout_spec()[i + 1].offset,
        vertex_layout_spec()[2].offset + vertex_layout_spec()[2].format.spec_size()
            == VERTEX_STRIDE,
        forall|i: int| 0 <= i < 3 ==> #[trigger] vertex_layout_spec()[i].location == i,
{
}

/// The index buffer for a list of triangles: three indices per triangle, in
/// the order of the list.
pub open spec fn flat_indices(triangles: Seq<Triangle>) -> Seq<u32> {
    Seq::new(3 * triangles.len(), |k: int| triangles[k / 3].indices@[k % 3])
}

/// Lays the triangles out as one list of indices.
pub fn flatten(triangles: &Vec<Triangle>) -> (indices: Vec<u32>)
    ensures
        indices@ == flat_indices(triangles@),
        indices@.len() == 3 * triangles@.len(),
{
    let mut indices: Vec<u32> = Vec::new();
    let mut i: usize = 0;
    while i < triangles.len()
        invariant
            i <= triangles.len(),
            indices@.len() == 3 * i,
            forall|k: int|
                0 <= k < 3 * i ==> #[trigger] indices@[k] == triangles@[k / 3].indices@[k % 3],
        decreases triangles.len() - i,
    {
        let t = &triangles[i];
        indices.push(t.indices[0]);
        indices.push(t.indices[1]);
        indices.push(t.indices[2]);
        i = i + 1;
    }
    assert(indices@ =~= flat_indices(triangles@));
    indices
}

/// Size in bytes of `vertex_count` vertices.
pub open spec fn vertex_bytes(vertex_count: nat) -> nat {
    vertex_count * VERTEX_STRIDE as nat
}

/// Size in bytes of the indices of `triangle_count` triangles.
pub open spec fn index_bytes(triangle_count: nat) -> nat {
    triangle_count * TRIANGLE_SIZE as nat
}

/// The larger of two sizes.
pub open spec fn larger(a: nat, b: nat) -> nat {
    if a >= b {
        a
    } else {
        b
    }
}

/// The sizes of the three buffers of a frame, in bytes.
#[derive(Clone, Copy, Debug, PartialEq, Eq, Structural)]
pub struct BufferSizes {
    pub vertex_bytes: u32,
    pub index_bytes: u32,
    pub transfer_bytes: u32,
}

/// Sizes the buffers for a frame of the given numbers of vertices and
/// triangles.
///
/// Both buffers are filled through one transfer buffer, which is as large as
/// the larger of the two. Sizing fails exactly when a buffer would need more
/// bytes than a `u32` counts; the vertices are looked at first.
pub fn buffer_sizes(vertex_count: usize, triangle_count: usize) -> (r: Result<
    BufferSizes,
    StageError,
>)
    ensures
        vertex_bytes(vertex_count as nat) > u32::MAX ==> r == Err::<BufferSizes, StageError>(
            StageError::TooManyVertices,
        ),
        vertex_bytes(vertex_count as nat) <= u32::MAX && index_bytes(triangle_count as nat)
            > u32::MAX ==> r == Err::<BufferSizes, StageError>(StageError::TooManyTriangles),
        vertex_bytes(vertex_count as nat) <= u32::MAX && index_bytes(triangle_count as nat)
            <= u32::MAX ==> r == Ok::<BufferSizes, StageError>(
            BufferSizes {
                vertex_bytes: vertex_bytes(vertex_count as nat) as u32,
                index_bytes: index_bytes(triangle_count as nat) as u32,
                transfer_bytes: larger(
                    vertex_bytes(vertex_count as nat),
                    index_bytes(triangle_count as nat),
                ) as u32,
            },
        ),
{
    if vertex_count > 0xFFFF_FFFF / 20 {
        return Err(StageError::TooManyVertices);
    }
    if triangle_count > 0xFFFF_FFFF / 12 {
        return Err(StageError::TooManyTriangles);
    }
    let vertex_bytes: u32 = (vertex_count as u32) * VERTEX_STRIDE;
    let index_bytes: u32 = (triangle_count as u32) * TRIANGLE_SIZE;
    let transfer_bytes: u32 = if vertex_bytes >= index_bytes {
        vertex_bytes
    } else {
        index_bytes
    };
    Ok(BufferSizes { vertex_bytes, index_bytes, transfer_bytes })
}

/// Plans the buffers for a frame with at least one vertex: their sizes, as
/// [`buffer_sizes`] gives them, and the contents of the index buffer.
pub fn stage(vertex_count: usize, triangles: &Vec<Triangle>) -> (r: Result<StagePlan, StageError>)
    requires
        vertex_count > 0,
    ensures
        vertex_bytes(vertex_count as nat) > u32::MAX ==> r == Err::<StagePlan, StageError>(
            StageError::TooManyVertices,
        ),
        vertex_bytes(vertex_count as nat) <= u32::MAX && index_bytes(triangles@.len()) > u32::MAX
            ==> r == Err::<StagePlan, StageError>(StageError::TooManyTriangles),
        vertex_bytes(vertex_count as nat) <= u32::MAX && index_bytes(triangles@.len()) <= u32::MAX
            ==> r is Ok && ({
            let plan = r->Ok_0;
            &&& plan.vertex_bytes == vertex_bytes(vertex_count as nat)
            &&& plan.index_bytes == index_bytes(triangles@.len())
            &&& plan.transfer_bytes == larger(
                vertex_bytes(vertex_count as nat),
                index_bytes(triangles@.len()),
            )
            &&& plan.indices@ == flat_indices(triangles@)
        }),
{
    match buffer_sizes(vertex_count, triangles.len()) {
        Ok(sizes) => Ok(
            StagePlan {
                vertex_bytes: sizes.vertex_bytes,
                index_bytes: sizes.index_bytes,
                transfer_bytes: sizes.transfer_bytes,
                indices: flatten(triangles),
            },
        ),
        Err(e) => Err(e),
    }
}

} // verus!
