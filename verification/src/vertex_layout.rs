use vstd::prelude::*;

verus! {

/// Bytes taken by a vertex position: three 32-bit floats.
pub const POSITION_SIZE: u64 = 12;

/// The attribute formats the vertex layout uses.
#[derive(Clone, Copy, Debug, PartialEq, Eq, Structural)]
pub enum VertexFormat {
    /// Three 32-bit floats.
    Float32x3,
}

impl VertexFormat {
    /// Bytes one attribute of this format reads.
    pub open spec fn byte_size(self) -> nat {
        match self {
            VertexFormat::Float32x3 => 12,
        }
    }
}

/// How the vertex buffer advances.
#[derive(Clone, Copy, Debug, PartialEq, Eq, Structural)]
pub enum VertexStepMode {
    /// One record per vertex.
    Vertex,
}

/// One attribute of a vertex record: where it starts, which shader input
/// it feeds and how it is read.
#[derive(Clone, Copy, Debug, PartialEq, Eq, Structural)]
pub struct VertexAttribute {
    pub offset: u64,
    pub shader_location: u32,
    pub format: VertexFormat,
}

/// The layout of the vertex buffer: the size of one record, how the buffer
/// advances and the attributes read from each record.
pub struct VertexLayout {
    pub array_stride: u64,
    pub step_mode: VertexStepMode,
    pub attributes: Vec<VertexAttribute>,
}

/// The attributes of a vertex record: the position at the start, read into
/// shader input 0, and the colour right after it, read into input 1 (its red,
/// green and blue).
pub open spec fn vertex_attributes() -> Seq<VertexAttribute> {
    seq![
        VertexAttribute { offset: 0, shader_location: 0, format: VertexFormat::Float32x3 },
        VertexAttribute { offset: POSITION_SIZE, shader_location: 1, format: VertexFormat::Float32x3 },
    ]
}

/// The layout of a buffer of vertex records of `vertex_size` bytes each: a
/// position followed by a colour.
pub fn desc(vertex_size: u64) -> (layout: VertexLayout)
    ensures
        layout.array_stride == vertex_size,
        layout.step_mode == VertexStepMode::Vertex,
        layout.attributes@ == vertex_attributes(),
{
    let mut attributes: Vec<VertexAttribute> = Vec::new();
    attributes.push(VertexAttribute { offset: 0, shader_location: 0, format: VertexFormat::Float32x3 });
    attributes.push(VertexAttribute { offset: POSITION_SIZE, shader_location: 1, format: VertexFormat::Float32x3 });
    VertexLayout { array_stride: vertex_size, step_mode: VertexStepMode::Vertex, attributes }
}

/// When a record holds at least a position and a colour's red, green and
/// blue, every attribute is read from inside the record, no two attributes
/// share a byte, and each feeds its own shader input.
pub proof fn lemma_attributes_fit_record(vertex_size: u64)
    requires
        vertex_size >= POSITION_SIZE + 12,
    ensures
        forall|i: int| 0 <= i < vertex_attributes().len() ==>
            (#[trigger] vertex_attributes()[i]).offset + vertex_attributes()[i].format.byte_size() <= vertex_size,
        forall|i: int, j: int| 0 <= i < j < vertex_attributes().len() ==>
            (#[trigger] vertex_attributes()[i]).offset + vertex_attributes()[i].format.byte_size()
                <= (#[trigger] vertex_attributes()[j]).offset,
        forall|i: int, j: int| 0 <= i < j < vertex_attributes().len() ==>
            (#[trigger] vertex_attributes()[i]).shader_location != (#[trigger] vertex_attributes()[j]).shader_location,
{
    let a = vertex_attributes();
    assert(a.len() == 2);
    assert(a[0].offset == 0 && a[1].offset == 12);
}

} // verus!
