//! How a pipeline reads a buffer of vertex records: the stride from one record
//! to the next, and for each shader input its slot, its byte offset in the
//! record and its format.

use vstd::prelude::*;

verus! {

/// The format of one vertex attribute. All of them are made of 32-bit
/// components.
#[derive(Copy, Clone, Debug, PartialEq, Eq)]
pub enum VertexFormat {
    /// Two 32-bit floats.
    Float32x2,
    /// Three 32-bit floats.
    Float32x3,
    /// One signed 32-bit integer.
    Sint32,
}

/// Whether a buffer is advanced once for each vertex or once for each instance.
#[derive(Copy, Clone, Debug, PartialEq, Eq)]
pub enum VertexStepMode {
    /// The record changes with every vertex.
    Vertex,
    /// The record changes with every instance.
    Instance,
}

/// One input of the vertex shader and where a record holds it.
#[derive(Copy, Clone, Debug, PartialEq, Eq)]
pub struct VertexAttribute {
    /// The format of the value.
    pub format: VertexFormat,
    /// The byte offset of the value from the start of the record.
    pub offset: u64,
    /// The input slot of the shader that receives the value.
    pub shader_location: u32,
}

/// The layout of a buffer of vertex records.
#[derive(Clone, Debug, PartialEq, Eq)]
pub struct VertexBufferLayout {
    /// The distance in bytes from one record to the next.
    pub array_stride: u64,
    /// How often the pipeline steps to the next record.
    pub step_mode: VertexStepMode,
    /// The attributes of a record, in the order of its fields.
    pub attributes: Vec<VertexAttribute>,
}

/// Size in bytes of one component of any format.
pub const COMPONENT_SIZE: u64 = 4;

impl VertexFormat {
    /// The number of components of the format.
    pub open spec fn components(self) -> int {
        match self {
            VertexFormat::Float32x2 => 2,
            VertexFormat::Float32x3 => 3,
            VertexFormat::Sint32 => 1,
        }
    }

    /// The number of bytes that a value of the format takes.
    pub open spec fn byte_size(self) -> int {
        COMPONENT_SIZE * self.components()
    }

    /// Returns the size of the format in bytes.
    pub fn size(&self) -> (bytes: u64)
        ensures
            bytes == self.byte_size(),
    {
        wgpu_format_size(*self)
    }
}

/// Calls `wgpu::VertexFormat::size` on the format of the same name. Not proved
/// here, but taken from the source of `wgpu`: it returns 8 for `Float32x2`, 12
/// for `Float32x3` and 4 for `Sint32`, which is four bytes for each component.
#[verifier::external_body]
fn wgpu_format_size(format: VertexFormat) -> (bytes: u64)
    ensures
        bytes == format.byte_size(),
{
    let format = match format {
        VertexFormat::Float32x2 => wgpu::VertexFormat::Float32x2,
        VertexFormat::Float32x3 => wgpu::VertexFormat::Float32x3,
        VertexFormat::Sint32 => wgpu::VertexFormat::Sint32,
    };
    format.size()
}

impl VertexAttribute {
    /// The offset of the first byte after the attribute.
    pub open spec fn end(self) -> int {
        self.offset + self.format.byte_size()
    }
}

/// Whether the attributes fill a record of `stride` bytes from its first byte
/// to its last without gap or overlap, in the order of their slots: the first
/// starts at offset 0 in slot 0, each next one starts where the one before it
/// ends and takes the next slot, and the last ends at `stride`.
pub open spec fn attributes_packed(attributes: Seq<VertexAttribute>, stride: int) -> bool {
    &&& attributes.len() > 0
    &&& attributes[0].offset == 0
    &&& forall|k: int|
        0 <= k < attributes.len() ==> (#[trigger] attributes[k]).shader_location == k
    &&& forall|k: int|
        0 < k < attributes.len() ==> (#[trigger] attributes[k]).offset == attributes[k - 1].end()
    &&& attributes[attributes.len() - 1].end() == stride
}

impl VertexBufferLayout {
    /// Whether the layout describes records whose fields lie back to back.
    pub open spec fn is_packed(&self) -> bool {
        attributes_packed(self.attributes@, self.array_stride as int)
    }
}

} // verus!
