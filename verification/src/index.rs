//! The index side of a draw request: primitive topologies, index element
//! types, buffer descriptors and the four shapes an index source can
//! take.

use vstd::prelude::*;
use crate::glenum::{
    GL_LINES, GL_LINES_ADJACENCY, GL_LINE_LOOP, GL_LINE_STRIP, GL_LINE_STRIP_ADJACENCY,
    GL_PATCHES, GL_POINTS, GL_TRIANGLES, GL_TRIANGLES_ADJACENCY, GL_TRIANGLE_FAN,
    GL_TRIANGLE_STRIP, GL_TRIANGLE_STRIP_ADJACENCY, GL_UNSIGNED_BYTE, GL_UNSIGNED_INT,
    GL_UNSIGNED_SHORT,
};

verus! {

/// The topology a draw assembles its vertices into.
#[derive(Clone, Copy, PartialEq, Eq, Structural, Debug)]
pub enum PrimitiveType {
    /// One point per vertex.
    Points,
    /// Independent line segments.
    LinesList,
    /// Independent line segments with adjacency information.
    LinesListAdjacency,
    /// A connected strip of line segments.
    LineStrip,
    /// A connected strip of line segments with adjacency information.
    LineStripAdjacency,
    /// A closed loop of line segments.
    LineLoop,
    /// Independent triangles.
    TrianglesList,
    /// Independent triangles with adjacency information.
    TrianglesListAdjacency,
    /// A connected strip of triangles.
    TriangleStrip,
    /// A connected strip of triangles with adjacency information.
    TriangleStripAdjacency,
    /// A fan of triangles around the first vertex.
    TriangleFan,
    /// Tessellation patches of the given size.
    Patches {
        /// How many vertices each patch has.
        vertices_per_patch: u16,
    },
}

/// The device enumerant for a primitive topology.
pub open spec fn primitive_type_glenum(t: PrimitiveType) -> u32 {
    match t {
        PrimitiveType::Points => GL_POINTS,
        PrimitiveType::LinesList => GL_LINES,
        PrimitiveType::LinesListAdjacency => GL_LINES_ADJACENCY,
        PrimitiveType::LineStrip => GL_LINE_STRIP,
        PrimitiveType::LineStripAdjacency => GL_LINE_STRIP_ADJACENCY,
        PrimitiveType::LineLoop => GL_LINE_LOOP,
        PrimitiveType::TrianglesList => GL_TRIANGLES,
        PrimitiveType::TrianglesListAdjacency => GL_TRIANGLES_ADJACENCY,
        PrimitiveType::TriangleStrip => GL_TRIANGLE_STRIP,
        PrimitiveType::TriangleStripAdjacency => GL_TRIANGLE_STRIP_ADJACENCY,
        PrimitiveType::TriangleFan => GL_TRIANGLE_FAN,
        PrimitiveType::Patches { .. } => GL_PATCHES,
    }
}

/// Whether a topology belongs to the line class for smoothing purposes.
pub open spec fn is_line_primitive(t: PrimitiveType) -> bool {
    match t {
        PrimitiveType::LinesList => true,
        PrimitiveType::LinesListAdjacency => true,
        PrimitiveType::LineStrip => true,
        PrimitiveType::LineStripAdjacency => true,
        PrimitiveType::LineLoop => true,
        _ => false,
    }
}

impl PrimitiveType {
    /// The device enumerant for this topology.
    pub fn to_glenum(&self) -> (r: u32)
        ensures
            r == primitive_type_glenum(*self),
    {
        match *self {
            PrimitiveType::Points => GL_POINTS,
            PrimitiveType::LinesList => GL_LINES,
            PrimitiveType::LinesListAdjacency => GL_LINES_ADJACENCY,
            PrimitiveType::LineStrip => GL_LINE_STRIP,
            PrimitiveType::LineStripAdjacency => GL_LINE_STRIP_ADJACENCY,
            PrimitiveType::LineLoop => GL_LINE_LOOP,
            PrimitiveType::TrianglesList => GL_TRIANGLES,
            PrimitiveType::TrianglesListAdjacency => GL_TRIANGLES_ADJACENCY,
            PrimitiveType::TriangleStrip => GL_TRIANGLE_STRIP,
            PrimitiveType::TriangleStripAdjacency => GL_TRIANGLE_STRIP_ADJACENCY,
            PrimitiveType::TriangleFan => GL_TRIANGLE_FAN,
            PrimitiveType::Patches { .. } => GL_PATCHES,
        }
    }
}

/// The width of one index element.
#[derive(Clone, Copy, PartialEq, Eq, Structural, Debug)]
pub enum IndexType {
    /// One byte per index.
    U8,
    /// Two bytes per index.
    U16,
    /// Four bytes per index.
    U32,
}

/// The device enumerant for an index element type.
pub open spec fn index_type_glenum(t: IndexType) -> u32 {
    match t {
        IndexType::U8 => GL_UNSIGNED_BYTE,
        IndexType::U16 => GL_UNSIGNED_SHORT,
        IndexType::U32 => GL_UNSIGNED_INT,
    }
}

impl IndexType {
    /// The device enumerant for this element type.
    pub fn to_glenum(&self) -> (r: u32)
        ensures
            r == index_type_glenum(*self),
    {
        match *self {
            IndexType::U8 => GL_UNSIGNED_BYTE,
            IndexType::U16 => GL_UNSIGNED_SHORT,
            IndexType::U32 => GL_UNSIGNED_INT,
        }
    }
}

/// What the engine reads of an externally-owned buffer: its handle, how
/// many elements it holds, where its data starts, and whether its owner
/// wants a completion fence registered when a draw touches it.
#[derive(Clone, Copy, PartialEq, Eq, Structural, Debug)]
pub struct BufferDesc {
    /// The owner's handle for the buffer.
    pub id: u64,
    /// How many elements the buffer holds.
    pub elements_count: usize,
    /// The byte offset of the data inside the buffer.
    pub offset_bytes: usize,
    /// Whether a completion fence must be registered on the buffer.
    pub fenced: bool,
}

/// Where a draw's indices come from; also carries the topology.
#[derive(Clone, Copy, PartialEq, Eq, Structural, Debug)]
pub enum IndicesSource {
    /// A buffer of indices.
    IndexBuffer {
        /// The index buffer.
        buffer: BufferDesc,
        /// The width of one index.
        data_type: IndexType,
        /// The topology to assemble.
        primitives: PrimitiveType,
    },
    /// A buffer of indirect non-indexed draw commands.
    MultidrawArray {
        /// The command buffer.
        buffer: BufferDesc,
        /// The topology to assemble.
        primitives: PrimitiveType,
    },
    /// A buffer of indirect indexed draw commands plus an index buffer.
    MultidrawElement {
        /// The command buffer.
        commands: BufferDesc,
        /// The index buffer.
        indices: BufferDesc,
        /// The width of one index.
        data_type: IndexType,
        /// The topology to assemble.
        primitives: PrimitiveType,
    },
    /// No indices: vertices are consumed in order.
    NoIndices {
        /// The topology to assemble.
        primitives: PrimitiveType,
    },
}

/// The topology an index source assembles.
pub open spec fn spec_primitives_of(src: IndicesSource) -> PrimitiveType {
    match src {
        IndicesSource::IndexBuffer { primitives, .. } => primitives,
        IndicesSource::MultidrawArray { primitives, .. } => primitives,
        IndicesSource::MultidrawElement { primitives, .. } => primitives,
        IndicesSource::NoIndices { primitives } => primitives,
    }
}

impl IndicesSource {
    /// The topology this source assembles.
    pub fn get_primitives_type(&self) -> (r: PrimitiveType)
        ensures
            r == spec_primitives_of(*self),
    {
        match *self {
            IndicesSource::IndexBuffer { primitives, .. } => primitives,
            IndicesSource::MultidrawArray { primitives, .. } => primitives,
            IndicesSource::MultidrawElement { primitives, .. } => primitives,
            IndicesSource::NoIndices { primitives } => primitives,
        }
    }
}

} // verus!
