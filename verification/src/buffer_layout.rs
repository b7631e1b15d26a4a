//! The memory layout of the vertex and index buffers handed to OpenGL.
//!
//! A vertex is two `f32` position components followed by three `f32` color
//! components, packed without padding. The functions here compute the byte
//! lengths of the uploads, the element counts that the draw calls take and
//! the arguments of the two vertex attribute pointers.

use vstd::prelude::*;

verus! {

/// Number of `f32` components of a vertex position (x, y).
pub const NUM_POSITION_COMPONENTS: usize = 2;

/// Number of `f32` components of a vertex color (r, g, b).
pub const NUM_COLOR_COMPONENTS: usize = 3;

/// Size in bytes of one `f32` component.
pub const BYTES_PER_COMPONENT: usize = 4;

/// Size in bytes of one vertex: all its components, without padding.
pub const BYTES_PER_VERTEX: usize = 20;

/// Size in bytes of one `u32` index.
pub const BYTES_PER_INDEX: usize = 4;

/// The arguments of one `glVertexAttribPointer` call for `f32` data.
#[derive(Clone, Copy, Debug, PartialEq, Eq)]
pub struct AttributePointer {
    /// The attribute index in the shader program.
    pub index: u32,
    /// Number of `f32` components of the attribute.
    pub components: i32,
    /// Distance in bytes between the same attribute of consecutive vertices.
    pub stride: i32,
    /// Offset in bytes of the attribute from the start of a vertex.
    pub offset: i32,
}

/// What it takes to upload a slice of vertices and describe its layout.
#[derive(Clone, Copy, Debug, PartialEq, Eq)]
pub struct VertexBufferLayout {
    /// Number of bytes uploaded to the vertex buffer.
    pub byte_len: usize,
    /// Number of vertices, as the draw calls take it.
    pub element_count: i32,
    /// Where the position of each vertex lies.
    pub position: AttributePointer,
    /// Where the color of each vertex lies.
    pub color: AttributePointer,
}

/// What it takes to upload a slice of `u32` indices.
#[derive(Clone, Copy, Debug, PartialEq, Eq)]
pub struct IndexBufferLayout {
    /// Number of bytes uploaded to the index buffer.
    pub byte_len: usize,
    /// Number of indices, as the draw calls take it.
    pub element_count: i32,
}

/// Why a buffer cannot be described to OpenGL.
#[derive(Clone, Copy, Debug, PartialEq, Eq)]
pub enum BufferError {
    /// More vertices than an `i32` element count can hold.
    TooManyVertices,
    /// More indices than an `i32` element count can hold.
    TooManyIndices,
}

/// The attribute pointer of the vertex positions, bound to attribute `index`.
pub open spec fn position_pointer(index: u32) -> AttributePointer {
    AttributePointer {
        index,
        components: NUM_POSITION_COMPONENTS as i32,
        stride: BYTES_PER_VERTEX as i32,
        offset: 0,
    }
}

/// The attribute pointer of the vertex colors, bound to attribute `index`:
/// the color follows the position.
pub open spec fn color_pointer(index: u32) -> AttributePointer {
    AttributePointer {
        index,
        components: NUM_COLOR_COMPONENTS as i32,
        stride: BYTES_PER_VERTEX as i32,
        offset: (NUM_POSITION_COMPONENTS * BYTES_PER_COMPONENT) as i32,
    }
}

/// Describes the upload of `vertex_count` vertices whose positions go to
/// attribute `position_attribute_index` and whose colors go to attribute
/// `color_attribute_index`.
///
/// Fails with `TooManyVertices` exactly when the count does not fit in the
/// `i32` that the draw calls take.
pub fn vertex_buffer_layout(
    vertex_count: usize,
    position_attribute_index: u32,
    color_attribute_index: u32,
) -> (layout: Result<VertexBufferLayout, BufferError>)
    requires
        vertex_count * BYTES_PER_VERTEX <= usize::MAX,
    ensures
        layout is Ok <==> vertex_count <= i32::MAX,
        layout is Err ==> layout == Err::<VertexBufferLayout, BufferError>(BufferError::TooManyVertices),
        layout matches Ok(l) ==> {
            &&& l.byte_len == vertex_count * BYTES_PER_VERTEX
            &&& l.element_count == vertex_count
            &&& l.position == position_pointer(position_attribute_index)
            &&& l.color == color_pointer(color_attribute_index)
            &&& l.position.index == position_attribute_index
            &&& l.color.index == color_attribute_index
            &&& l.position.components == NUM_POSITION_COMPONENTS
            &&& l.color.components == NUM_COLOR_COMPONENTS
            &&& l.position.stride == BYTES_PER_VERTEX && l.color.stride == BYTES_PER_VERTEX
            &&& l.position.offset == 0
            &&& l.color.offset == NUM_POSITION_COMPONENTS * BYTES_PER_COMPONENT
        },
{
    if vertex_count > 0x7fff_ffff {
        return Err(BufferError::TooManyVertices);
    }
    Ok(VertexBufferLayout {
        byte_len: vertex_count * BYTES_PER_VERTEX,
        element_count: vertex_count as i32,
        position: AttributePointer {
            index: position_attribute_index,
            components: NUM_POSITION_COMPONENTS as i32,
            stride: BYTES_PER_VERTEX as i32,
            offset: 0,
        },
        color: AttributePointer {
            index: color_attribute_index,
            components: NUM_COLOR_COMPONENTS as i32,
            stride: BYTES_PER_VERTEX as i32,
            offset: (NUM_POSITION_COMPONENTS * BYTES_PER_COMPONENT) as i32,
        },
    })
}

/// Describes the upload of `index_count` `u32` indices.
///
/// Fails with `TooManyIndices` exactly when the count does not fit in the
/// `i32` that the draw calls take.
pub fn index_buffer_layout(index_count: usize) -> (layout: Result<IndexBufferLayout, BufferError>)
    requires
        index_count * BYTES_PER_INDEX <= usize::MAX,
    ensures
        layout is Ok <==> index_count <= i32::MAX,
        layout is Err ==> layout == Err::<IndexBufferLayout, BufferError>(BufferError::TooManyIndices),
        layout matches Ok(l) ==> {
            &&& l.byte_len == index_count * BYTES_PER_INDEX
            &&& l.element_count == index_count
        },
{
    if index_count > 0x7fff_ffff {
        return Err(BufferError::TooManyIndices);
    }
    Ok(IndexBufferLayout { byte_len: index_count * BYTES_PER_INDEX, element_count: index_count as i32 })
}

/// The two attributes tile a vertex: the position starts the vertex, the
/// color starts where the position ends, the color ends where the vertex
/// ends, and the stride is the size of a whole vertex, so consecutive
/// vertices neither overlap nor leave gaps.
pub proof fn lemma_attributes_tile_vertex(position_index: u32, color_index: u32)
    ensures
        position_pointer(position_index).offset == 0,
        position_pointer(position_index).offset + position_pointer(position_index).components
            * BYTES_PER_COMPONENT == color_pointer(color_index).offset,
        color_pointer(color_index).offset + color_pointer(color_index).components
            * BYTES_PER_COMPONENT == BYTES_PER_VERTEX,
        position_pointer(position_index).stride == BYTES_PER_VERTEX,
        color_pointer(color_index).stride == BYTES_PER_VERTEX,
        BYTES_PER_VERTEX == (NUM_POSITION_COMPONENTS + NUM_COLOR_COMPONENTS) * BYTES_PER_COMPONENT,
{
}

/// Each attribute pointer is bound to the attribute index it is given:
/// the position pointer to the position attribute and the color pointer to
/// the color attribute, so two distinct indices get two distinct pointers
/// and neither overwrites the other.
pub proof fn lemma_pointers_bind_given_indices(position_index: u32, color_index: u32)
    ensures
        position_pointer(position_index).index == position_index,
        color_pointer(color_index).index == color_index,
        position_index != color_index ==> position_pointer(position_index).index != color_pointer(
            color_index,
        ).index,
{
}

} // verus!
