use chromaticity::buffer_layout::{
    index_buffer_layout, vertex_buffer_layout, AttributePointer, BufferError, BYTES_PER_COMPONENT,
    BYTES_PER_VERTEX, NUM_COLOR_COMPONENTS, NUM_POSITION_COMPONENTS,
};

#[test]
fn vertex_layout_of_three_vertices() {
    let layout = vertex_buffer_layout(3, 4, 7).unwrap();
    assert_eq!(layout.byte_len, 60);
    assert_eq!(layout.element_count, 3);
    assert_eq!(layout.position, AttributePointer { index: 4, components: 2, stride: 20, offset: 0 });
    assert_eq!(layout.color, AttributePointer { index: 7, components: 3, stride: 20, offset: 8 });
}

#[test]
fn vertex_layout_of_no_vertices() {
    let layout = vertex_buffer_layout(0, 0, 1).unwrap();
    assert_eq!(layout.byte_len, 0);
    assert_eq!(layout.element_count, 0);
}

#[test]
fn vertex_layout_rejects_too_many_vertices() {
    assert_eq!(vertex_buffer_layout(i32::MAX as usize, 0, 1).unwrap().element_count, i32::MAX);
    assert_eq!(vertex_buffer_layout(i32::MAX as usize + 1, 0, 1), Err(BufferError::TooManyVertices));
}

#[test]
fn index_layout_counts_and_bytes() {
    let layout = index_buffer_layout(241).unwrap();
    assert_eq!(layout.byte_len, 964);
    assert_eq!(layout.element_count, 241);
    assert_eq!(index_buffer_layout(i32::MAX as usize + 1), Err(BufferError::TooManyIndices));
}

#[test]
fn layout_constants_describe_a_packed_vertex() {
    assert_eq!(BYTES_PER_VERTEX, (NUM_POSITION_COMPONENTS + NUM_COLOR_COMPONENTS) * BYTES_PER_COMPONENT);
    assert_eq!(std::mem::size_of::<[f32; 5]>(), BYTES_PER_VERTEX);
}
