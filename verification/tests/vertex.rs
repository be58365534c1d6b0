use rust_learn_wgpu::vertex::{BufferGrowth, ShapeBatcher, INITIAL_INDEX_CAPACITY, INITIAL_VERTEX_CAPACITY};

#[test]
fn new_batch_is_empty_with_initial_capacities() {
    let batch: ShapeBatcher<u8> = ShapeBatcher::new();
    assert!(batch.vertices().is_empty());
    assert!(batch.indices().is_empty());
    assert_eq!(batch.vertex_capacity(), 1024);
    assert_eq!(batch.index_capacity(), 1536);
    assert_eq!(INITIAL_VERTEX_CAPACITY, 1024);
    assert_eq!(INITIAL_INDEX_CAPACITY, 1536);
    assert_eq!(batch.draw_count(), None);
}

#[test]
fn rectangles_become_two_triangles_each() {
    let mut batch = ShapeBatcher::new();
    batch.draw_rectangle('a', 'b', 'c', 'd');
    assert_eq!(batch.vertices(), &['a', 'b', 'c', 'd']);
    assert_eq!(batch.indices(), &[0, 1, 2, 0, 2, 3]);
    batch.draw_rectangle('e', 'f', 'g', 'h');
    assert_eq!(batch.vertices(), &['a', 'b', 'c', 'd', 'e', 'f', 'g', 'h']);
    assert_eq!(batch.indices(), &[0, 1, 2, 0, 2, 3, 4, 5, 6, 4, 6, 7]);
    assert_eq!(batch.draw_count(), Some(12));
}

#[test]
fn every_index_names_a_vertex() {
    let mut batch = ShapeBatcher::new();
    for i in 0..50u32 {
        batch.draw_rectangle(i, i, i, i);
    }
    let n = batch.vertices().len();
    assert_eq!(n, 200);
    assert_eq!(batch.indices().len(), 300);
    assert!(batch.indices().iter().all(|&i| (i as usize) < n));
}

#[test]
fn clear_empties_and_keeps_capacities() {
    let mut batch = ShapeBatcher::new();
    for _ in 0..300 {
        batch.draw_rectangle(0u8, 0, 0, 0);
    }
    assert_eq!(batch.prepare_buffers(), Some(BufferGrowth { vertex_buffer: true, index_buffer: true }));
    assert_eq!(batch.vertex_capacity(), 2400);
    assert_eq!(batch.index_capacity(), 3600);
    batch.clear();
    assert!(batch.vertices().is_empty());
    assert!(batch.indices().is_empty());
    assert_eq!(batch.vertex_capacity(), 2400);
    assert_eq!(batch.index_capacity(), 3600);
    batch.draw_rectangle(1, 2, 3, 4);
    assert_eq!(batch.indices(), &[0, 1, 2, 0, 2, 3]);
}

#[test]
fn nothing_to_prepare_when_empty() {
    let mut batch: ShapeBatcher<u8> = ShapeBatcher::new();
    assert_eq!(batch.prepare_buffers(), None);
    assert_eq!(batch.vertex_capacity(), 1024);
    assert_eq!(batch.index_capacity(), 1536);
}

#[test]
fn buffers_grow_only_when_too_small() {
    let mut batch = ShapeBatcher::new();
    batch.draw_rectangle(0u8, 0, 0, 0);
    assert_eq!(batch.prepare_buffers(), Some(BufferGrowth { vertex_buffer: false, index_buffer: false }));
    assert_eq!(batch.vertex_capacity(), 1024);
    assert_eq!(batch.index_capacity(), 1536);
    for _ in 1..256 {
        batch.draw_rectangle(0, 0, 0, 0);
    }
    // 1024 vertices and 1536 indices fit exactly.
    assert_eq!(batch.prepare_buffers(), Some(BufferGrowth { vertex_buffer: false, index_buffer: false }));
    batch.draw_rectangle(0, 0, 0, 0);
    // 1028 vertices and 1542 indices do not.
    assert_eq!(batch.prepare_buffers(), Some(BufferGrowth { vertex_buffer: true, index_buffer: true }));
    assert_eq!(batch.vertex_capacity(), 2056);
    assert_eq!(batch.index_capacity(), 3084);
    assert_eq!(batch.prepare_buffers(), Some(BufferGrowth { vertex_buffer: false, index_buffer: false }));
    assert_eq!(batch.vertex_capacity(), 2056);
}

#[test]
fn index_bytes_are_the_indices_in_machine_order() {
    let mut batch = ShapeBatcher::new();
    batch.draw_rectangle(0u8, 0, 0, 0);
    batch.draw_rectangle(0u8, 0, 0, 0);
    let bytes = batch.index_bytes();
    assert_eq!(bytes.len(), 48);
    let mut expected = Vec::new();
    for i in batch.indices() {
        expected.extend_from_slice(&i.to_ne_bytes());
    }
    assert_eq!(bytes, expected.as_slice());
    // The seventh index is 4.
    assert_eq!(&bytes[24..28], &4u32.to_ne_bytes());
}
