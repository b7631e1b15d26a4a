use chromaticity::strip::{triangle_strip_indices, triangle_strip_vertex_slots, VertexSlot, STEPS_TO_CENTER};

#[test]
fn strip_indices_single_point_ring() {
    let indices = triangle_strip_indices(1);
    assert_eq!(indices.len(), 81);
    assert_eq!(indices[0], 0);
    assert_eq!(&indices[1..5], &[0, 1, 1, 2]);
    // The innermost ring joins the center.
    assert_eq!(indices[79], 39);
    assert_eq!(indices[80], 40);
}

#[test]
fn strip_indices_three_point_ring() {
    let indices = triangle_strip_indices(3);
    assert_eq!(indices.len(), 2 * 40 * 3 + 1);
    assert_eq!(&indices[..9], &[2, 0, 3, 1, 4, 2, 5, 3, 6]);
    // Last ring: vertices 117, 118, 119 each step to the center 120.
    assert_eq!(&indices[235..], &[117, 120, 118, 120, 119, 120]);
}

#[test]
fn strip_indices_stay_below_vertex_count() {
    let n = 70;
    let indices = triangle_strip_indices(n);
    let vertex_count = STEPS_TO_CENTER as usize * n + 1;
    assert!(indices.iter().all(|&i| (i as usize) < vertex_count));
    let mut seen = vec![false; vertex_count];
    for &i in &indices {
        seen[i as usize] = true;
    }
    assert!(seen.iter().all(|&s| s));
}

#[test]
fn strip_vertex_slots_order() {
    let slots = triangle_strip_vertex_slots(2);
    assert_eq!(slots.len(), 81);
    assert_eq!(slots[0], VertexSlot::Ring { ring: 0, point: 0 });
    assert_eq!(slots[1], VertexSlot::Ring { ring: 0, point: 1 });
    assert_eq!(slots[2], VertexSlot::Ring { ring: 1, point: 0 });
    assert_eq!(slots[79], VertexSlot::Ring { ring: 39, point: 1 });
    assert_eq!(slots[80], VertexSlot::Center);
}

#[test]
fn strip_steps_inward_between_slots() {
    let n = 4;
    let indices = triangle_strip_indices(n);
    let slots = triangle_strip_vertex_slots(n);
    for k in 0..(40 * n) {
        let outer = slots[indices[2 * k + 1] as usize];
        let inner = slots[indices[2 * k + 2] as usize];
        match outer {
            VertexSlot::Ring { ring, point } => {
                if ring + 1 < STEPS_TO_CENTER {
                    assert_eq!(inner, VertexSlot::Ring { ring: ring + 1, point });
                } else {
                    assert_eq!(inner, VertexSlot::Center);
                }
            }
            VertexSlot::Center => panic!("the outer vertex of a step is on a ring"),
        }
    }
    // The first triangle closes the outer ring.
    assert_eq!(slots[indices[0] as usize], VertexSlot::Ring { ring: 0, point: 3 });
    assert_eq!(slots[indices[1] as usize], VertexSlot::Ring { ring: 0, point: 0 });
}
