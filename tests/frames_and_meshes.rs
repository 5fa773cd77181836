use vk_core::frame_sync::{FrameError, FrameSync};
use vk_core::mesh::{Vec2Bits, Vec3Bits, Vertex};
use vk_core::mesh::dedup_vertices;

fn vertex(p: u32, t: u32) -> Vertex {
    Vertex::new(
        Vec3Bits { x: p, y: 0, z: 0 },
        Vec3Bits { x: 1, y: 1, z: 1 },
        Vec2Bits { x: t, y: 0 },
    )
}

#[test]
fn equal_vertices_share_an_index() {
    let a = vertex(1, 0);
    let b = vertex(2, 0);
    let c = vertex(1, 5);
    let (unique, indices) = dedup_vertices(&vec![a, b, a, c, b, a]);
    assert_eq!(unique, vec![a, b, c]);
    assert_eq!(indices, vec![0, 1, 0, 2, 1, 0]);
}

#[test]
fn empty_mesh_has_no_vertices() {
    let (unique, indices) = dedup_vertices(&vec![]);
    assert!(unique.is_empty());
    assert!(indices.is_empty());
}

#[test]
fn distinct_vertices_numbered_in_first_seen_order() {
    let input: Vec<Vertex> = (0..10).map(|i| vertex(i, i)).collect();
    let (unique, indices) = dedup_vertices(&input);
    assert_eq!(unique, input);
    assert_eq!(indices, (0..10).collect::<Vec<u32>>());
}

#[test]
fn vertex_layout_descriptions() {
    let b = Vertex::binding_description();
    assert_eq!((b.binding, b.stride, b.per_vertex), (0, 32, true));
    let a = Vertex::attribute_descriptions();
    assert_eq!(a.iter().map(|d| d.offset).collect::<Vec<_>>(), vec![0, 12, 24]);
    assert_eq!(a.iter().map(|d| d.location).collect::<Vec<_>>(), vec![0, 1, 2]);
    assert_eq!(a.iter().map(|d| d.format).collect::<Vec<_>>(), vec![106, 106, 103]);
}

#[test]
fn image_guarded_by_unsignaled_fence_is_refused() {
    let mut s = FrameSync::new(2, 3);
    assert_eq!(s.current_frame(), 0);
    assert_eq!(s.submit(0), Ok(0));
    assert_eq!(s.guard(0), Some(0));
    assert!(!s.finish_frame(false));
    assert_eq!(s.current_frame(), 1);
    assert_eq!(s.image_fence_to_wait(0), Some(0));
    assert_eq!(s.submit(0), Err(FrameError::ImageInFlight));
    s.fence_signaled(0);
    assert_eq!(s.image_fence_to_wait(0), None);
    assert_eq!(s.submit(0), Ok(1));
    assert_eq!(s.guard(0), Some(1));
}

#[test]
fn slot_fence_must_signal_before_reuse() {
    let mut s = FrameSync::new(1, 2);
    assert_eq!(s.submit(0), Ok(0));
    assert!(!s.finish_frame(false));
    assert_eq!(s.current_frame(), 0);
    assert_eq!(s.submit(1), Err(FrameError::SlotInFlight));
    s.fence_signaled(0);
    assert_eq!(s.submit(1), Ok(0));
    assert_eq!(s.submit(5), Err(FrameError::ImageOutOfRange));
}

#[test]
fn resize_and_stale_present_trigger_recreation() {
    let mut s = FrameSync::new(2, 2);
    assert!(s.finish_frame(true));
    s.notify_resized();
    assert!(s.finish_frame(false));
    assert!(!s.finish_frame(false));
    assert_eq!(s.current_frame(), 1);
}

#[test]
fn recreation_clears_guards() {
    let mut s = FrameSync::new(2, 2);
    assert_eq!(s.submit(1), Ok(0));
    s.swapchain_recreated(4);
    assert_eq!(s.image_count(), 4);
    for i in 0..4 {
        assert_eq!(s.guard(i), None);
    }
    assert_eq!(s.submit(3), Ok(0));
    assert_eq!(s.frames_in_flight(), 2);
}

#[test]
fn vertices_sharing_a_table_key_stay_distinct() {
    let zero = Vec3Bits { x: 0, y: 0, z: 0 };
    let a = Vertex::new(Vec3Bits { x: 0, y: 1, z: 0 }, zero, Vec2Bits { x: 0, y: 0 });
    let b = Vertex::new(zero, zero, Vec2Bits { x: 0, y: 1 });
    let (unique, indices) = dedup_vertices(&vec![a, b, a, b, b]);
    assert_eq!(unique, vec![a, b]);
    assert_eq!(indices, vec![0, 1, 0, 1, 1]);
}

#[test]
fn new_vertices_take_the_count_of_distinct_ones_before() {
    let a = vertex(1, 1);
    let b = vertex(2, 2);
    let c = vertex(3, 3);
    let (_, indices) = dedup_vertices(&vec![a, a, b, a, c, b]);
    assert_eq!(indices, vec![0, 0, 1, 0, 2, 1]);
}
