use vk_core::memory::{MEMORY_DEVICE_LOCAL, MEMORY_HOST_COHERENT, MEMORY_HOST_VISIBLE};
use vk_core::resources::{
    create_descriptor_pool, create_index_buffer, create_uniform_buffers, create_vertex_buffer,
    BufferRequest, DescriptorPoolPlan, BUFFER_USAGE_INDEX_BUFFER, BUFFER_USAGE_TRANSFER_DST,
    BUFFER_USAGE_TRANSFER_SRC, BUFFER_USAGE_UNIFORM_BUFFER, BUFFER_USAGE_VERTEX_BUFFER,
    UNIFORM_BUFFER_SIZE,
};

#[test]
fn vertex_upload_goes_through_host_visible_staging() {
    let p = create_vertex_buffer(8, 32);
    assert_eq!(
        p.staging,
        BufferRequest {
            size: 256,
            usage: BUFFER_USAGE_TRANSFER_SRC,
            properties: MEMORY_HOST_VISIBLE | MEMORY_HOST_COHERENT,
        }
    );
    assert_eq!(
        p.device,
        BufferRequest {
            size: 256,
            usage: BUFFER_USAGE_TRANSFER_DST | BUFFER_USAGE_VERTEX_BUFFER,
            properties: MEMORY_DEVICE_LOCAL,
        }
    );
}

#[test]
fn index_upload_sizes() {
    let p = create_index_buffer(12, 2);
    assert_eq!(p.staging.size, 24);
    assert_eq!(p.device.size, 24);
    assert_eq!(p.device.usage, BUFFER_USAGE_TRANSFER_DST | BUFFER_USAGE_INDEX_BUFFER);
}

#[test]
fn one_uniform_buffer_per_image() {
    let r = create_uniform_buffers(3);
    assert_eq!(r.len(), 3);
    for b in r {
        assert_eq!(b.size, UNIFORM_BUFFER_SIZE);
        assert_eq!(b.usage, BUFFER_USAGE_UNIFORM_BUFFER);
        assert_eq!(b.properties, MEMORY_HOST_VISIBLE | MEMORY_HOST_COHERENT);
    }
    assert!(create_uniform_buffers(0).is_empty());
}

#[test]
fn descriptor_pool_sized_by_image_count() {
    assert_eq!(
        create_descriptor_pool(3),
        DescriptorPoolPlan { uniform_buffers: 3, combined_image_samplers: 3, max_sets: 3 }
    );
}
