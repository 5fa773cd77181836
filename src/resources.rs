use vstd::prelude::*;

use crate::format::ImageTiling;
use crate::memory::{MEMORY_DEVICE_LOCAL, MEMORY_HOST_COHERENT, MEMORY_HOST_VISIBLE};

verus! {

/// Buffer usage bit: source of transfers.
pub const BUFFER_USAGE_TRANSFER_SRC: u32 = 0x1;

/// Buffer usage bit: destination of transfers.
pub const BUFFER_USAGE_TRANSFER_DST: u32 = 0x2;

/// Buffer usage bit: uniform buffer.
pub const BUFFER_USAGE_UNIFORM_BUFFER: u32 = 0x10;

/// Buffer usage bit: index buffer.
pub const BUFFER_USAGE_INDEX_BUFFER: u32 = 0x40;

/// Buffer usage bit: vertex buffer.
pub const BUFFER_USAGE_VERTEX_BUFFER: u32 = 0x80;

/// Image usage bit: source of transfers.
pub const IMAGE_USAGE_TRANSFER_SRC: u32 = 0x1;

/// Image usage bit: destination of transfers.
pub const IMAGE_USAGE_TRANSFER_DST: u32 = 0x2;

/// Image usage bit: sampled by shaders.
pub const IMAGE_USAGE_SAMPLED: u32 = 0x4;

/// Image usage bit: depth/stencil attachment.
pub const IMAGE_USAGE_DEPTH_STENCIL_ATTACHMENT: u32 = 0x20;

/// A 2D image of one array layer to create: its size, level count, format,
/// tiling, usage bits and the memory properties its backing memory must
/// have.
#[derive(Clone, Copy, Debug, PartialEq, Eq, Structural)]
pub struct ImageRequest {
    pub width: u32,
    pub height: u32,
    pub mip_levels: u32,
    pub format: i32,
    pub tiling: ImageTiling,
    pub usage: u32,
    pub properties: u32,
}

/// Byte size of the per-frame transforms: three 4 x 4 matrices of 32-bit
/// floats.
pub const UNIFORM_BUFFER_SIZE: u64 = 192;

/// A buffer to create: its size, its usage bits and the memory properties
/// its backing memory must have.
#[derive(Clone, Copy, Debug, PartialEq, Eq, Structural)]
pub struct BufferRequest {
    pub size: u64,
    pub usage: u32,
    pub properties: u32,
}

/// An upload through a staging buffer: the host writes the data into the
/// mapped `staging` buffer, a transfer copies it into `device`, and the
/// staging buffer is released.
#[derive(Clone, Copy, Debug, PartialEq, Eq, Structural)]
pub struct StagedUpload {
    pub staging: BufferRequest,
    pub device: BufferRequest,
}

/// The host-writable memory of staging and uniform buffers.
pub open spec fn host_memory() -> u32 {
    MEMORY_HOST_VISIBLE | MEMORY_HOST_COHERENT
}

/// The upload of `count` elements of `stride` bytes into a device-local
/// buffer that serves as `usage`.
pub open spec fn staged_upload_spec(count: u64, stride: u64, usage: u32) -> StagedUpload {
    StagedUpload {
        staging: BufferRequest {
            size: (count * stride) as u64,
            usage: BUFFER_USAGE_TRANSFER_SRC,
            properties: host_memory(),
        },
        device: BufferRequest {
            size: (count * stride) as u64,
            usage: BUFFER_USAGE_TRANSFER_DST | usage,
            properties: MEMORY_DEVICE_LOCAL,
        },
    }
}

/// Plans the upload of `count` elements of `stride` bytes into a
/// device-local buffer that will serve as `usage`.
pub fn staged_upload(count: u64, stride: u64, usage: u32) -> (r: StagedUpload)
    requires
        count * stride <= u64::MAX,
    ensures
        r == staged_upload_spec(count, stride, usage),
{
    let size = count * stride;
    StagedUpload {
        staging: BufferRequest {
            size,
            usage: BUFFER_USAGE_TRANSFER_SRC,
            properties: MEMORY_HOST_VISIBLE | MEMORY_HOST_COHERENT,
        },
        device: BufferRequest {
            size,
            usage: BUFFER_USAGE_TRANSFER_DST | usage,
            properties: MEMORY_DEVICE_LOCAL,
        },
    }
}

/// Plans the upload of `count` vertices of `stride` bytes.
pub fn create_vertex_buffer(count: u64, stride: u64) -> (r: StagedUpload)
    requires
        count * stride <= u64::MAX,
    ensures
        r == staged_upload_spec(count, stride, BUFFER_USAGE_VERTEX_BUFFER),
{
    staged_upload(count, stride, BUFFER_USAGE_VERTEX_BUFFER)
}

/// Plans the upload of `count` indices of `stride` bytes.
pub fn create_index_buffer(count: u64, stride: u64) -> (r: StagedUpload)
    requires
        count * stride <= u64::MAX,
    ensures
        r == staged_upload_spec(count, stride, BUFFER_USAGE_INDEX_BUFFER),
{
    staged_upload(count, stride, BUFFER_USAGE_INDEX_BUFFER)
}

/// The uniform buffers of a swapchain of `image_count` images: one
/// host-writable buffer per image, so that no frame writes a buffer that
/// another frame's work may still read.
pub fn create_uniform_buffers(image_count: usize) -> (r: Vec<BufferRequest>)
    ensures
        r@.len() == image_count,
        forall|i: int|
            0 <= i < image_count ==> #[trigger] r@[i] == (BufferRequest {
                size: UNIFORM_BUFFER_SIZE,
                usage: BUFFER_USAGE_UNIFORM_BUFFER,
                properties: host_memory(),
            }),
{
    let mut r: Vec<BufferRequest> = Vec::new();
    let mut i: usize = 0;
    while i < image_count
        invariant
            i <= image_count,
            r@.len() == i,
            forall|j: int|
                0 <= j < i ==> #[trigger] r@[j] == (BufferRequest {
                    size: UNIFORM_BUFFER_SIZE,
                    usage: BUFFER_USAGE_UNIFORM_BUFFER,
                    properties: host_memory(),
                }),
        decreases image_count - i,
    {
        r.push(
            BufferRequest {
                size: UNIFORM_BUFFER_SIZE,
                usage: BUFFER_USAGE_UNIFORM_BUFFER,
                properties: MEMORY_HOST_VISIBLE | MEMORY_HOST_COHERENT,
            },
        );
        i += 1;
    }
    r
}

/// The sizes of the descriptor pool: one uniform-buffer descriptor and one
/// combined image-sampler descriptor per set, and one set per swapchain
/// image.
#[derive(Clone, Copy, Debug, PartialEq, Eq, Structural)]
pub struct DescriptorPoolPlan {
    pub uniform_buffers: u32,
    pub combined_image_samplers: u32,
    pub max_sets: u32,
}

/// Sizes the descriptor pool for a swapchain of `image_count` images.
pub fn create_descriptor_pool(image_count: u32) -> (r: DescriptorPoolPlan)
    ensures
        r == (DescriptorPoolPlan {
            uniform_buffers: image_count,
            combined_image_samplers: image_count,
            max_sets: image_count,
        }),
{
    DescriptorPoolPlan {
        uniform_buffers: image_count,
        combined_image_samplers: image_count,
        max_sets: image_count,
    }
}

} // verus!
