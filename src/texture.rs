use vstd::prelude::*;

use crate::error::RenderError;
use crate::format::{
    aspect_of,
    get_depth_format,
    is_first_supported,
    some_supported,
    FormatSupport,
    ImageTiling,
    ASPECT_DEPTH,
    FEATURE_DEPTH_STENCIL_ATTACHMENT,
    FORMAT_R8G8B8A8_SRGB,
};
use crate::memory::MEMORY_DEVICE_LOCAL;
use crate::resources::{
    host_memory,
    staged_upload,
    BufferRequest,
    ImageRequest,
    BUFFER_USAGE_TRANSFER_SRC,
    IMAGE_USAGE_DEPTH_STENCIL_ATTACHMENT,
    IMAGE_USAGE_SAMPLED,
    IMAGE_USAGE_TRANSFER_DST,
    IMAGE_USAGE_TRANSFER_SRC,
};
use crate::layout::{transition_image_layout, transition_table, ImageLayout, LayoutBarrier};
use crate::mipmap::{
    generate_mipmaps,
    log2_floor,
    max_dim,
    mip_command,
    mip_command_count,
    mip_level_count,
    supports_linear_blit,
    MipCommand,
};

verus! {

/// Everything the GPU work of a texture upload needs: the device-local
/// image with its full mip chain, the host-writable staging buffer that
/// holds the pixels, the barrier that readies every level for the upload,
/// and the commands that then build and finish the mip chain.
pub struct TexturePlan {
    pub image: ImageRequest,
    pub staging: BufferRequest,
    pub upload_barrier: LayoutBarrier,
    pub mip_commands: Vec<MipCommand>,
}

/// The usage of a texture: sampled, written by the upload and the blits,
/// and read by the blits.
pub open spec fn texture_usage() -> u32 {
    IMAGE_USAGE_SAMPLED | IMAGE_USAGE_TRANSFER_DST | IMAGE_USAGE_TRANSFER_SRC
}

/// Plans the upload of a decoded `width` x `height` sRGBA texture of
/// `pixel_bytes` bytes. `format_features` are the optimal-tiling features
/// the device reports for the texture format.
///
/// The image gets a full mip chain. Fails, before any GPU work, if the
/// format cannot be blitted with linear filtering.
pub fn create_texture_image(width: u32, height: u32, pixel_bytes: u64, format_features: u32) -> (r:
    Result<TexturePlan, RenderError>)
    ensures
        r is Ok <==> supports_linear_blit(format_features),
        r matches Err(e) ==> e == RenderError::NoLinearBlit,
        r matches Ok(p) ==> {
            let levels = log2_floor(max_dim(width, height)) + 1;
            &&& p.image == (ImageRequest {
                width,
                height,
                mip_levels: levels as u32,
                format: FORMAT_R8G8B8A8_SRGB,
                tiling: ImageTiling::Optimal,
                usage: texture_usage(),
                properties: MEMORY_DEVICE_LOCAL,
            })
            &&& p.staging == (BufferRequest {
                size: pixel_bytes,
                usage: BUFFER_USAGE_TRANSFER_SRC,
                properties: host_memory(),
            })
            &&& p.upload_barrier == (LayoutBarrier {
                old_layout: ImageLayout::Undefined,
                new_layout: ImageLayout::TransferDst,
                aspect_mask: aspect_of(FORMAT_R8G8B8A8_SRGB),
                base_mip_level: 0,
                level_count: levels as u32,
                masks: transition_table(ImageLayout::Undefined, ImageLayout::TransferDst)->Some_0,
            })
            &&& p.mip_commands@.len() == mip_command_count(levels as u32)
            &&& forall|n: int|
                0 <= n < p.mip_commands@.len() ==> #[trigger] p.mip_commands@[n] == mip_command(
                    width,
                    height,
                    levels as u32,
                    n,
                )
        },
{
    let mip_levels = mip_level_count(width, height);
    let mip_commands = generate_mipmaps(format_features, width, height, mip_levels)?;
    let upload_barrier = transition_image_layout(
        FORMAT_R8G8B8A8_SRGB,
        mip_levels,
        ImageLayout::Undefined,
        ImageLayout::TransferDst,
    )?;
    let image = ImageRequest {
        width,
        height,
        mip_levels,
        format: FORMAT_R8G8B8A8_SRGB,
        tiling: ImageTiling::Optimal,
        usage: IMAGE_USAGE_SAMPLED | IMAGE_USAGE_TRANSFER_DST | IMAGE_USAGE_TRANSFER_SRC,
        properties: MEMORY_DEVICE_LOCAL,
    };
    let staging = staged_upload(pixel_bytes, 1, 0).staging;
    Ok(TexturePlan { image, staging, upload_barrier, mip_commands })
}

/// The depth target: a single-level, optimally tiled, device-local depth
/// attachment of the swapchain's size in the chosen depth format, viewed
/// through its depth aspect.
#[derive(Clone, Copy, Debug, PartialEq, Eq, Structural)]
pub struct DepthPlan {
    pub image: ImageRequest,
    pub view_aspect: u32,
}

/// Plans the depth target for a swapchain of `width` x `height`.
/// `candidates` holds what the device reports for each format of
/// `depth_format_candidates`, in that order.
pub fn create_depth_objects(width: u32, height: u32, candidates: &Vec<FormatSupport>) -> (r: Result<
    DepthPlan,
    RenderError,
>)
    ensures
        r is Ok <==> some_supported(
            candidates@,
            ImageTiling::Optimal,
            FEATURE_DEPTH_STENCIL_ATTACHMENT,
        ),
        r matches Err(e) ==> e == RenderError::NoSupportedFormat,
        r matches Ok(p) ==> {
            &&& p.image == (ImageRequest {
                width,
                height,
                mip_levels: 1,
                format: p.image.format,
                tiling: ImageTiling::Optimal,
                usage: IMAGE_USAGE_DEPTH_STENCIL_ATTACHMENT,
                properties: MEMORY_DEVICE_LOCAL,
            })
            &&& p.view_aspect == ASPECT_DEPTH
            &&& exists|i: int|
                is_first_supported(
                    candidates@,
                    ImageTiling::Optimal,
                    FEATURE_DEPTH_STENCIL_ATTACHMENT,
                    i,
                ) && #[trigger] candidates@[i].format == p.image.format
        },
{
    let format = get_depth_format(candidates)?;
    let image = ImageRequest {
        width,
        height,
        mip_levels: 1,
        format,
        tiling: ImageTiling::Optimal,
        usage: IMAGE_USAGE_DEPTH_STENCIL_ATTACHMENT,
        properties: MEMORY_DEVICE_LOCAL,
    };
    Ok(DepthPlan { image, view_aspect: ASPECT_DEPTH })
}

} // verus!
