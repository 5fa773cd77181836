use vk_core::error::RenderError;
use vk_core::format::{
    aspect_mask, depth_format_candidates, get_depth_format, get_supported_format, FormatSupport,
    ImageTiling, ASPECT_COLOR, ASPECT_DEPTH, ASPECT_STENCIL, FEATURE_DEPTH_STENCIL_ATTACHMENT,
    FEATURE_SAMPLED_IMAGE_FILTER_LINEAR, FORMAT_D16_UNORM, FORMAT_D16_UNORM_S8_UINT,
    FORMAT_D24_UNORM_S8_UINT, FORMAT_D32_SFLOAT, FORMAT_X8_D24_UNORM_PACK32,
    FORMAT_D32_SFLOAT_S8_UINT, FORMAT_R8G8B8A8_SRGB,
};
use vk_core::layout::ImageLayout::{ShaderReadOnly, TransferDst, TransferSrc};
use vk_core::layout::{
    transition_image_layout, transition_masks, ImageLayout, LayoutBarrier, TransitionMasks,
    ACCESS_NONE, ACCESS_SHADER_READ, ACCESS_TRANSFER_READ, ACCESS_TRANSFER_WRITE,
    STAGE_FRAGMENT_SHADER, STAGE_TOP_OF_PIPE, STAGE_TRANSFER,
};
use vk_core::mipmap::{generate_mipmaps, mip_level_count, next_mip_extent, MipBlit, MipCommand};
use vk_core::memory::{MEMORY_DEVICE_LOCAL, MEMORY_HOST_COHERENT, MEMORY_HOST_VISIBLE};
use vk_core::resources::{
    BufferRequest, ImageRequest, BUFFER_USAGE_TRANSFER_SRC, IMAGE_USAGE_DEPTH_STENCIL_ATTACHMENT,
    IMAGE_USAGE_SAMPLED, IMAGE_USAGE_TRANSFER_DST, IMAGE_USAGE_TRANSFER_SRC,
};
use vk_core::texture::{create_depth_objects, create_texture_image};

#[test]
fn mip_level_count_examples() {
    assert_eq!(mip_level_count(1024, 1024), 11);
    assert_eq!(mip_level_count(300, 200), 9);
    assert_eq!(mip_level_count(200, 300), 9);
    assert_eq!(mip_level_count(1, 1), 1);
    assert_eq!(mip_level_count(2, 1), 2);
    assert_eq!(mip_level_count(1023, 1), 10);
    assert_eq!(mip_level_count(u32::MAX, 7), 32);
    assert_eq!(mip_level_count(0, 0), 1);
}

#[test]
fn mip_step_halves_and_clamps() {
    assert_eq!(next_mip_extent(3, 3), (1, 1));
    assert_eq!(next_mip_extent(1, 1), (1, 1));
    assert_eq!(next_mip_extent(1024, 5), (512, 2));
    assert_eq!(next_mip_extent(7, 1), (3, 1));
    assert_eq!(next_mip_extent(0, 2), (1, 1));
}

#[test]
fn mipmaps_refused_without_linear_blit() {
    let r = generate_mipmaps(FEATURE_DEPTH_STENCIL_ATTACHMENT, 64, 64, 7);
    assert_eq!(r, Err(RenderError::NoLinearBlit));
}

fn barrier(level: u32, old: ImageLayout, new: ImageLayout, masks: TransitionMasks) -> MipCommand {
    MipCommand::Barrier(LayoutBarrier {
        old_layout: old,
        new_layout: new,
        aspect_mask: ASPECT_COLOR,
        base_mip_level: level,
        level_count: 1,
        masks,
    })
}

#[test]
fn mipmap_commands_for_odd_size() {
    let cmds = generate_mipmaps(FEATURE_SAMPLED_IMAGE_FILTER_LINEAR, 5, 3, 3).unwrap();
    let to_src = TransitionMasks {
        src_access: ACCESS_TRANSFER_WRITE,
        dst_access: ACCESS_TRANSFER_READ,
        src_stage: STAGE_TRANSFER,
        dst_stage: STAGE_TRANSFER,
    };
    let src_to_read = TransitionMasks {
        src_access: ACCESS_TRANSFER_READ,
        dst_access: ACCESS_SHADER_READ,
        src_stage: STAGE_TRANSFER,
        dst_stage: STAGE_FRAGMENT_SHADER,
    };
    let dst_to_read = TransitionMasks {
        src_access: ACCESS_TRANSFER_WRITE,
        dst_access: ACCESS_SHADER_READ,
        src_stage: STAGE_TRANSFER,
        dst_stage: STAGE_FRAGMENT_SHADER,
    };
    let expected = vec![
        barrier(0, TransferDst, TransferSrc, to_src),
        MipCommand::Blit(MipBlit {
            src_level: 0,
            src_width: 5,
            src_height: 3,
            dst_level: 1,
            dst_width: 2,
            dst_height: 1,
        }),
        barrier(0, TransferSrc, ShaderReadOnly, src_to_read),
        barrier(1, TransferDst, TransferSrc, to_src),
        MipCommand::Blit(MipBlit {
            src_level: 1,
            src_width: 2,
            src_height: 1,
            dst_level: 2,
            dst_width: 1,
            dst_height: 1,
        }),
        barrier(1, TransferSrc, ShaderReadOnly, src_to_read),
        barrier(2, TransferDst, ShaderReadOnly, dst_to_read),
    ];
    assert_eq!(cmds, expected);
}

#[test]
fn single_level_chain_only_finishes_level_zero() {
    let cmds = generate_mipmaps(FEATURE_SAMPLED_IMAGE_FILTER_LINEAR, 1, 1, 1).unwrap();
    assert_eq!(cmds.len(), 1);
    match cmds[0] {
        MipCommand::Barrier(b) => {
            assert_eq!(b.base_mip_level, 0);
            assert_eq!(b.old_layout, ImageLayout::TransferDst);
            assert_eq!(b.new_layout, ImageLayout::ShaderReadOnly);
        }
        MipCommand::Blit(_) => panic!("expected a barrier"),
    }
}

#[test]
fn transition_table_accepts_upload_pair() {
    let b = transition_image_layout(
        FORMAT_R8G8B8A8_SRGB,
        4,
        ImageLayout::Undefined,
        ImageLayout::TransferDst,
    )
    .unwrap();
    assert_eq!(
        b,
        LayoutBarrier {
            old_layout: ImageLayout::Undefined,
            new_layout: ImageLayout::TransferDst,
            aspect_mask: ASPECT_COLOR,
            base_mip_level: 0,
            level_count: 4,
            masks: TransitionMasks {
                src_access: ACCESS_NONE,
                dst_access: ACCESS_TRANSFER_WRITE,
                src_stage: STAGE_TOP_OF_PIPE,
                dst_stage: STAGE_TRANSFER,
            },
        }
    );
}

#[test]
fn transition_table_accepts_sampling_pair() {
    let m = transition_masks(ImageLayout::TransferDst, ImageLayout::ShaderReadOnly).unwrap();
    assert_eq!(
        m,
        TransitionMasks {
            src_access: ACCESS_TRANSFER_WRITE,
            dst_access: ACCESS_SHADER_READ,
            src_stage: STAGE_TRANSFER,
            dst_stage: STAGE_FRAGMENT_SHADER,
        }
    );
}

#[test]
fn transition_table_refuses_other_pairs() {
    let all = [
        ImageLayout::Undefined,
        ImageLayout::TransferDst,
        ImageLayout::TransferSrc,
        ImageLayout::ShaderReadOnly,
        ImageLayout::DepthStencilAttachment,
    ];
    let mut accepted = 0;
    for from in all {
        for to in all {
            if transition_masks(from, to).is_ok() {
                accepted += 1;
            } else {
                assert_eq!(transition_masks(from, to), Err(RenderError::UnsupportedTransition));
            }
        }
    }
    assert_eq!(accepted, 2);
    assert_eq!(
        transition_image_layout(
            FORMAT_R8G8B8A8_SRGB,
            1,
            ImageLayout::ShaderReadOnly,
            ImageLayout::TransferDst
        ),
        Err(RenderError::UnsupportedTransition)
    );
}

#[test]
fn aspect_follows_format() {
    assert_eq!(aspect_mask(FORMAT_R8G8B8A8_SRGB), ASPECT_COLOR);
    assert_eq!(aspect_mask(FORMAT_D32_SFLOAT), ASPECT_DEPTH);
    assert_eq!(aspect_mask(FORMAT_D32_SFLOAT_S8_UINT), ASPECT_DEPTH | ASPECT_STENCIL);
    assert_eq!(aspect_mask(FORMAT_D24_UNORM_S8_UINT), ASPECT_DEPTH | ASPECT_STENCIL);
    assert_eq!(aspect_mask(FORMAT_D16_UNORM), ASPECT_DEPTH);
    assert_eq!(aspect_mask(FORMAT_X8_D24_UNORM_PACK32), ASPECT_DEPTH);
}

#[test]
fn d16_with_stencil_is_neither_named_depth_class() {
    assert_eq!(aspect_mask(FORMAT_D16_UNORM_S8_UINT), ASPECT_COLOR);
    let b = transition_image_layout(
        FORMAT_D16_UNORM_S8_UINT,
        1,
        ImageLayout::Undefined,
        ImageLayout::TransferDst,
    )
    .unwrap();
    assert_eq!(b.aspect_mask, ASPECT_COLOR);
}

fn support(format: i32, linear: u32, optimal: u32) -> FormatSupport {
    FormatSupport { format, linear_features: linear, optimal_features: optimal }
}

#[test]
fn supported_format_is_first_match_for_tiling() {
    let c = vec![
        support(FORMAT_D32_SFLOAT, FEATURE_DEPTH_STENCIL_ATTACHMENT, 0),
        support(FORMAT_D32_SFLOAT_S8_UINT, 0, FEATURE_DEPTH_STENCIL_ATTACHMENT),
        support(FORMAT_D24_UNORM_S8_UINT, 0, FEATURE_DEPTH_STENCIL_ATTACHMENT),
    ];
    let f = FEATURE_DEPTH_STENCIL_ATTACHMENT;
    assert_eq!(get_supported_format(&c, ImageTiling::Optimal, f), Ok(FORMAT_D32_SFLOAT_S8_UINT));
    assert_eq!(get_supported_format(&c, ImageTiling::Linear, f), Ok(FORMAT_D32_SFLOAT));
    assert_eq!(
        get_supported_format(&c, ImageTiling::Other, f),
        Err(RenderError::NoSupportedFormat)
    );
    assert_eq!(get_depth_format(&c), Ok(FORMAT_D32_SFLOAT_S8_UINT));
}

#[test]
fn depth_format_missing_fails() {
    let c: Vec<FormatSupport> = depth_format_candidates()
        .into_iter()
        .map(|f| support(f, FEATURE_DEPTH_STENCIL_ATTACHMENT, 0))
        .collect();
    assert_eq!(get_depth_format(&c), Err(RenderError::NoSupportedFormat));
    assert_eq!(create_depth_objects(800, 600, &c), Err(RenderError::NoSupportedFormat));
}

#[test]
fn depth_objects_use_first_supported_candidate() {
    let c: Vec<FormatSupport> = depth_format_candidates()
        .into_iter()
        .map(|f| support(f, 0, FEATURE_DEPTH_STENCIL_ATTACHMENT))
        .collect();
    let p = create_depth_objects(800, 600, &c).unwrap();
    assert_eq!(
        p.image,
        ImageRequest {
            width: 800,
            height: 600,
            mip_levels: 1,
            format: FORMAT_D32_SFLOAT,
            tiling: ImageTiling::Optimal,
            usage: IMAGE_USAGE_DEPTH_STENCIL_ATTACHMENT,
            properties: MEMORY_DEVICE_LOCAL,
        }
    );
    assert_eq!(p.view_aspect, ASPECT_DEPTH);
}

#[test]
fn texture_plan_has_full_chain() {
    let p = create_texture_image(300, 200, 300 * 200 * 4, FEATURE_SAMPLED_IMAGE_FILTER_LINEAR)
        .unwrap();
    assert_eq!(
        p.image,
        ImageRequest {
            width: 300,
            height: 200,
            mip_levels: 9,
            format: FORMAT_R8G8B8A8_SRGB,
            tiling: ImageTiling::Optimal,
            usage: IMAGE_USAGE_SAMPLED | IMAGE_USAGE_TRANSFER_DST | IMAGE_USAGE_TRANSFER_SRC,
            properties: MEMORY_DEVICE_LOCAL,
        }
    );
    assert_eq!(
        p.staging,
        BufferRequest {
            size: 240_000,
            usage: BUFFER_USAGE_TRANSFER_SRC,
            properties: MEMORY_HOST_VISIBLE | MEMORY_HOST_COHERENT,
        }
    );
    assert_eq!(p.upload_barrier.level_count, 9);
    assert_eq!(p.upload_barrier.old_layout, ImageLayout::Undefined);
    assert_eq!(p.upload_barrier.new_layout, ImageLayout::TransferDst);
    assert_eq!(p.mip_commands.len(), 3 * 8 + 1);
    match p.mip_commands[3 * 7 + 1] {
        MipCommand::Blit(b) => assert_eq!((b.src_width, b.src_height, b.dst_width, b.dst_height), (2, 1, 1, 1)),
        MipCommand::Barrier(_) => panic!("expected a blit"),
    }
}

#[test]
fn texture_plan_refused_without_linear_blit() {
    assert!(matches!(
        create_texture_image(16, 16, 1024, 0),
        Err(RenderError::NoLinearBlit)
    ));
}
