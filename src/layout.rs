use vstd::prelude::*;

use crate::error::RenderError;
use crate::format::{aspect_mask, aspect_of};

verus! {

/// Pipeline stage bit: the top of the pipe.
pub const STAGE_TOP_OF_PIPE: u32 = 0x1;

/// Pipeline stage bit: the fragment shader.
pub const STAGE_FRAGMENT_SHADER: u32 = 0x80;

/// Pipeline stage bit: transfers (copies and blits).
pub const STAGE_TRANSFER: u32 = 0x1000;

/// Access bit: no access.
pub const ACCESS_NONE: u32 = 0x0;

/// Access bit: reads by shaders.
pub const ACCESS_SHADER_READ: u32 = 0x20;

/// Access bit: reads by transfers.
pub const ACCESS_TRANSFER_READ: u32 = 0x800;

/// Access bit: writes by transfers.
pub const ACCESS_TRANSFER_WRITE: u32 = 0x1000;

/// The layouts an image moves through in this renderer.
#[derive(Clone, Copy, Debug, PartialEq, Eq, Structural)]
pub enum ImageLayout {
    Undefined,
    TransferDst,
    TransferSrc,
    ShaderReadOnly,
    DepthStencilAttachment,
}

/// The access and stage masks that order the work around one transition.
#[derive(Clone, Copy, Debug, PartialEq, Eq, Structural)]
pub struct TransitionMasks {
    pub src_access: u32,
    pub dst_access: u32,
    pub src_stage: u32,
    pub dst_stage: u32,
}

/// A pipeline barrier that moves mip levels `base_mip_level ..
/// base_mip_level + level_count` of the single array layer of an image from
/// `old_layout` to `new_layout`.
#[derive(Clone, Copy, Debug, PartialEq, Eq, Structural)]
pub struct LayoutBarrier {
    pub old_layout: ImageLayout,
    pub new_layout: ImageLayout,
    pub aspect_mask: u32,
    pub base_mip_level: u32,
    pub level_count: u32,
    pub masks: TransitionMasks,
}

/// The transition table: the masks of each supported `(from, to)` pair.
pub open spec fn transition_table(from: ImageLayout, to: ImageLayout) -> Option<TransitionMasks> {
    match (from, to) {
        (ImageLayout::Undefined, ImageLayout::TransferDst) => Some(
            TransitionMasks {
                src_access: ACCESS_NONE,
                dst_access: ACCESS_TRANSFER_WRITE,
                src_stage: STAGE_TOP_OF_PIPE,
                dst_stage: STAGE_TRANSFER,
            },
        ),
        (ImageLayout::TransferDst, ImageLayout::ShaderReadOnly) => Some(
            TransitionMasks {
                src_access: ACCESS_TRANSFER_WRITE,
                dst_access: ACCESS_SHADER_READ,
                src_stage: STAGE_TRANSFER,
                dst_stage: STAGE_FRAGMENT_SHADER,
            },
        ),
        _ => None,
    }
}

/// The transition table is closed: it holds exactly the two pairs
/// undefined to transfer-destination and transfer-destination to
/// shader-read-only, and every other pair is refused.
pub proof fn lemma_transition_table_closed(from: ImageLayout, to: ImageLayout)
    ensures
        transition_table(from, to) is Some <==> (from == ImageLayout::Undefined && to
            == ImageLayout::TransferDst) || (from == ImageLayout::TransferDst && to
            == ImageLayout::ShaderReadOnly),
{
}

/// Looks a `(from, to)` pair up in the transition table.
pub fn transition_masks(from: ImageLayout, to: ImageLayout) -> (r: Result<TransitionMasks, RenderError>)
    ensures
        r is Ok <==> transition_table(from, to) is Some,
        r matches Ok(m) ==> transition_table(from, to) == Some(m),
        r matches Err(e) ==> e == RenderError::UnsupportedTransition,
{
    match (from, to) {
        (ImageLayout::Undefined, ImageLayout::TransferDst) => Ok(
            TransitionMasks {
                src_access: ACCESS_NONE,
                dst_access: ACCESS_TRANSFER_WRITE,
                src_stage: STAGE_TOP_OF_PIPE,
                dst_stage: STAGE_TRANSFER,
            },
        ),
        (ImageLayout::TransferDst, ImageLayout::ShaderReadOnly) => Ok(
            TransitionMasks {
                src_access: ACCESS_TRANSFER_WRITE,
                dst_access: ACCESS_SHADER_READ,
                src_stage: STAGE_TRANSFER,
                dst_stage: STAGE_FRAGMENT_SHADER,
            },
        ),
        _ => Err(RenderError::UnsupportedTransition),
    }
}

/// Builds the barrier that moves all `mip_levels` levels of an image of
/// `format` from `old_layout` to `new_layout`, or fails if the pair is not in
/// the transition table.
pub fn transition_image_layout(
    format: i32,
    mip_levels: u32,
    old_layout: ImageLayout,
    new_layout: ImageLayout,
) -> (r: Result<LayoutBarrier, RenderError>)
    ensures
        r is Ok <==> transition_table(old_layout, new_layout) is Some,
        r matches Ok(b) ==> b == (LayoutBarrier {
            old_layout,
            new_layout,
            aspect_mask: aspect_of(format),
            base_mip_level: 0,
            level_count: mip_levels,
            masks: transition_table(old_layout, new_layout)->Some_0,
        }),
        r matches Err(e) ==> e == RenderError::UnsupportedTransition,
{
    let masks = transition_masks(old_layout, new_layout)?;
    Ok(
        LayoutBarrier {
            old_layout,
            new_layout,
            aspect_mask: aspect_mask(format),
            base_mip_level: 0,
            level_count: mip_levels,
            masks,
        },
    )
}

} // verus!
