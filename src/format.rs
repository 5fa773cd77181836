use vstd::prelude::*;

use crate::error::RenderError;
use crate::has_flags;

verus! {

/// Raw code of the 8-bit sRGB colour format used for textures.
pub const FORMAT_R8G8B8A8_SRGB: i32 = 43;

/// Raw code of the two-component 32-bit float format.
pub const FORMAT_R32G32_SFLOAT: i32 = 103;

/// Raw code of the three-component 32-bit float format.
pub const FORMAT_R32G32B32_SFLOAT: i32 = 106;

/// Raw code of the 16-bit depth format.
pub const FORMAT_D16_UNORM: i32 = 124;

/// Raw code of the 24-bit depth format packed in 32 bits.
pub const FORMAT_X8_D24_UNORM_PACK32: i32 = 125;

/// Raw code of the 32-bit float depth format.
pub const FORMAT_D32_SFLOAT: i32 = 126;

/// Raw code of the 16-bit depth, 8-bit stencil format.
pub const FORMAT_D16_UNORM_S8_UINT: i32 = 128;

/// Raw code of the 24-bit depth, 8-bit stencil format.
pub const FORMAT_D24_UNORM_S8_UINT: i32 = 129;

/// Raw code of the 32-bit float depth, 8-bit stencil format.
pub const FORMAT_D32_SFLOAT_S8_UINT: i32 = 130;

/// Image aspect bit: colour.
pub const ASPECT_COLOR: u32 = 0x1;

/// Image aspect bit: depth.
pub const ASPECT_DEPTH: u32 = 0x2;

/// Image aspect bit: stencil.
pub const ASPECT_STENCIL: u32 = 0x4;

/// Format feature bit: usable as a depth/stencil attachment.
pub const FEATURE_DEPTH_STENCIL_ATTACHMENT: u32 = 0x200;

/// Format feature bit: sampled images can be filtered (and blitted) linearly.
pub const FEATURE_SAMPLED_IMAGE_FILTER_LINEAR: u32 = 0x1000;

/// The two formats that carry both depth and stencil data.
pub open spec fn is_depth_stencil_format(format: i32) -> bool {
    format == FORMAT_D24_UNORM_S8_UINT || format == FORMAT_D32_SFLOAT_S8_UINT
}

/// The formats that carry depth data and nothing else.
pub open spec fn is_depth_only_format(format: i32) -> bool {
    format == FORMAT_D16_UNORM || format == FORMAT_X8_D24_UNORM_PACK32 || format
        == FORMAT_D32_SFLOAT
}

/// The aspect bits a barrier on an image of `format` must name.
pub open spec fn aspect_of(format: i32) -> u32 {
    if is_depth_stencil_format(format) {
        ASPECT_DEPTH | ASPECT_STENCIL
    } else if is_depth_only_format(format) {
        ASPECT_DEPTH
    } else {
        ASPECT_COLOR
    }
}

/// Computes the aspect bits of an image from its format: the two combined
/// depth/stencil formats get depth and stencil, the depth-only formats get
/// depth, and every other format gets colour.
pub fn aspect_mask(format: i32) -> (r: u32)
    ensures
        r == aspect_of(format),
{
    if format == FORMAT_D24_UNORM_S8_UINT || format == FORMAT_D32_SFLOAT_S8_UINT {
        ASPECT_DEPTH | ASPECT_STENCIL
    } else if format == FORMAT_D16_UNORM || format == FORMAT_X8_D24_UNORM_PACK32 || format
        == FORMAT_D32_SFLOAT {
        ASPECT_DEPTH
    } else {
        ASPECT_COLOR
    }
}

/// The tiling an image is created with.
#[derive(Clone, Copy, Debug, PartialEq, Eq, Structural)]
pub enum ImageTiling {
    Optimal,
    Linear,
    /// Any tiling the renderer does not select formats for.
    Other,
}

/// What a device reports of one format: the features it supports under
/// linear and under optimal tiling.
#[derive(Clone, Copy, Debug, PartialEq, Eq, Structural)]
pub struct FormatSupport {
    pub format: i32,
    pub linear_features: u32,
    pub optimal_features: u32,
}

/// Whether `s` supports every feature of `features` under `tiling`.
pub open spec fn supports(s: FormatSupport, tiling: ImageTiling, features: u32) -> bool {
    match tiling {
        ImageTiling::Linear => has_flags(s.linear_features, features),
        ImageTiling::Optimal => has_flags(s.optimal_features, features),
        ImageTiling::Other => false,
    }
}

/// Whether `i` is the first candidate that supports `features`.
pub open spec fn is_first_supported(
    candidates: Seq<FormatSupport>,
    tiling: ImageTiling,
    features: u32,
    i: int,
) -> bool {
    &&& 0 <= i < candidates.len()
    &&& supports(candidates[i], tiling, features)
    &&& forall|j: int| 0 <= j < i ==> !supports(#[trigger] candidates[j], tiling, features)
}

/// Whether some candidate supports `features`.
pub open spec fn some_supported(candidates: Seq<FormatSupport>, tiling: ImageTiling, features: u32) -> bool {
    exists|i: int| 0 <= i < candidates.len() && supports(#[trigger] candidates[i], tiling, features)
}

/// Picks, in order of preference, the first candidate format that supports
/// `features` under `tiling`.
pub fn get_supported_format(candidates: &Vec<FormatSupport>, tiling: ImageTiling, features: u32) -> (r:
    Result<i32, RenderError>)
    ensures
        r is Ok <==> some_supported(candidates@, tiling, features),
        r matches Ok(f) ==> exists|i: int|
            is_first_supported(candidates@, tiling, features, i) && #[trigger] candidates@[i].format
                == f,
        r matches Err(e) ==> e == RenderError::NoSupportedFormat,
{
    let mut i: usize = 0;
    while i < candidates.len()
        invariant
            i <= candidates@.len(),
            forall|j: int| 0 <= j < i ==> !supports(#[trigger] candidates@[j], tiling, features),
        decreases candidates@.len() - i,
    {
        let c = candidates[i];
        let ok = match tiling {
            ImageTiling::Linear => c.linear_features & features == features,
            ImageTiling::Optimal => c.optimal_features & features == features,
            ImageTiling::Other => false,
        };
        if ok {
            assert(is_first_supported(candidates@, tiling, features, i as int));
            return Ok(c.format);
        }
        i += 1;
    }
    Err(RenderError::NoSupportedFormat)
}

/// The depth formats the renderer accepts, most preferred first.
pub open spec fn depth_candidates() -> Seq<i32> {
    seq![FORMAT_D32_SFLOAT, FORMAT_D32_SFLOAT_S8_UINT, FORMAT_D24_UNORM_S8_UINT]
}

/// The depth formats the renderer accepts, most preferred first.
pub fn depth_format_candidates() -> (r: Vec<i32>)
    ensures
        r@ == depth_candidates(),
{
    let r = vec![FORMAT_D32_SFLOAT, FORMAT_D32_SFLOAT_S8_UINT, FORMAT_D24_UNORM_S8_UINT];
    assert(r@ == depth_candidates());
    r
}

/// Picks the depth format: the first entry of `candidates` (the support the
/// device reports for each format of `depth_format_candidates`, in that order)
/// that can be an optimally tiled depth/stencil attachment.
pub fn get_depth_format(candidates: &Vec<FormatSupport>) -> (r: Result<i32, RenderError>)
    ensures
        r is Ok <==> some_supported(
            candidates@,
            ImageTiling::Optimal,
            FEATURE_DEPTH_STENCIL_ATTACHMENT,
        ),
        r matches Ok(f) ==> exists|i: int|
            is_first_supported(
                candidates@,
                ImageTiling::Optimal,
                FEATURE_DEPTH_STENCIL_ATTACHMENT,
                i,
            ) && #[trigger] candidates@[i].format == f,
        r matches Err(e) ==> e == RenderError::NoSupportedFormat,
{
    get_supported_format(candidates, ImageTiling::Optimal, FEATURE_DEPTH_STENCIL_ATTACHMENT)
}

} // verus!
