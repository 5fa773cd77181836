use vstd::prelude::*;

use crate::error::RenderError;
use crate::format::{ASPECT_COLOR, FEATURE_SAMPLED_IMAGE_FILTER_LINEAR};
use crate::layout::{
    ImageLayout,
    LayoutBarrier,
    TransitionMasks,
    ACCESS_SHADER_READ,
    ACCESS_TRANSFER_READ,
    ACCESS_TRANSFER_WRITE,
    STAGE_FRAGMENT_SHADER,
    STAGE_TRANSFER,
};
use crate::has_flags;
use vstd::arithmetic::power2::{lemma2_to64, lemma_pow2_unfold, pow2};

verus! {

/// `floor(log2(n))`, taken as 0 for `n` of 0 or 1.
pub open spec fn log2_floor(n: nat) -> nat
    decreases n,
{
    if n <= 1 {
        0
    } else {
        1 + log2_floor(n / 2)
    }
}

/// The larger of two dimensions.
pub open spec fn max_dim(width: u32, height: u32) -> nat {
    if width >= height {
        width as nat
    } else {
        height as nat
    }
}

/// Number of levels of a full mip chain for a `width` x `height` image:
/// `floor(log2(max(width, height))) + 1`.
pub fn mip_level_count(width: u32, height: u32) -> (r: u32)
    ensures
        r == log2_floor(max_dim(width, height)) + 1,
{
    let mut m: u32 = if width >= height {
        width
    } else {
        height
    };
    let mut count: u32 = 1;
    proof {
        lemma2_to64();
        lemma_log2_floor_below(m as nat, 32);
    }
    while m > 1
        invariant
            count + log2_floor(m as nat) == log2_floor(max_dim(width, height)) + 1,
            log2_floor(max_dim(width, height)) <= 31,
        decreases m,
    {
        m = m / 2;
        count = count + 1;
    }
    count
}

/// The next level's size along one dimension: half, rounded down, but at
/// least 1.
pub open spec fn halve(d: u32) -> u32 {
    if d > 1 {
        (d / 2) as u32
    } else {
        1
    }
}

/// The size of mip level `level` of a `width` x `height` image.
pub open spec fn mip_extent(width: u32, height: u32, level: nat) -> (u32, u32)
    decreases level,
{
    if level == 0 {
        (width, height)
    } else {
        let (w, h) = mip_extent(width, height, (level - 1) as nat);
        (halve(w), halve(h))
    }
}

/// Every level after the first is at least 1 x 1, whatever the base size.
pub proof fn lemma_mip_extent_positive(width: u32, height: u32, level: nat)
    requires
        level >= 1,
    ensures
        mip_extent(width, height, level).0 >= 1,
        mip_extent(width, height, level).1 >= 1,
{
}

/// The size of the mip level after one of `width` x `height`: each
/// dimension is halved with floor division and never drops below 1.
pub fn next_mip_extent(width: u32, height: u32) -> (r: (u32, u32))
    ensures
        r == (halve(width), halve(height)),
        r.0 >= 1 && r.1 >= 1,
        r.0 as int == if width / 2 >= 1 { width / 2 } else { 1 },
        r.1 as int == if height / 2 >= 1 { height / 2 } else { 1 },
{
    let w = if width > 1 {
        width / 2
    } else {
        1
    };
    let h = if height > 1 {
        height / 2
    } else {
        1
    };
    (w, h)
}

/// A blit from mip level `src_level` (of the given size) into mip level
/// `dst_level` (of the given size) of the same colour image, with linear
/// filtering.
#[derive(Clone, Copy, Debug, PartialEq, Eq, Structural)]
pub struct MipBlit {
    pub src_level: u32,
    pub src_width: u32,
    pub src_height: u32,
    pub dst_level: u32,
    pub dst_width: u32,
    pub dst_height: u32,
}

/// One command of a mip chain generation.
#[derive(Clone, Copy, Debug, PartialEq, Eq, Structural)]
pub enum MipCommand {
    Barrier(LayoutBarrier),
    Blit(MipBlit),
}

/// The barrier on the single colour level `level` from `old_layout` to
/// `new_layout` with the given masks.
pub open spec fn level_barrier(
    level: u32,
    old_layout: ImageLayout,
    new_layout: ImageLayout,
    src_access: u32,
    dst_access: u32,
    dst_stage: u32,
) -> MipCommand {
    MipCommand::Barrier(
        LayoutBarrier {
            old_layout,
            new_layout,
            aspect_mask: ASPECT_COLOR,
            base_mip_level: level,
            level_count: 1,
            masks: TransitionMasks { src_access, dst_access, src_stage: STAGE_TRANSFER, dst_stage },
        },
    )
}

/// Level `level` becomes a blit source.
pub open spec fn to_transfer_src(level: u32) -> MipCommand {
    level_barrier(
        level,
        ImageLayout::TransferDst,
        ImageLayout::TransferSrc,
        ACCESS_TRANSFER_WRITE,
        ACCESS_TRANSFER_READ,
        STAGE_TRANSFER,
    )
}

/// Level `level`, done as a blit source, becomes readable by shaders.
pub open spec fn src_to_shader_read(level: u32) -> MipCommand {
    level_barrier(
        level,
        ImageLayout::TransferSrc,
        ImageLayout::ShaderReadOnly,
        ACCESS_TRANSFER_READ,
        ACCESS_SHADER_READ,
        STAGE_FRAGMENT_SHADER,
    )
}

/// The last level, written by the last blit, becomes readable by shaders.
pub open spec fn dst_to_shader_read(level: u32) -> MipCommand {
    level_barrier(
        level,
        ImageLayout::TransferDst,
        ImageLayout::ShaderReadOnly,
        ACCESS_TRANSFER_WRITE,
        ACCESS_SHADER_READ,
        STAGE_FRAGMENT_SHADER,
    )
}

/// The blit of level `level` into level `level + 1`.
pub open spec fn blit_down(width: u32, height: u32, level: nat) -> MipCommand {
    let (sw, sh) = mip_extent(width, height, level);
    let (dw, dh) = mip_extent(width, height, level + 1);
    MipCommand::Blit(
        MipBlit {
            src_level: level as u32,
            src_width: sw,
            src_height: sh,
            dst_level: (level + 1) as u32,
            dst_width: dw,
            dst_height: dh,
        },
    )
}

/// The number of commands that generate a chain of `levels` levels.
pub open spec fn mip_command_count(levels: u32) -> nat {
    (3 * (levels - 1) + 1) as nat
}

/// Command `n` of the generation of a chain of `levels` levels: for each
/// level but the last, a barrier that makes it a blit source, the blit into
/// the next level and a barrier that makes it shader-readable; then a
/// barrier that makes the last level shader-readable.
pub open spec fn mip_command(width: u32, height: u32, levels: u32, n: int) -> MipCommand {
    if n == 3 * (levels - 1) {
        dst_to_shader_read((levels - 1) as u32)
    } else if n % 3 == 0 {
        to_transfer_src((n / 3) as u32)
    } else if n % 3 == 1 {
        blit_down(width, height, (n / 3) as nat)
    } else {
        src_to_shader_read((n / 3) as u32)
    }
}

/// Whether a format with optimal-tiling features `features` supports linear
/// blitting.
pub open spec fn supports_linear_blit(features: u32) -> bool {
    has_flags(features, FEATURE_SAMPLED_IMAGE_FILTER_LINEAR)
}

/// Plans the generation of a full mip chain for a colour image whose levels
/// all hold the transfer-destination layout and whose level 0 holds the
/// uploaded pixels. `format_features` are the optimal-tiling features of the
/// image's format.
///
/// Fails, with no command planned, if the format cannot be blitted with
/// linear filtering. Otherwise each level but the last is blitted into the
/// next one, halving the size with a floor of 1, and every level ends up
/// shader-readable.
pub fn generate_mipmaps(format_features: u32, width: u32, height: u32, mip_levels: u32) -> (r:
    Result<Vec<MipCommand>, RenderError>)
    requires
        mip_levels >= 1,
    ensures
        r is Ok <==> supports_linear_blit(format_features),
        r matches Err(e) ==> e == RenderError::NoLinearBlit,
        r matches Ok(cmds) ==> {
            &&& cmds@.len() == mip_command_count(mip_levels)
            &&& forall|n: int|
                0 <= n < cmds@.len() ==> #[trigger] cmds@[n] == mip_command(
                    width,
                    height,
                    mip_levels,
                    n,
                )
        },
{
    if format_features & FEATURE_SAMPLED_IMAGE_FILTER_LINEAR != FEATURE_SAMPLED_IMAGE_FILTER_LINEAR {
        return Err(RenderError::NoLinearBlit);
    }
    let mut cmds: Vec<MipCommand> = Vec::new();
    let mut mip_width = width;
    let mut mip_height = height;
    let mut i: u32 = 1;
    while i < mip_levels
        invariant
            1 <= i <= mip_levels,
            (mip_width, mip_height) == mip_extent(width, height, (i - 1) as nat),
            cmds@.len() == 3 * (i - 1),
            forall|n: int|
                0 <= n < cmds@.len() ==> #[trigger] cmds@[n] == mip_command(
                    width,
                    height,
                    mip_levels,
                    n,
                ),
        decreases mip_levels - i,
    {
        let (next_width, next_height) = next_mip_extent(mip_width, mip_height);
        let base = cmds.len();
        cmds.push(
            MipCommand::Barrier(
                LayoutBarrier {
                    old_layout: ImageLayout::TransferDst,
                    new_layout: ImageLayout::TransferSrc,
                    aspect_mask: ASPECT_COLOR,
                    base_mip_level: i - 1,
                    level_count: 1,
                    masks: TransitionMasks {
                        src_access: ACCESS_TRANSFER_WRITE,
                        dst_access: ACCESS_TRANSFER_READ,
                        src_stage: STAGE_TRANSFER,
                        dst_stage: STAGE_TRANSFER,
                    },
                },
            ),
        );
        cmds.push(
            MipCommand::Blit(
                MipBlit {
                    src_level: i - 1,
                    src_width: mip_width,
                    src_height: mip_height,
                    dst_level: i,
                    dst_width: next_width,
                    dst_height: next_height,
                },
            ),
        );
        cmds.push(
            MipCommand::Barrier(
                LayoutBarrier {
                    old_layout: ImageLayout::TransferSrc,
                    new_layout: ImageLayout::ShaderReadOnly,
                    aspect_mask: ASPECT_COLOR,
                    base_mip_level: i - 1,
                    level_count: 1,
                    masks: TransitionMasks {
                        src_access: ACCESS_TRANSFER_READ,
                        dst_access: ACCESS_SHADER_READ,
                        src_stage: STAGE_TRANSFER,
                        dst_stage: STAGE_FRAGMENT_SHADER,
                    },
                },
            ),
        );
        proof {
            let k = (i - 1) as int;
            assert((3 * k) / 3 == k && (3 * k) % 3 == 0);
            assert((3 * k + 1) / 3 == k && (3 * k + 1) % 3 == 1);
            assert((3 * k + 2) / 3 == k && (3 * k + 2) % 3 == 2);
            assert(cmds@[3 * k] == mip_command(width, height, mip_levels, 3 * k));
            assert(cmds@[3 * k + 1] == mip_command(width, height, mip_levels, 3 * k + 1));
            assert(cmds@[3 * k + 2] == mip_command(width, height, mip_levels, 3 * k + 2));
        }
        mip_width = next_width;
        mip_height = next_height;
        i = i + 1;
    }
    cmds.push(
        MipCommand::Barrier(
            LayoutBarrier {
                old_layout: ImageLayout::TransferDst,
                new_layout: ImageLayout::ShaderReadOnly,
                aspect_mask: ASPECT_COLOR,
                base_mip_level: mip_levels - 1,
                level_count: 1,
                masks: TransitionMasks {
                    src_access: ACCESS_TRANSFER_WRITE,
                    dst_access: ACCESS_SHADER_READ,
                    src_stage: STAGE_TRANSFER,
                    dst_stage: STAGE_FRAGMENT_SHADER,
                },
            },
        ),
    );
    Ok(cmds)
}

/// The per-level layouts after `c` is executed on an image whose levels
/// hold `layouts`, or `None` if `c` finds a level in the wrong layout.
pub open spec fn apply_command(layouts: Seq<ImageLayout>, c: MipCommand) -> Option<Seq<ImageLayout>> {
    match c {
        MipCommand::Barrier(b) => {
            let l = b.base_mip_level as int;
            if b.level_count == 1 && l < layouts.len() && layouts[l] == b.old_layout {
                Some(layouts.update(l, b.new_layout))
            } else {
                None
            }
        },
        MipCommand::Blit(bl) => {
            let src = bl.src_level as int;
            let dst = bl.dst_level as int;
            if src < layouts.len() && dst < layouts.len() && layouts[src] == ImageLayout::TransferSrc
                && layouts[dst] == ImageLayout::TransferDst {
                Some(layouts)
            } else {
                None
            }
        },
    }
}

/// The per-level layouts after `cmds` are executed in order, or `None` if
/// one of them finds a level in the wrong layout.
pub open spec fn run_commands(layouts: Seq<ImageLayout>, cmds: Seq<MipCommand>) -> Option<
    Seq<ImageLayout>,
>
    decreases cmds.len(),
{
    if cmds.len() == 0 {
        Some(layouts)
    } else {
        match run_commands(layouts, cmds.drop_last()) {
            Some(l) => apply_command(l, cmds.last()),
            None => None,
        }
    }
}

/// The commands that `generate_mipmaps` plans for a chain of `levels` levels.
pub open spec fn mip_commands(width: u32, height: u32, levels: u32) -> Seq<MipCommand> {
    Seq::new(mip_command_count(levels), |n: int| mip_command(width, height, levels, n))
}

/// `levels` levels, the first `done` of them shader-readable and the rest
/// transfer destinations.
pub open spec fn levels_done(levels: u32, done: int) -> Seq<ImageLayout> {
    Seq::new(
        levels as nat,
        |j: int|
            if j < done {
                ImageLayout::ShaderReadOnly
            } else {
                ImageLayout::TransferDst
            },
    )
}

proof fn lemma_mip_steps(width: u32, height: u32, levels: u32, k: int)
    requires
        1 <= levels,
        0 <= k < levels,
    ensures
        run_commands(levels_done(levels, 0), mip_commands(width, height, levels).take(3 * k))
            == Some(levels_done(levels, k)),
    decreases k,
{
    let cmds = mip_commands(width, height, levels);
    let init = levels_done(levels, 0);
    if k == 0 {
        assert(cmds.take(0) =~= Seq::<MipCommand>::empty());
    } else {
        let j = k - 1;
        lemma_mip_steps(width, height, levels, j);
        let before = levels_done(levels, j);
        assert((3 * j) / 3 == j && (3 * j) % 3 == 0);
        assert((3 * j + 1) / 3 == j && (3 * j + 1) % 3 == 1);
        assert((3 * j + 2) / 3 == j && (3 * j + 2) % 3 == 2);
        assert(cmds.take(3 * j + 1).drop_last() =~= cmds.take(3 * j));
        assert(cmds.take(3 * j + 2).drop_last() =~= cmds.take(3 * j + 1));
        assert(cmds.take(3 * k).drop_last() =~= cmds.take(3 * j + 2));
        let as_src = before.update(j, ImageLayout::TransferSrc);
        assert(run_commands(init, cmds.take(3 * j + 1)) == Some(as_src));
        assert(run_commands(init, cmds.take(3 * j + 2)) == Some(as_src));
        assert(as_src.update(j, ImageLayout::ShaderReadOnly) =~= levels_done(levels, k));
    }
}

/// Generating the mip chain leaves every level shader-readable: executed on
/// an image whose levels all hold the transfer-destination layout, the
/// commands that `generate_mipmaps` plans each find their levels in the
/// layout they expect, and afterwards every level holds the
/// shader-read-only layout.
pub proof fn lemma_mip_chain_shader_readable(width: u32, height: u32, levels: u32)
    requires
        levels >= 1,
    ensures
        run_commands(levels_done(levels, 0), mip_commands(width, height, levels)) == Some(
            levels_done(levels, levels as int),
        ),
{
    let cmds = mip_commands(width, height, levels);
    let last = levels - 1;
    lemma_mip_steps(width, height, levels, last as int);
    assert(cmds.drop_last() =~= cmds.take(3 * last));
    assert(levels_done(levels, last as int).update(last as int, ImageLayout::ShaderReadOnly)
        =~= levels_done(levels, levels as int));
}

/// `floor(log2(n))` is below `k` when `n` fits in `k` bits.
proof fn lemma_log2_floor_below(n: nat, k: nat)
    requires
        1 <= k,
        n < pow2(k),
    ensures
        log2_floor(n) < k,
    decreases k,
{
    if n > 1 {
        lemma_pow2_unfold(k);
        if k > 1 {
            lemma_log2_floor_below(n / 2, (k - 1) as nat);
        } else {
            lemma2_to64();
        }
    }
}

} // verus!
