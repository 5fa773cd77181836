use vstd::prelude::*;

use crate::error::RenderError;
use crate::format::aspect_of;
use crate::layout::{transition_image_layout, transition_table, ImageLayout, LayoutBarrier};
use crate::mipmap::{apply_command, MipBlit, MipCommand};

verus! {

/// An image together with the layout each of its mip levels is in, so that
/// every transition is checked against the image's real state instead of a
/// layout the caller assumes.
pub struct TrackedImage {
    format: i32,
    layouts: Vec<ImageLayout>,
}

/// Whether every level of `layouts` is in `layout`.
pub open spec fn all_in(layouts: Seq<ImageLayout>, layout: ImageLayout) -> bool {
    forall|i: int| 0 <= i < layouts.len() ==> #[trigger] layouts[i] == layout
}

impl TrackedImage {
    /// The image's format.
    pub closed spec fn format_spec(&self) -> i32 {
        self.format
    }

    /// The layout of each mip level.
    pub closed spec fn layouts_spec(&self) -> Seq<ImageLayout> {
        self.layouts@
    }

    /// A freshly created image of `format` with `mip_levels` levels, all in
    /// the undefined layout.
    pub fn new(format: i32, mip_levels: u32) -> (r: TrackedImage)
        requires
            mip_levels >= 1,
        ensures
            r.format_spec() == format,
            r.layouts_spec() == Seq::new(mip_levels as nat, |i: int| ImageLayout::Undefined),
    {
        let mut layouts: Vec<ImageLayout> = Vec::new();
        let mut i: u32 = 0;
        while i < mip_levels
            invariant
                i <= mip_levels,
                layouts@ =~= Seq::new(i as nat, |j: int| ImageLayout::Undefined),
            decreases mip_levels - i,
        {
            layouts.push(ImageLayout::Undefined);
            i += 1;
        }
        TrackedImage { format, layouts }
    }

    /// The layout of mip level `level`.
    pub fn layout(&self, level: usize) -> (r: ImageLayout)
        requires
            level < self.layouts_spec().len(),
        ensures
            r == self.layouts_spec()[level as int],
    {
        self.layouts[level]
    }

    /// Number of mip levels.
    pub fn mip_levels(&self) -> (r: usize)
        ensures
            r == self.layouts_spec().len(),
    {
        self.layouts.len()
    }

    /// Moves every level to `new_layout` and returns the barrier to record.
    ///
    /// All levels must share one layout, and the pair of that layout and
    /// `new_layout` must be in the transition table; otherwise the image is
    /// left as it is.
    pub fn transition(&mut self, new_layout: ImageLayout) -> (r: Result<LayoutBarrier, RenderError>)
        requires
            1 <= old(self).layouts_spec().len() <= u32::MAX,
        ensures
            final(self).format_spec() == old(self).format_spec(),
            ({
                let ls = old(self).layouts_spec();
                let from = ls[0];
                &&& r is Ok <==> all_in(ls, from) && transition_table(from, new_layout) is Some
                &&& r matches Ok(b) ==> {
                    &&& b == (LayoutBarrier {
                        old_layout: from,
                        new_layout,
                        aspect_mask: aspect_of(old(self).format_spec()),
                        base_mip_level: 0,
                        level_count: ls.len() as u32,
                        masks: transition_table(from, new_layout)->Some_0,
                    })
                    &&& final(self).layouts_spec() == Seq::new(ls.len(), |i: int| new_layout)
                }
                &&& r matches Err(e) ==> {
                    &&& final(self).layouts_spec() == ls
                    &&& (e == RenderError::LayoutMismatch <==> !all_in(ls, from))
                    &&& (e == RenderError::UnsupportedTransition <==> all_in(ls, from)
                        && transition_table(from, new_layout) is None)
                }
            }),
    {
        let from = self.layouts[0];
        let n = self.layouts.len();
        let mut i: usize = 1;
        while i < n
            invariant
                1 <= i <= n,
                n == self.layouts@.len(),
                from == self.layouts@[0],
                forall|j: int| 0 <= j < i ==> #[trigger] self.layouts@[j] == from,
            decreases n - i,
        {
            if self.layouts[i] != from {
                return Err(RenderError::LayoutMismatch);
            }
            i += 1;
        }
        let barrier = transition_image_layout(self.format, n as u32, from, new_layout)?;
        let mut k: usize = 0;
        while k < n
            invariant
                k <= n,
                n == self.layouts@.len(),
                self.format == old(self).format,
                forall|j: int| 0 <= j < k ==> #[trigger] self.layouts@[j] == new_layout,
            decreases n - k,
        {
            self.layouts.set(k, new_layout);
            k += 1;
        }
        assert(self.layouts@ =~= Seq::new(n as nat, |i: int| new_layout));
        Ok(barrier)
    }

    /// Checks a mip chain command against the levels' layouts and applies it.
    /// A barrier must name one level that is in its old layout; a blit must
    /// read a level in the transfer-source layout and write one in the
    /// transfer-destination layout. Otherwise the image is left as it is.
    pub fn apply(&mut self, command: &MipCommand) -> (r: Result<(), RenderError>)
        ensures
            final(self).format_spec() == old(self).format_spec(),
            r is Ok <==> apply_command(old(self).layouts_spec(), *command) is Some,
            r is Ok ==> Some(final(self).layouts_spec()) == apply_command(
                old(self).layouts_spec(),
                *command,
            ),
            r matches Err(e) ==> e == RenderError::LayoutMismatch && final(self).layouts_spec()
                == old(self).layouts_spec(),
    {
        match *command {
            MipCommand::Barrier(b) => {
                let l = b.base_mip_level as usize;
                if b.level_count == 1 && l < self.layouts.len() && self.layouts[l] == b.old_layout {
                    self.layouts.set(l, b.new_layout);
                    Ok(())
                } else {
                    Err(RenderError::LayoutMismatch)
                }
            },
            MipCommand::Blit(MipBlit { src_level, dst_level, .. }) => {
                let src = src_level as usize;
                let dst = dst_level as usize;
                if src < self.layouts.len() && dst < self.layouts.len() && self.layouts[src]
                    == ImageLayout::TransferSrc && self.layouts[dst] == ImageLayout::TransferDst {
                    Ok(())
                } else {
                    Err(RenderError::LayoutMismatch)
                }
            },
        }
    }
}

} // verus!
