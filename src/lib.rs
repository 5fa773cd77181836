//! Verified decision logic for a small explicit-API renderer: queue family
//! resolution, memory type selection, format selection, image layout
//! transitions, mip chain planning, vertex deduplication and frame
//! synchronisation. Every function here works on plain values; the calls into
//! the graphics API are made by the caller with the values decided here.
use vstd::prelude::*;

pub mod error;
pub mod format;
pub mod frame_sync;
pub mod image_state;
pub mod layout;
pub mod memory;
pub mod mesh;
pub mod mipmap;
pub mod queue_family;
pub mod resources;
pub mod texture;

verus! {

/// Whether every bit of `wanted` is set in `flags`.
pub open spec fn has_flags(flags: u32, wanted: u32) -> bool {
    flags & wanted == wanted
}

} // verus!
