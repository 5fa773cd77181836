use vstd::prelude::*;

verus! {

/// Raised when a physical device lacks a capability the renderer needs.
#[derive(Clone, Copy, Debug, PartialEq, Eq)]
pub struct SuitabilityError(pub &'static str);

/// The failures that the renderer's own decisions can produce.
#[derive(Clone, Copy, Debug, PartialEq, Eq, Structural)]
pub enum RenderError {
    /// The requested `(from, to)` layout pair is not in the transition table.
    UnsupportedTransition,
    /// An image's levels are not in the layout a transition or command
    /// expects.
    LayoutMismatch,
    /// The texture format cannot be blitted with linear filtering.
    NoLinearBlit,
    /// None of the candidate formats supports the requested features.
    NoSupportedFormat,
    /// No device memory type satisfies both the resource and the request.
    NoSuitableMemoryType,
}

} // verus!
