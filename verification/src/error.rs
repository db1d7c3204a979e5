//! The typed errors that fallible lifecycle operations return.

use vstd::prelude::*;

verus! {

/// An error returned by a device, context, or surface operation.
///
/// Every fallible operation reports its failure through one of these
/// variants; none of them is retried by the core. The variants that carry an
/// `i32` wrap the native error code reported by the windowing or GL layer.
#[derive(Clone, Copy, Debug, PartialEq, Eq, Structural)]
pub enum Error {
    /// A surface was presented to a context other than the one that created
    /// it. The surface is marked destroyed and its native resources are
    /// deliberately leaked rather than released across contexts.
    IncompatibleSurface,
    /// A surface is already bound to the context's binding slot.
    SurfaceAlreadyBound,
    /// The context renders to an externally managed target, which this core
    /// must never touch.
    ExternalRenderTarget,
    /// A widget-backed (window) surface cannot back a surface texture.
    WidgetAttached,
    /// Presentation requires a widget-backed (window) surface.
    NoWidgetAttached,
    /// The native pixel-format selection call itself failed.
    PixelFormatSelectionFailed(i32),
    /// No pixel format matches the requested attribute combination.
    NoPixelFormatFound,
    /// The native context-creation call failed.
    ContextCreationFailed(i32),
    /// The native call that makes a context current failed.
    MakeCurrentFailed(i32),
}

} // verus!
