//! A verified core for managing the lifecycle of GPU rendering contexts and
//! drawing surfaces.
//!
//! The library models the resource-lifecycle and binding state machine that
//! sits at the heart of a cross-platform surface manager: context descriptors,
//! contexts with a single surface binding slot, generic (image-backed) and
//! window-backed surfaces, and explicit, deterministic destruction of every
//! native resource.
//!
//! Native handles (GL object names, interop image handles, native context and
//! swap-chain pointers) are represented as plain integers allocated by the
//! [`Device`](device::Device); the platform bindings that would produce real
//! handles live outside the verified core. The value `0` is the designated
//! null sentinel for every handle.

pub mod context;
pub mod device;
pub mod error;
pub mod surface;

pub use context::{
    Context, ContextAttributeFlags, ContextAttributes, ContextDescriptor, ContextID, Framebuffer,
    GLVersion,
};
pub use device::Device;
pub use error::Error;
pub use surface::{
    NativeWidget, Surface, SurfaceID, SurfaceInfo, SurfaceSize, SurfaceTexture, SurfaceType,
};
