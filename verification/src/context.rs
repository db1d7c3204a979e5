//! Rendering contexts, their descriptors, and the binding state machine that
//! governs which surface a context renders to.

use vstd::prelude::*;

use crate::device::Device;
use crate::error::Error;
use crate::surface::{Surface, SurfaceInfo};

verus! {

/// The ID of a rendering context.
///
/// Context IDs are unique among the contexts a device has created, and are
/// allocated strictly increasing, so a context created before another always
/// has the smaller ID.
#[derive(Clone, Copy, Debug, PartialEq, Eq, Structural)]
pub struct ContextID(pub u64);

/// A GL version, by major and minor number.
#[derive(Clone, Copy, Debug, PartialEq, Eq, Structural)]
pub struct GLVersion {
    pub major: u8,
    pub minor: u8,
}

impl GLVersion {
    /// Builds a GL version from its major and minor numbers.
    pub fn new(major: u8, minor: u8) -> (version: GLVersion)
        ensures
            version == (GLVersion { major, minor }),
    {
        GLVersion { major, minor }
    }
}

/// The presence flags of a context's ancillary buffers.
#[derive(Clone, Copy, Debug, PartialEq, Eq, Structural)]
pub struct ContextAttributeFlags {
    /// Whether the context has an alpha channel.
    pub alpha: bool,
    /// Whether the context has a depth buffer.
    pub depth: bool,
    /// Whether the context has a stencil buffer.
    pub stencil: bool,
}

/// The abstract attribute set a context is requested with: which ancillary
/// buffers it carries, and which GL version it targets.
#[derive(Clone, Copy, Debug, PartialEq, Eq, Structural)]
pub struct ContextAttributes {
    /// The ancillary buffer flags.
    pub flags: ContextAttributeFlags,
    /// The requested GL version.
    pub version: GLVersion,
}

/// The pixel-format configuration a descriptor carries: the resolved bit
/// depths of the ancillary buffers and the encoded GL profile.
///
/// The profile field encodes the version tier the way the native pixel
/// format does: the major number in bits 12..16 and the minor number in bits
/// 8..12.
#[derive(Clone, Copy, Debug, PartialEq, Eq, Structural)]
pub struct PixelFormat {
    /// The encoded GL profile tier.
    pub profile: u32,
    /// Bits of alpha channel: 8 when requested, else 0.
    pub alpha_size: i32,
    /// Bits of depth buffer: 24 when requested, else 0.
    pub depth_size: i32,
    /// Bits of stencil buffer: 8 when requested, else 0.
    pub stencil_size: i32,
    /// Whether offline (non-display-attached) renderers may be selected.
    pub allow_offline_renderers: bool,
}

/// Options that control rendering: a pixel-format object in many APIs.
///
/// Descriptors are immutable and cheap to clone; two descriptors are equal
/// exactly when their underlying configurations are.
#[derive(Clone, Copy, Debug, PartialEq, Eq, Structural)]
pub struct ContextDescriptor {
    /// The resolved pixel-format configuration.
    pub pixel_format: PixelFormat,
}

/// A context's binding slot: its current render target.
///
/// A context renders either to nothing, to a surface this core owns end to
/// end, or to a target owned by an external windowing layer that this core
/// must never touch.
#[derive(Debug, PartialEq, Eq, Structural)]
pub enum Framebuffer {
    /// No render target is attached.
    Unbound,
    /// An owned surface is attached.
    BoundInternal(Surface),
    /// The render target belongs to an external windowing layer.
    BoundExternal,
}

/// An active rendering context.
///
/// Contexts must be destroyed explicitly with
/// [`Device::destroy_context`]; the core never reclaims a live native
/// context implicitly. A context is confined to one thread's exclusive use
/// at a time, though it may move between threads while not in use.
#[derive(Debug, PartialEq, Eq, Structural)]
pub struct Context {
    /// The native context handle, or `0` once the context is destroyed.
    pub native_context: usize,
    /// The context's process-unique ID.
    pub id: ContextID,
    /// The binding slot holding the context's current render target.
    pub framebuffer: Framebuffer,
    /// The pixel-format configuration the context was created with.
    pub pixel_format: PixelFormat,
}

impl Context {
    /// A context only ever holds a surface that it created itself: binding
    /// checks the surface's `context_id` before attaching it.
    pub open spec fn wf(self) -> bool {
        self.framebuffer matches Framebuffer::BoundInternal(surface) ==> surface.context_id
            == self.id
    }
}

/// The encoded profile tier of a renderer compatible with GL 1.0.
pub const OPENGL_PROFILE_VERSION_LEGACY: u32 = 0x1000;

/// The encoded profile tier of a renderer capable of GL 3.2 or later.
pub const OPENGL_PROFILE_VERSION_3_2_CORE: u32 = 0x3200;

/// The encoded profile tier of a renderer capable of GL 4.1 or later.
pub const OPENGL_PROFILE_VERSION_4_CORE: u32 = 0x4100;

/// The descriptor that pixel-format selection resolves an attribute set to:
/// the requested version rounded to a profile tier, 8 bits of alpha and
/// stencil and 24 bits of depth when requested, and offline renderers
/// allowed exactly on low-power adapters.
pub open spec fn descriptor_for_spec(device: Device, attributes: ContextAttributes)
    -> ContextDescriptor {
    ContextDescriptor {
        pixel_format: PixelFormat {
            profile: if attributes.version.major >= 4 {
                OPENGL_PROFILE_VERSION_4_CORE
            } else if attributes.version.major == 3 {
                OPENGL_PROFILE_VERSION_3_2_CORE
            } else {
                OPENGL_PROFILE_VERSION_LEGACY
            },
            alpha_size: if attributes.flags.alpha { 8 } else { 0 },
            depth_size: if attributes.flags.depth { 24 } else { 0 },
            stencil_size: if attributes.flags.stencil { 8 } else { 0 },
            allow_offline_renderers: device.adapter_is_low_power,
        },
    }
}

/// The attribute set a pixel format represents: a buffer is present exactly
/// when its bit depth is nonzero, and the version is decoded from the
/// profile field's major (bits 12..16) and minor (bits 8..12) nibbles.
pub open spec fn pixel_format_attributes(pixel_format: PixelFormat) -> ContextAttributes {
    ContextAttributes {
        flags: ContextAttributeFlags {
            alpha: pixel_format.alpha_size != 0,
            depth: pixel_format.depth_size != 0,
            stencil: pixel_format.stencil_size != 0,
        },
        version: GLVersion {
            major: ((pixel_format.profile >> 12) & 0xf) as u8,
            minor: ((pixel_format.profile >> 8) & 0xf) as u8,
        },
    }
}

/// The version tier a requested GL version is rounded to during
/// pixel-format selection: 4.1 for any major of 4 or more, 3.2 for major 3,
/// and the 1.0 legacy tier otherwise.
pub open spec fn version_tier(version: GLVersion) -> GLVersion {
    if version.major >= 4 {
        GLVersion { major: 4, minor: 1 }
    } else if version.major == 3 {
        GLVersion { major: 3, minor: 2 }
    } else {
        GLVersion { major: 1, minor: 0 }
    }
}

/// Creating a descriptor from an attribute set and reading the descriptor's
/// attributes back round-trips: the ancillary-buffer flags come back
/// unchanged, and the version comes back as the profile tier the request
/// was rounded to.
pub proof fn lemma_descriptor_attributes_round_trip(device: Device, attributes: ContextAttributes)
    ensures
        pixel_format_attributes(descriptor_for_spec(device, attributes).pixel_format).flags
            == attributes.flags,
        pixel_format_attributes(descriptor_for_spec(device, attributes).pixel_format).version
            == version_tier(attributes.version),
{
    assert(((0x1000u32 >> 12) & 0xf) == 1 && ((0x1000u32 >> 8) & 0xf) == 0) by (bit_vector);
    assert(((0x3200u32 >> 12) & 0xf) == 3 && ((0x3200u32 >> 8) & 0xf) == 2) by (bit_vector);
    assert(((0x4100u32 >> 12) & 0xf) == 4 && ((0x4100u32 >> 8) & 0xf) == 1) by (bit_vector);
}

impl Device {
    /// Creates a context descriptor from the given set of attributes, by
    /// selecting the pixel-format configuration that realizes them.
    ///
    /// The descriptor can later be used to create a context. The modeled
    /// pixel-format selection resolves every attribute set, so this never
    /// reports `PixelFormatSelectionFailed` or `NoPixelFormatFound`; those
    /// errors are reserved for a native selection call.
    pub fn create_context_descriptor(&self, attributes: &ContextAttributes)
        -> (result: Result<ContextDescriptor, Error>)
        ensures
            result == Ok::<ContextDescriptor, Error>(descriptor_for_spec(*self, *attributes)),
    {
        let profile: u32 = if attributes.version.major >= 4 {
            OPENGL_PROFILE_VERSION_4_CORE
        } else if attributes.version.major == 3 {
            OPENGL_PROFILE_VERSION_3_2_CORE
        } else {
            OPENGL_PROFILE_VERSION_LEGACY
        };

        let alpha_size: i32 = if attributes.flags.alpha { 8 } else { 0 };
        let depth_size: i32 = if attributes.flags.depth { 24 } else { 0 };
        let stencil_size: i32 = if attributes.flags.stencil { 8 } else { 0 };

        // Low-power adapters opt into the integrated GPU by allowing
        // offline renderers.
        let allow_offline_renderers = self.adapter_is_low_power;

        Ok(ContextDescriptor {
            pixel_format: PixelFormat {
                profile,
                alpha_size,
                depth_size,
                stencil_size,
                allow_offline_renderers,
            },
        })
    }

    /// Returns the attributes that the given context descriptor represents:
    /// the inverse of descriptor creation, reconstructed from the resolved
    /// pixel format.
    pub fn context_descriptor_attributes(&self, context_descriptor: &ContextDescriptor)
        -> (attributes: ContextAttributes)
        ensures
            attributes == pixel_format_attributes(context_descriptor.pixel_format),
    {
        let pixel_format = &context_descriptor.pixel_format;
        let gl_profile: u32 = pixel_format.profile;

        proof {
            assert(((gl_profile >> 12) & 0xf) < 256) by (bit_vector);
            assert(((gl_profile >> 8) & 0xf) < 256) by (bit_vector);
        }
        let major: u8 = ((gl_profile >> 12) & 0xf) as u8;
        let minor: u8 = ((gl_profile >> 8) & 0xf) as u8;

        ContextAttributes {
            flags: ContextAttributeFlags {
                alpha: pixel_format.alpha_size != 0,
                depth: pixel_format.depth_size != 0,
                stencil: pixel_format.stencil_size != 0,
            },
            version: GLVersion::new(major, minor),
        }
    }

    /// Returns the descriptor the given context was created with, as an
    /// independent value with its own lifetime.
    pub fn context_descriptor(&self, context: &Context) -> (descriptor: ContextDescriptor)
        ensures
            descriptor == (ContextDescriptor { pixel_format: context.pixel_format }),
    {
        ContextDescriptor { pixel_format: context.pixel_format }
    }
}

/// The context a creation call returns: it carries the device's next
/// context ID and a fresh native handle, starts with nothing bound, and
/// keeps the descriptor's pixel format.
pub open spec fn created_context_spec(device: Device, descriptor: ContextDescriptor) -> Context {
    Context {
        native_context: device.next_handle,
        id: ContextID(device.next_context_id),
        framebuffer: Framebuffer::Unbound,
        pixel_format: descriptor.pixel_format,
    }
}

/// The device state after a context creation: the ID counter and the handle
/// allocator have each moved forward by one.
pub open spec fn create_context_device_spec(device: Device) -> Device {
    Device {
        next_context_id: (device.next_context_id + 1) as u64,
        next_handle: (device.next_handle + 1) as usize,
        ..device
    }
}

/// Context IDs are allocated strictly increasing: a context created from an
/// earlier device state has a smaller ID than a context created from any
/// state the device reaches after that creation.
pub proof fn lemma_context_ids_strictly_increase(
    earlier: Device,
    earlier_descriptor: ContextDescriptor,
    later: Device,
    later_descriptor: ContextDescriptor,
)
    requires
        earlier.next_context_id < u64::MAX,
        later.next_context_id >= create_context_device_spec(earlier).next_context_id,
    ensures
        created_context_spec(earlier, earlier_descriptor).id.0
            < created_context_spec(later, later_descriptor).id.0,
{
}

/// The context state after destruction: a context whose handle is already
/// null is untouched, and any other ends with a null handle and an empty
/// binding slot.
pub open spec fn destroy_context_ctx_spec(context: Context) -> Context {
    if context.native_context == 0 {
        context
    } else {
        Context { native_context: 0, framebuffer: Framebuffer::Unbound, ..context }
    }
}

/// The device state after a context destruction: the current-context
/// binding is cleared exactly when the destroyed context was the current
/// one.
pub open spec fn destroy_context_device_spec(device: Device, context: Context) -> Device {
    if context.native_context != 0 && device.current_context == context.native_context {
        Device { current_context: 0, ..device }
    } else {
        device
    }
}

/// Destroying a context that still holds a bound surface destroys that
/// surface transitively: the context ends with an empty binding slot and a
/// null native handle, and the surface's release zeroes every tracked
/// native handle, so none of its backing objects survives the context.
pub proof fn lemma_destroy_context_destroys_bound_surface(context: Context, surface: Surface)
    requires
        context.native_context != 0,
        context.framebuffer == Framebuffer::BoundInternal(surface),
    ensures
        destroy_context_ctx_spec(context).framebuffer is Unbound,
        destroy_context_ctx_spec(context).native_context == 0,
        crate::surface::released_surface_spec(surface).destroyed,
        crate::surface::surface_handles_released(crate::surface::released_surface_spec(surface)),
{
}

/// The outcome of attaching a surface to a context: attachment is legal
/// only when nothing is bound, and only for a surface the context itself
/// created.
pub open spec fn bind_result_spec(context: Context, surface: Surface) -> Result<(), Error> {
    match context.framebuffer {
        Framebuffer::BoundExternal => Err(Error::ExternalRenderTarget),
        Framebuffer::BoundInternal(_) => Err(Error::SurfaceAlreadyBound),
        Framebuffer::Unbound => if surface.context_id != context.id {
            Err(Error::IncompatibleSurface)
        } else {
            Ok(())
        },
    }
}

/// The context state after an attempted attach: the surface is in the
/// binding slot after a legal attach, and the context is untouched after a
/// failed one.
pub open spec fn bind_context_spec(context: Context, surface: Surface) -> Context {
    if bind_result_spec(context, surface) is Ok {
        Context { framebuffer: Framebuffer::BoundInternal(surface), ..context }
    } else {
        context
    }
}

/// The value an unbind call returns: the bound surface if one was attached,
/// nothing if the slot was empty, and an error if the render target belongs
/// to an external windowing layer.
pub open spec fn unbind_result_spec(context: Context) -> Result<Option<Surface>, Error> {
    match context.framebuffer {
        Framebuffer::BoundExternal => Err(Error::ExternalRenderTarget),
        Framebuffer::Unbound => Ok(None),
        Framebuffer::BoundInternal(surface) => Ok(Some(surface)),
    }
}

/// The context state after an attempted unbind: the slot is empty unless
/// the render target is externally managed, in which case the context is
/// untouched.
pub open spec fn unbind_context_spec(context: Context) -> Context {
    match context.framebuffer {
        Framebuffer::BoundExternal => context,
        _ => Context { framebuffer: Framebuffer::Unbound, ..context },
    }
}

/// Attaching a surface to a context other than the one that created it
/// always fails and never moves the binding state; from the unbound state
/// the reported error is `IncompatibleSurface`.
pub proof fn lemma_bind_incompatible_surface(context: Context, surface: Surface)
    requires
        surface.context_id != context.id,
    ensures
        bind_result_spec(context, surface) is Err,
        bind_context_spec(context, surface) == context,
        context.framebuffer is Unbound ==> bind_result_spec(context, surface)
            == Err::<(), Error>(Error::IncompatibleSurface),
{
}

/// After a surface is attached, a second attach attempt on the same context
/// fails with `SurfaceAlreadyBound` and leaves the binding state unchanged.
pub proof fn lemma_second_bind_fails(context: Context, surface: Surface, second: Surface)
    requires
        context.framebuffer is Unbound,
        surface.context_id == context.id,
    ensures
        bind_result_spec(context, surface) == Ok::<(), Error>(()),
        bind_result_spec(bind_context_spec(context, surface), second)
            == Err::<(), Error>(Error::SurfaceAlreadyBound),
        bind_context_spec(bind_context_spec(context, surface), second)
            == bind_context_spec(context, surface),
{
}

/// Unbinding after an attach hands back exactly the surface that was
/// attached and returns the context to its pre-attach state, and attaching
/// that same surface again succeeds and restores the bound state.
pub proof fn lemma_unbind_rebind_round_trip(context: Context, surface: Surface)
    requires
        context.framebuffer is Unbound,
        surface.context_id == context.id,
    ensures
        unbind_result_spec(bind_context_spec(context, surface))
            == Ok::<Option<Surface>, Error>(Some(surface)),
        unbind_context_spec(bind_context_spec(context, surface)) == context,
        bind_result_spec(unbind_context_spec(bind_context_spec(context, surface)), surface)
            == Ok::<(), Error>(()),
        bind_context_spec(unbind_context_spec(bind_context_spec(context, surface)), surface)
            == bind_context_spec(context, surface),
{
}

impl Device {
    /// Creates a context from the given descriptor.
    ///
    /// The context starts with nothing bound and receives the next ID from
    /// the device's counter, which moves strictly forward. Creation must be
    /// serialized against all other context creations on the device, which
    /// exclusive access (or the caller's mutex around the shared device)
    /// guarantees. The context must later be destroyed explicitly with
    /// [`Device::destroy_context`].
    ///
    /// The modeled native allocation always succeeds, so this never reports
    /// `ContextCreationFailed`; that error is reserved for a native
    /// creation call.
    pub fn create_context(&mut self, descriptor: &ContextDescriptor)
        -> (result: Result<Context, Error>)
        requires
            old(self).wf(),
            old(self).next_context_id < u64::MAX,
            old(self).next_handle < usize::MAX,
        ensures
            result == Ok::<Context, Error>(created_context_spec(*old(self), *descriptor)),
            *final(self) == create_context_device_spec(*old(self)),
            final(self).wf(),
            created_context_spec(*old(self), *descriptor).wf(),
    {
        let native_context = self.alloc_native_handle();
        let id = ContextID(self.next_context_id);
        self.next_context_id = self.next_context_id + 1;

        Ok(Context {
            native_context,
            id,
            framebuffer: Framebuffer::Unbound,
            pixel_format: descriptor.pixel_format,
        })
    }

    /// Destroys a context.
    ///
    /// A context whose native handle is already null is left untouched, so
    /// destruction is idempotent. Otherwise any surface still bound to the
    /// context is destroyed with it as part of teardown, the
    /// current-context binding is cleared if this context is the current
    /// one, the native context is released, and the handle is zeroed.
    pub fn destroy_context(&mut self, context: &mut Context) -> (result: Result<(), Error>)
        requires
            old(context).wf(),
        ensures
            result == Ok::<(), Error>(()),
            *final(context) == destroy_context_ctx_spec(*old(context)),
            *final(self) == destroy_context_device_spec(*old(self), *old(context)),
            final(context).wf(),
    {
        if context.native_context == 0 {
            return Ok(());
        }

        let mut taken = Framebuffer::Unbound;
        core::mem::swap(&mut taken, &mut context.framebuffer);
        match taken {
            Framebuffer::BoundInternal(surface) => {
                self.destroy_surface(context, surface)?;
            }
            _ => {}
        }

        if self.current_context == context.native_context {
            self.make_no_context_current()?;
        }
        context.native_context = 0;
        Ok(())
    }

    /// Makes the given context the current rendering context.
    ///
    /// Rendering commands then draw through this context to whatever target
    /// its binding slot holds. The modeled native call always succeeds, so
    /// this never reports `MakeCurrentFailed`.
    pub fn make_context_current(&mut self, context: &Context) -> (result: Result<(), Error>)
        ensures
            result == Ok::<(), Error>(()),
            *final(self) == (Device { current_context: context.native_context, ..*old(self) }),
    {
        self.current_context = context.native_context;
        Ok(())
    }

    /// Leaves no context current. Rendering commands must not be issued
    /// again until another context is made current.
    pub fn make_no_context_current(&mut self) -> (result: Result<(), Error>)
        ensures
            result == Ok::<(), Error>(()),
            *final(self) == (Device { current_context: 0, ..*old(self) }),
    {
        self.current_context = 0;
        Ok(())
    }

    /// Makes the given context current and hands back a guard that
    /// remembers which context was current before. Every path out of the
    /// calling scope must run [`CurrentContextGuard::restore`].
    pub(crate) fn temporarily_make_context_current(&mut self, context: &Context)
        -> (result: Result<CurrentContextGuard, Error>)
        ensures
            result == Ok::<CurrentContextGuard, Error>(
                CurrentContextGuard { old_context: old(self).current_context },
            ),
            *final(self) == (Device { current_context: context.native_context, ..*old(self) }),
    {
        let guard = CurrentContextGuard::new(self);
        self.make_context_current(context)?;
        Ok(guard)
    }

    /// Attaches a surface to the context's binding slot.
    ///
    /// Attachment is legal only when nothing is bound, and only for a
    /// surface this context created; in every failing case the binding
    /// state is left exactly as it was.
    pub fn bind_surface_to_context(&self, context: &mut Context, new_surface: Surface)
        -> (result: Result<(), Error>)
        ensures
            result == bind_result_spec(*old(context), new_surface),
            *final(context) == bind_context_spec(*old(context), new_surface),
            old(context).wf() ==> final(context).wf(),
    {
        match context.framebuffer {
            Framebuffer::BoundExternal => return Err(Error::ExternalRenderTarget),
            Framebuffer::BoundInternal(_) => return Err(Error::SurfaceAlreadyBound),
            Framebuffer::Unbound => {}
        }

        if new_surface.context_id != context.id {
            return Err(Error::IncompatibleSurface);
        }

        context.framebuffer = Framebuffer::BoundInternal(new_surface);
        Ok(())
    }

    /// Detaches and returns whatever surface is attached to the context.
    ///
    /// Returns the attached surface, or nothing if the slot was already
    /// empty; a context rendering to an externally managed target is
    /// refused. Before a detached surface is handed back, the context is
    /// temporarily made current so the command stream can be flushed, which
    /// guarantees that all rendering into the surface is visible to its
    /// next consumer; the previously current context is restored on the way
    /// out.
    pub fn unbind_surface_from_context(&mut self, context: &mut Context)
        -> (result: Result<Option<Surface>, Error>)
        ensures
            result == unbind_result_spec(*old(context)),
            *final(context) == unbind_context_spec(*old(context)),
            *final(self) == *old(self),
            old(context).wf() ==> final(context).wf(),
    {
        match context.framebuffer {
            Framebuffer::BoundExternal => return Err(Error::ExternalRenderTarget),
            _ => {}
        }

        let mut taken = Framebuffer::Unbound;
        core::mem::swap(&mut taken, &mut context.framebuffer);
        match taken {
            Framebuffer::BoundExternal => Err(Error::ExternalRenderTarget),
            Framebuffer::Unbound => Ok(None),
            Framebuffer::BoundInternal(surface) => {
                // The flush that synchronizes the surface's contents runs
                // against this context, so it is made current just for the
                // duration and the previous current context is restored.
                let guard = self.temporarily_make_context_current(context)?;
                guard.restore(self);
                Ok(Some(surface))
            }
        }
    }

    /// Describes the surface attached to the context, if any. A context
    /// rendering to an externally managed target is refused.
    pub fn context_surface_info(&self, context: &Context)
        -> (result: Result<Option<SurfaceInfo>, Error>)
        ensures
            result == (match context.framebuffer {
                Framebuffer::Unbound => Ok::<Option<SurfaceInfo>, Error>(None),
                Framebuffer::BoundExternal => Err(Error::ExternalRenderTarget),
                Framebuffer::BoundInternal(surface) => Ok(
                    Some(crate::surface::surface_info_spec(surface)),
                ),
            }),
    {
        match &context.framebuffer {
            Framebuffer::Unbound => Ok(None),
            Framebuffer::BoundExternal => Err(Error::ExternalRenderTarget),
            Framebuffer::BoundInternal(surface) => Ok(Some(self.surface_info(surface))),
        }
    }

    /// Returns the given context's ID.
    pub fn context_id(&self, context: &Context) -> (id: ContextID)
        ensures
            id == context.id,
    {
        context.id
    }
}

/// A scope guard that restores the previously current context.
///
/// Capture the guard before temporarily making another context current, and
/// call [`CurrentContextGuard::restore`] on every path out of the scope, so
/// that incidental context switches never leak a changed current context to
/// the caller.
#[must_use]
#[derive(Debug, PartialEq, Eq, Structural)]
pub struct CurrentContextGuard {
    /// The native handle of the context that was current when the guard was
    /// captured, or `0` for none.
    pub old_context: usize,
}

impl CurrentContextGuard {
    /// Captures the context currently current on the device.
    pub fn new(device: &Device) -> (guard: CurrentContextGuard)
        ensures
            guard.old_context == device.current_context,
    {
        CurrentContextGuard { old_context: device.current_context }
    }

    /// Restores the captured context as the current one.
    pub fn restore(self, device: &mut Device)
        ensures
            *final(device) == (Device { current_context: self.old_context, ..*old(device) }),
    {
        device.current_context = self.old_context;
    }
}

} // verus!

