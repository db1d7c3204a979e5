//! Surfaces: GPU-renderable targets, either self-contained (generic) or
//! backed by a native on-screen window.

use vstd::prelude::*;

use crate::context::{Context, ContextAttributes, ContextID};
use crate::device::Device;
use crate::error::Error;

verus! {

/// The size of a surface, in device pixels.
#[derive(Clone, Copy, Debug, PartialEq, Eq, Structural)]
pub struct SurfaceSize {
    pub width: i32,
    pub height: i32,
}

/// An identifier derived from a surface's backing native handle, for
/// external identification and logging. It plays no part in lifetime
/// tracking.
#[derive(Clone, Copy, Debug, PartialEq, Eq, Structural)]
pub struct SurfaceID(pub usize);

/// The depth and stencil renderbuffers attached to a generic surface's
/// framebuffer. A name of `0` means the attachment is absent.
#[derive(Clone, Copy, Debug, PartialEq, Eq, Structural)]
pub struct Renderbuffers {
    pub depth: u32,
    pub stencil: u32,
}

/// The backend-specific resources a surface owns, one variant per backing
/// representation.
#[derive(Debug, PartialEq, Eq, Structural)]
pub enum SurfaceObjects {
    /// A self-contained surface: a texture shared through an interop image,
    /// rendered to through a framebuffer object.
    EglImage {
        /// The interop image handle that shares the texture across API
        /// boundaries.
        egl_image: usize,
        /// The framebuffer object rendering targets.
        framebuffer_object: u32,
        /// The texture object holding the surface's contents.
        texture_object: u32,
        /// The depth/stencil attachments, matching the creating context's
        /// descriptor attributes.
        renderbuffers: Renderbuffers,
    },
    /// A window surface: a native swap-chain handle tied to an on-screen
    /// widget.
    Window {
        /// The native swap-chain surface handle.
        egl_surface: usize,
    },
}

/// A GPU-renderable target.
///
/// A surface may only ever be bound to, or destroyed through, the context
/// whose ID matches its `context_id`. Surfaces must be destroyed explicitly
/// with [`Device::destroy_surface`]; the core never reclaims native
/// resources implicitly.
#[derive(Debug, PartialEq, Eq, Structural)]
pub struct Surface {
    /// The ID of the context that created this surface, fixed for the
    /// surface's entire life.
    pub context_id: ContextID,
    /// The surface's size, fixed at creation time.
    pub size: SurfaceSize,
    /// The native resources the surface owns.
    pub objects: SurfaceObjects,
    /// Whether the surface has been destroyed (or deliberately leaked after
    /// a context mismatch).
    pub destroyed: bool,
}

/// A generic surface's backing store, wrapped as a texture that another
/// context can sample from. Owns the surface for its lifetime.
#[derive(Debug, PartialEq, Eq, Structural)]
pub struct SurfaceTexture {
    /// The wrapped surface, handed back by
    /// [`Device::destroy_surface_texture`].
    pub surface: Surface,
    /// The texture object derived from the surface's interop image.
    pub texture_object: u32,
}

/// A native window handle, together with the size the windowing system
/// reported for it when it was captured. The core borrows the handle and
/// never frees it.
#[derive(Clone, Copy, Debug, PartialEq, Eq, Structural)]
pub struct NativeWidget {
    /// The address of the native window object.
    pub native_window: usize,
    /// The window's size as the windowing system reported it.
    pub size: SurfaceSize,
}

/// The kind of surface to create.
#[derive(Clone, Copy, Debug, PartialEq, Eq, Structural)]
pub enum SurfaceType {
    /// An anonymous renderable buffer of the given size, not tied to any
    /// native window.
    Generic { size: SurfaceSize },
    /// A buffer backed by a caller-supplied native widget.
    Widget { native_widget: NativeWidget },
}

/// A description of the surface currently attached to a context.
#[derive(Clone, Copy, Debug, PartialEq, Eq, Structural)]
pub struct SurfaceInfo {
    /// The surface's size.
    pub size: SurfaceSize,
    /// The surface's identifier.
    pub id: SurfaceID,
    /// The ID of the context that created the surface.
    pub context_id: ContextID,
    /// The framebuffer object to render to, or `0` for a window surface,
    /// which renders to the default framebuffer.
    pub framebuffer_object: u32,
}

/// The texture binding target for a generic surface's backing texture.
/// Callers bind such textures consistently with this target.
pub const SURFACE_GL_TEXTURE_TARGET: u32 = 0x0DE1;

/// The renderbuffer set a creation call attaches for the given attributes:
/// one renderbuffer per requested ancillary buffer, named consecutively
/// from `first_name`, with `0` for an absent attachment.
pub open spec fn renderbuffers_spec(first_name: u32, attributes: ContextAttributes)
    -> Renderbuffers {
    Renderbuffers {
        depth: if attributes.flags.depth {
            first_name
        } else {
            0
        },
        stencil: if attributes.flags.stencil {
            if attributes.flags.depth {
                (first_name + 1) as u32
            } else {
                first_name
            }
        } else {
            0
        },
    }
}

/// How many renderbuffer names the given attributes consume.
pub open spec fn renderbuffers_count(attributes: ContextAttributes) -> int {
    (if attributes.flags.depth {
        1int
    } else {
        0
    }) + (if attributes.flags.stencil {
        1int
    } else {
        0
    })
}

/// The generic surface a creation call returns: it belongs to the creating
/// context, has the requested size, and owns a fresh texture, interop
/// image, framebuffer, and the renderbuffers the context's pixel format
/// asks for.
pub open spec fn generic_surface_spec(device: Device, context: Context, size: SurfaceSize)
    -> Surface {
    Surface {
        context_id: context.id,
        size,
        objects: SurfaceObjects::EglImage {
            egl_image: device.next_handle,
            framebuffer_object: (device.next_gl_object + 1) as u32,
            texture_object: device.next_gl_object,
            renderbuffers: renderbuffers_spec(
                (device.next_gl_object + 2) as u32,
                crate::context::pixel_format_attributes(context.pixel_format),
            ),
        },
        destroyed: false,
    }
}

/// The window surface a creation call returns: it belongs to the creating
/// context, takes the size the widget's windowing system reported, and
/// owns a fresh native swap-chain handle.
pub open spec fn window_surface_spec(device: Device, context: Context, widget: NativeWidget)
    -> Surface {
    Surface {
        context_id: context.id,
        size: widget.size,
        objects: SurfaceObjects::Window { egl_surface: device.next_handle },
        destroyed: false,
    }
}

/// The surface a creation call returns for the given surface type.
pub open spec fn created_surface_spec(device: Device, context: Context, surface_type: SurfaceType)
    -> Surface {
    match surface_type {
        SurfaceType::Generic { size } => generic_surface_spec(device, context, size),
        SurfaceType::Widget { native_widget } => window_surface_spec(device, context, native_widget),
    }
}

/// The device state after a surface creation: the allocators have moved
/// past the handles the new surface owns.
pub open spec fn create_surface_device_spec(device: Device, context: Context, surface_type: SurfaceType)
    -> Device {
    match surface_type {
        SurfaceType::Generic { .. } => Device {
            next_handle: (device.next_handle + 1) as usize,
            next_gl_object: (device.next_gl_object + 2 + renderbuffers_count(
                crate::context::pixel_format_attributes(context.pixel_format),
            )) as u32,
            ..device
        },
        SurfaceType::Widget { .. } => Device {
            next_handle: (device.next_handle + 1) as usize,
            ..device
        },
    }
}

/// Every surface a creation call returns carries the creating context's
/// ID, whichever backing representation was requested; nothing thereafter
/// changes it for the surface's entire life.
pub proof fn lemma_created_surface_context_id(
    device: Device,
    context: Context,
    surface_type: SurfaceType,
)
    ensures
        created_surface_spec(device, context, surface_type).context_id == context.id,
        !created_surface_spec(device, context, surface_type).destroyed,
{
}

/// The surface value left behind by a release: every tracked native handle
/// zeroed to the null sentinel, the destroyed flag set, size and creating
/// context untouched.
pub open spec fn released_surface_spec(surface: Surface) -> Surface {
    Surface {
        context_id: surface.context_id,
        size: surface.size,
        objects: match surface.objects {
            SurfaceObjects::EglImage { .. } => SurfaceObjects::EglImage {
                egl_image: 0,
                framebuffer_object: 0,
                texture_object: 0,
                renderbuffers: Renderbuffers { depth: 0, stencil: 0 },
            },
            SurfaceObjects::Window { .. } => SurfaceObjects::Window { egl_surface: 0 },
        },
        destroyed: true,
    }
}

/// Whether every native handle the surface tracks is the null sentinel.
pub open spec fn surface_handles_released(surface: Surface) -> bool {
    match surface.objects {
        SurfaceObjects::EglImage {
            egl_image,
            framebuffer_object,
            texture_object,
            renderbuffers,
        } => egl_image == 0 && framebuffer_object == 0 && texture_object == 0
            && renderbuffers.depth == 0 && renderbuffers.stencil == 0,
        SurfaceObjects::Window { egl_surface } => egl_surface == 0,
    }
}

/// Destroying a surface through its own context releases every tracked
/// native handle — each becomes the null sentinel — and leaves the surface
/// marked destroyed, with its size, creating context, and backing
/// representation still readable.
pub proof fn lemma_release_zeroes_all_handles(surface: Surface)
    ensures
        surface_handles_released(released_surface_spec(surface)),
        released_surface_spec(surface).destroyed,
        released_surface_spec(surface).size == surface.size,
        released_surface_spec(surface).context_id == surface.context_id,
        released_surface_spec(surface).objects is EglImage <==> surface.objects is EglImage,
{
}

/// Releases every native resource the surface owns, zeroing each handle to
/// the null sentinel, and marks the surface destroyed.
fn release_surface(surface: &mut Surface)
    ensures
        *final(surface) == released_surface_spec(*old(surface)),
{
    match &mut surface.objects {
        SurfaceObjects::EglImage {
            egl_image,
            framebuffer_object,
            texture_object,
            renderbuffers,
        } => {
            *framebuffer_object = 0;
            renderbuffers.depth = 0;
            renderbuffers.stencil = 0;
            *egl_image = 0;
            *texture_object = 0;
        }
        SurfaceObjects::Window { egl_surface } => {
            *egl_surface = 0;
        }
    }
    surface.destroyed = true;
}

/// The description of a surface: its size, derived identifier, creating
/// context, and the framebuffer object to render into — `0` for a window
/// surface, which renders to the default framebuffer.
pub open spec fn surface_info_spec(surface: Surface) -> SurfaceInfo {
    SurfaceInfo {
        size: surface.size,
        id: surface.id_spec(),
        context_id: surface.context_id,
        framebuffer_object: match surface.objects {
            SurfaceObjects::EglImage { framebuffer_object, .. } => framebuffer_object,
            SurfaceObjects::Window { .. } => 0,
        },
    }
}

impl Device {
    /// Creates a surface for the given context: an anonymous renderable
    /// buffer for `SurfaceType::Generic`, or a buffer backed by a native
    /// window for `SurfaceType::Widget`.
    ///
    /// The surface may only ever be bound to, or destroyed through, the
    /// context it was created for. The modeled native allocation always
    /// succeeds; the creation errors are reserved for native interop-image
    /// and swap-chain calls.
    pub fn create_surface(&mut self, context: &Context, surface_type: &SurfaceType)
        -> (result: Result<Surface, Error>)
        requires
            old(self).wf(),
            old(self).next_handle < usize::MAX,
            old(self).next_gl_object <= u32::MAX - 4,
        ensures
            result == Ok::<Surface, Error>(created_surface_spec(*old(self), *context, *surface_type)),
            *final(self) == create_surface_device_spec(*old(self), *context, *surface_type),
            final(self).wf(),
            created_surface_spec(*old(self), *context, *surface_type).context_id == context.id,
    {
        match *surface_type {
            SurfaceType::Generic { size } => self.create_generic_surface(context, size),
            SurfaceType::Widget { native_widget } => {
                self.create_window_surface(context, native_widget)
            }
        }
    }

    /// Creates a self-contained surface: a fresh texture of the requested
    /// size, shared through an interop image, with a framebuffer whose
    /// color target is that texture and whose depth/stencil attachments
    /// match the context descriptor's attributes.
    fn create_generic_surface(&mut self, context: &Context, size: SurfaceSize)
        -> (result: Result<Surface, Error>)
        requires
            old(self).wf(),
            old(self).next_handle < usize::MAX,
            old(self).next_gl_object <= u32::MAX - 4,
        ensures
            result == Ok::<Surface, Error>(generic_surface_spec(*old(self), *context, size)),
            *final(self) == create_surface_device_spec(
                *old(self),
                *context,
                SurfaceType::Generic { size },
            ),
            final(self).wf(),
    {
        // The texture that will hold the surface's contents; a native
        // backend uploads an empty image of the requested size into it.
        let texture_object = self.alloc_gl_object();

        // The interop image that shares the texture across API boundaries.
        let egl_image = self.create_egl_image(context, texture_object);

        // The framebuffer whose color target is the texture.
        let framebuffer_object = self.alloc_gl_object();

        // Depth/stencil attachments as the context's descriptor requests;
        // after this a native backend asserts framebuffer completeness.
        let descriptor = self.context_descriptor(context);
        let attributes = self.context_descriptor_attributes(&descriptor);
        let renderbuffers = self.create_renderbuffers(&attributes);

        Ok(Surface {
            context_id: context.id,
            size,
            objects: SurfaceObjects::EglImage {
                egl_image,
                framebuffer_object,
                texture_object,
                renderbuffers,
            },
            destroyed: false,
        })
    }

    /// Creates a window surface against the context's pixel format. Its
    /// size is whatever the windowing system reported for the widget when
    /// the widget was captured; it is not re-queried later.
    fn create_window_surface(&mut self, context: &Context, native_widget: NativeWidget)
        -> (result: Result<Surface, Error>)
        requires
            old(self).wf(),
            old(self).next_handle < usize::MAX,
        ensures
            result == Ok::<Surface, Error>(window_surface_spec(*old(self), *context, native_widget)),
            *final(self) == (Device {
                next_handle: (old(self).next_handle + 1) as usize,
                ..*old(self)
            }),
            final(self).wf(),
    {
        let egl_surface = self.alloc_native_handle();

        Ok(Surface {
            context_id: context.id,
            size: native_widget.size,
            objects: SurfaceObjects::Window { egl_surface },
            destroyed: false,
        })
    }

    /// Creates the interop image that shares the given texture across API
    /// boundaries. The handle is never the null sentinel.
    fn create_egl_image(&mut self, _context: &Context, _texture_object: u32)
        -> (egl_image: usize)
        requires
            old(self).wf(),
            old(self).next_handle < usize::MAX,
        ensures
            egl_image == old(self).next_handle,
            egl_image != 0,
            *final(self) == (Device {
                next_handle: (old(self).next_handle + 1) as usize,
                ..*old(self)
            }),
            final(self).wf(),
    {
        self.alloc_native_handle()
    }

    /// Creates one renderbuffer per ancillary buffer the attributes
    /// request, leaving the null sentinel for the absent ones.
    fn create_renderbuffers(&mut self, attributes: &ContextAttributes)
        -> (renderbuffers: Renderbuffers)
        requires
            old(self).wf(),
            old(self).next_gl_object <= u32::MAX - 2,
        ensures
            renderbuffers == renderbuffers_spec(old(self).next_gl_object, *attributes),
            *final(self) == (Device {
                next_gl_object: (old(self).next_gl_object + renderbuffers_count(*attributes)) as u32,
                ..*old(self)
            }),
            final(self).wf(),
    {
        let depth: u32 = if attributes.flags.depth {
            self.alloc_gl_object()
        } else {
            0
        };
        let stencil: u32 = if attributes.flags.stencil {
            self.alloc_gl_object()
        } else {
            0
        };
        Renderbuffers { depth, stencil }
    }

    /// Derives a fresh texture object from the given interop image, through
    /// which the image's contents can be sampled.
    fn bind_to_gl_texture(&mut self, _egl_image: usize) -> (texture: u32)
        requires
            old(self).wf(),
            old(self).next_gl_object < u32::MAX,
        ensures
            texture == old(self).next_gl_object,
            texture != 0,
            *final(self) == (Device {
                next_gl_object: (old(self).next_gl_object + 1) as u32,
                ..*old(self)
            }),
            final(self).wf(),
    {
        self.alloc_gl_object()
    }

    /// Wraps a generic surface's backing store as a texture that another
    /// context can sample from, consuming the surface. A window surface is
    /// refused with `WidgetAttached`: sampling a live swap chain is
    /// unsupported.
    pub fn create_surface_texture(&mut self, _context: &mut Context, surface: Surface)
        -> (result: Result<SurfaceTexture, Error>)
        requires
            old(self).wf(),
            old(self).next_gl_object < u32::MAX,
        ensures
            *final(_context) == *old(_context),
            surface.objects is Window ==> result == Err::<SurfaceTexture, Error>(
                Error::WidgetAttached,
            ) && *final(self) == *old(self),
            surface.objects is EglImage ==> result == Ok::<SurfaceTexture, Error>(
                (SurfaceTexture { surface, texture_object: old(self).next_gl_object }),
            ) && *final(self) == (Device {
                next_gl_object: (old(self).next_gl_object + 1) as u32,
                ..*old(self)
            }),
            final(self).wf(),
    {
        let egl_image: usize = match &surface.objects {
            SurfaceObjects::Window { .. } => return Err(Error::WidgetAttached),
            SurfaceObjects::EglImage { egl_image, .. } => *egl_image,
        };
        let texture_object = self.bind_to_gl_texture(egl_image);
        Ok(SurfaceTexture { surface, texture_object })
    }

    /// Swaps the native buffer chain of a window surface, making the
    /// rendered frame visible. A generic surface has no widget to present
    /// to and is refused with `NoWidgetAttached`. The surface's state,
    /// including its size, is unchanged either way.
    pub fn present_surface(&self, _context: &Context, surface: &mut Surface)
        -> (result: Result<(), Error>)
        ensures
            *final(surface) == *old(surface),
            result == (if old(surface).objects is Window {
                Ok::<(), Error>(())
            } else {
                Err::<(), Error>(Error::NoWidgetAttached)
            }),
    {
        self.present_surface_without_context(surface)
    }

    /// Presents a window surface without reference to a context.
    pub(crate) fn present_surface_without_context(&self, surface: &mut Surface)
        -> (result: Result<(), Error>)
        ensures
            *final(surface) == *old(surface),
            result == (if old(surface).objects is Window {
                Ok::<(), Error>(())
            } else {
                Err::<(), Error>(Error::NoWidgetAttached)
            }),
    {
        match &surface.objects {
            SurfaceObjects::Window { .. } => {
                // A native backend swaps the buffer chain here.
                Ok(())
            }
            SurfaceObjects::EglImage { .. } => Err(Error::NoWidgetAttached),
        }
    }

    /// Destroys a surface, consuming it.
    ///
    /// Through the context that created the surface, every tracked native
    /// handle is released and zeroed to the null sentinel. Through any
    /// other context the surface is only marked destroyed and its native
    /// resources are deliberately leaked — releasing them through an
    /// incompatible context risks corrupting that context's native state —
    /// and `IncompatibleSurface` is reported.
    pub fn destroy_surface(&self, context: &mut Context, surface: Surface)
        -> (result: Result<(), Error>)
        ensures
            *final(context) == *old(context),
            result == (if surface.context_id == old(context).id {
                Ok::<(), Error>(())
            } else {
                Err::<(), Error>(Error::IncompatibleSurface)
            }),
    {
        let mut surface = surface;
        if context.id != surface.context_id {
            surface.destroyed = true;
            return Err(Error::IncompatibleSurface);
        }

        release_surface(&mut surface);
        Ok(())
    }

    /// Releases the texture derived for a surface texture and hands the
    /// wrapped surface back to the caller. The surface itself is not
    /// destroyed: ownership returns to the caller.
    pub fn destroy_surface_texture(&self, _context: &mut Context, surface_texture: SurfaceTexture)
        -> (result: Result<Surface, Error>)
        ensures
            *final(_context) == *old(_context),
            result == Ok::<Surface, Error>(surface_texture.surface),
    {
        let mut surface_texture = surface_texture;
        surface_texture.texture_object = 0;
        Ok(surface_texture.surface)
    }

    /// Reports the texture binding target a generic surface's backing
    /// texture uses; callers bind such textures consistently with it.
    pub fn surface_gl_texture_target(&self) -> (target: u32)
        ensures
            target == SURFACE_GL_TEXTURE_TARGET,
    {
        SURFACE_GL_TEXTURE_TARGET
    }

    /// Describes the given surface.
    pub fn surface_info(&self, surface: &Surface) -> (info: SurfaceInfo)
        ensures
            info == surface_info_spec(*surface),
    {
        SurfaceInfo {
            size: surface.size,
            id: surface.id(),
            context_id: surface.context_id,
            framebuffer_object: match &surface.objects {
                SurfaceObjects::EglImage { framebuffer_object, .. } => *framebuffer_object,
                SurfaceObjects::Window { .. } => 0,
            },
        }
    }
}

impl Surface {
    /// The identifier a surface derives from its backing native handle: the
    /// interop image handle of a generic surface, or the swap-chain handle
    /// of a window surface.
    pub open spec fn id_spec(self) -> SurfaceID {
        match self.objects {
            SurfaceObjects::EglImage { egl_image, .. } => SurfaceID(egl_image),
            SurfaceObjects::Window { egl_surface } => SurfaceID(egl_surface),
        }
    }

    /// Returns the surface's size.
    pub fn size(&self) -> (size: SurfaceSize)
        ensures
            size == self.size,
    {
        self.size
    }

    /// Returns the surface's identifier, derived from its backing native
    /// handle.
    pub fn id(&self) -> (id: SurfaceID)
        ensures
            id == self.id_spec(),
    {
        match self.objects {
            SurfaceObjects::EglImage { egl_image, .. } => SurfaceID(egl_image),
            SurfaceObjects::Window { egl_surface } => SurfaceID(egl_surface),
        }
    }

    /// Returns the ID of the context that created this surface.
    pub fn context_id(&self) -> (id: ContextID)
        ensures
            id == self.context_id,
    {
        self.context_id
    }
}

impl SurfaceTexture {
    /// Returns the texture object through which the wrapped surface can be
    /// sampled. The texture is valid only while the wrapping context is
    /// current.
    pub fn gl_texture(&self) -> (texture: u32)
        ensures
            texture == self.texture_object,
    {
        self.texture_object
    }
}

impl NativeWidget {
    /// Captures a native window handle, given as its address, together with
    /// the size the windowing system reports for the window.
    pub fn from_native_window(native_window: usize, size: SurfaceSize) -> (widget: NativeWidget)
        ensures
            widget == (NativeWidget { native_window, size }),
    {
        NativeWidget { native_window, size }
    }
}

} // verus!
