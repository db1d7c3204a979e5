//! The device: the factory that owns the backend connection and allocates
//! contexts and surfaces.

use vstd::prelude::*;

verus! {

/// The connection to the rendering backend, and the factory for contexts and
/// surfaces.
///
/// The device owns the counters from which every native handle and every
/// context ID is allocated. Handles stand for the opaque pointers and GL
/// object names a platform backend would hand out: they are plain integers
/// here, allocated strictly increasing from `1`, so that `0` can serve as the
/// null sentinel throughout. The device also records which native context is
/// current; a real backend keeps this per thread, and a `Device` value is
/// likewise confined to one thread's exclusive use at a time.
///
/// Context creation must be serialized process-wide; callers that share a
/// device across threads wrap it in a mutex, and exclusive access (`&mut`)
/// gives the same guarantee within verified code.
pub struct Device {
    /// Whether the adapter this device was opened on is the low-power
    /// (integrated) GPU. Low-power adapters opt in to offline renderers
    /// during pixel-format selection.
    pub adapter_is_low_power: bool,
    /// The ID the next created context receives. Strictly increasing.
    pub next_context_id: u64,
    /// The native handle of the context that is current, or `0` for none.
    pub current_context: usize,
    /// The next pointer-sized native handle to hand out (interop images,
    /// swap-chain surfaces, native contexts). Never `0`.
    pub next_handle: usize,
    /// The next GL object name to hand out (textures, framebuffers,
    /// renderbuffers). Never `0`.
    pub next_gl_object: u32,
}

impl Device {
    /// The device's allocators never hand out the null sentinel.
    pub open spec fn wf(self) -> bool {
        &&& self.next_handle >= 1
        &&& self.next_gl_object >= 1
    }

    /// Opens a device on the given adapter.
    pub fn new(adapter_is_low_power: bool) -> (device: Device)
        ensures
            device == (Device {
                adapter_is_low_power,
                next_context_id: 0,
                current_context: 0,
                next_handle: 1,
                next_gl_object: 1,
            }),
            device.wf(),
    {
        Device {
            adapter_is_low_power,
            next_context_id: 0,
            current_context: 0,
            next_handle: 1,
            next_gl_object: 1,
        }
    }

    /// Allocates a fresh pointer-sized native handle. The result is never the
    /// null sentinel.
    pub(crate) fn alloc_native_handle(&mut self) -> (handle: usize)
        requires
            old(self).wf(),
            old(self).next_handle < usize::MAX,
        ensures
            handle == old(self).next_handle,
            handle != 0,
            *final(self) == (Device { next_handle: (old(self).next_handle + 1) as usize, ..*old(self) }),
            final(self).wf(),
    {
        let handle = self.next_handle;
        self.next_handle = self.next_handle + 1;
        handle
    }

    /// Allocates a fresh GL object name. The result is never the null
    /// sentinel.
    pub(crate) fn alloc_gl_object(&mut self) -> (name: u32)
        requires
            old(self).wf(),
            old(self).next_gl_object < u32::MAX,
        ensures
            name == old(self).next_gl_object,
            name != 0,
            *final(self) == (Device { next_gl_object: (old(self).next_gl_object + 1) as u32, ..*old(self) }),
            final(self).wf(),
    {
        let name = self.next_gl_object;
        self.next_gl_object = self.next_gl_object + 1;
        name
    }
}

} // verus!
