//! End-to-end scenarios for the context/surface lifecycle.

use surfman::context::{CurrentContextGuard, Framebuffer};
use surfman::surface::SurfaceObjects;
use surfman::{
    Context, ContextAttributeFlags, ContextAttributes, ContextID, Device, Error, GLVersion,
    NativeWidget, SurfaceSize, SurfaceType,
};

fn depth_only_attributes() -> ContextAttributes {
    ContextAttributes {
        flags: ContextAttributeFlags {
            alpha: false,
            depth: true,
            stencil: false,
        },
        version: GLVersion { major: 3, minor: 2 },
    }
}

fn make_context(device: &mut Device) -> Context {
    let descriptor = device
        .create_context_descriptor(&depth_only_attributes())
        .unwrap();
    device.create_context(&descriptor).unwrap()
}

#[test]
fn generic_surface_bind_unbind_rebind_scenario() {
    let mut device = Device::new(false);
    let descriptor = device
        .create_context_descriptor(&depth_only_attributes())
        .unwrap();
    let mut context = device.create_context(&descriptor).unwrap();

    let size = SurfaceSize {
        width: 256,
        height: 256,
    };
    let surface = device
        .create_surface(&context, &SurfaceType::Generic { size })
        .unwrap();
    assert_eq!(surface.context_id(), device.context_id(&context));

    // Remember the backing handles so the round trip can be checked
    // bit for bit.
    let (egl_image, framebuffer_object, texture_object) = match &surface.objects {
        SurfaceObjects::EglImage {
            egl_image,
            framebuffer_object,
            texture_object,
            ..
        } => (*egl_image, *framebuffer_object, *texture_object),
        SurfaceObjects::Window { .. } => panic!("expected a generic surface"),
    };
    let surface_id = surface.id();

    assert_eq!(device.bind_surface_to_context(&mut context, surface), Ok(()));

    let unbound = device
        .unbind_surface_from_context(&mut context)
        .unwrap()
        .expect("a surface was bound");
    assert_eq!(unbound.size(), size);
    assert_eq!(unbound.id(), surface_id);
    match &unbound.objects {
        SurfaceObjects::EglImage {
            egl_image: image_after,
            framebuffer_object: framebuffer_after,
            texture_object: texture_after,
            ..
        } => {
            assert_eq!(*image_after, egl_image);
            assert_eq!(*framebuffer_after, framebuffer_object);
            assert_eq!(*texture_after, texture_object);
        }
        SurfaceObjects::Window { .. } => panic!("expected a generic surface"),
    }

    // Rebinding the very same surface succeeds.
    assert_eq!(
        device.bind_surface_to_context(&mut context, unbound),
        Ok(())
    );

    // Destroying the context transitively destroys the bound surface;
    // no fault is raised.
    assert_eq!(device.destroy_context(&mut context), Ok(()));
    assert_eq!(context.native_context, 0);
    assert!(matches!(context.framebuffer, Framebuffer::Unbound));
}

#[test]
fn binding_to_foreign_context_is_incompatible() {
    let mut device = Device::new(false);
    let mut context_a = make_context(&mut device);
    let mut context_b = make_context(&mut device);

    let surface = device
        .create_surface(
            &context_a,
            &SurfaceType::Generic {
                size: SurfaceSize {
                    width: 64,
                    height: 64,
                },
            },
        )
        .unwrap();
    assert_eq!(surface.context_id(), context_a.id);

    let result = device.bind_surface_to_context(&mut context_b, surface);
    assert_eq!(result, Err(Error::IncompatibleSurface));
    // The foreign context's binding state is unchanged.
    assert!(matches!(context_b.framebuffer, Framebuffer::Unbound));
    assert_eq!(device.context_surface_info(&context_b), Ok(None));

    assert_eq!(device.destroy_context(&mut context_a), Ok(()));
    assert_eq!(device.destroy_context(&mut context_b), Ok(()));
}

#[test]
fn second_bind_reports_already_bound() {
    let mut device = Device::new(false);
    let mut context = make_context(&mut device);
    let size = SurfaceSize {
        width: 32,
        height: 32,
    };
    let first = device
        .create_surface(&context, &SurfaceType::Generic { size })
        .unwrap();
    let second = device
        .create_surface(&context, &SurfaceType::Generic { size })
        .unwrap();

    assert_eq!(device.bind_surface_to_context(&mut context, first), Ok(()));
    let info_before = device.context_surface_info(&context).unwrap();
    assert_eq!(
        device.bind_surface_to_context(&mut context, second),
        Err(Error::SurfaceAlreadyBound)
    );
    // The binding state is unchanged: still the first surface.
    assert_eq!(device.context_surface_info(&context).unwrap(), info_before);

    assert_eq!(device.destroy_context(&mut context), Ok(()));
}

#[test]
fn window_surface_presents_repeatedly() {
    let mut device = Device::new(false);
    let mut context = make_context(&mut device);

    let widget = NativeWidget::from_native_window(
        0x7f00_1000,
        SurfaceSize {
            width: 800,
            height: 600,
        },
    );
    let mut surface = device
        .create_surface(
            &context,
            &SurfaceType::Widget {
                native_widget: widget,
            },
        )
        .unwrap();
    assert_eq!(
        surface.size(),
        SurfaceSize {
            width: 800,
            height: 600
        }
    );

    for _ in 0..3 {
        assert_eq!(device.present_surface(&context, &mut surface), Ok(()));
        assert_eq!(
            surface.size(),
            SurfaceSize {
                width: 800,
                height: 600
            }
        );
    }

    // A live swap-chain target cannot back a surface texture.
    assert_eq!(
        device.create_surface_texture(&mut context, surface),
        Err(Error::WidgetAttached)
    );
    assert_eq!(device.destroy_context(&mut context), Ok(()));
}

#[test]
fn presenting_generic_surface_reports_no_widget() {
    let mut device = Device::new(false);
    let mut context = make_context(&mut device);
    let mut surface = device
        .create_surface(
            &context,
            &SurfaceType::Generic {
                size: SurfaceSize {
                    width: 16,
                    height: 16,
                },
            },
        )
        .unwrap();
    assert_eq!(
        device.present_surface(&context, &mut surface),
        Err(Error::NoWidgetAttached)
    );
    assert_eq!(device.destroy_surface(&mut context, surface), Ok(()));
    assert_eq!(device.destroy_context(&mut context), Ok(()));
}

#[test]
fn externally_managed_target_is_never_touched() {
    let mut device = Device::new(false);
    let descriptor = device
        .create_context_descriptor(&depth_only_attributes())
        .unwrap();
    let mut context = Context {
        native_context: 42,
        id: ContextID(900),
        framebuffer: Framebuffer::BoundExternal,
        pixel_format: descriptor.pixel_format,
    };

    let mut surface_holder = device.create_context(&descriptor).unwrap();
    let surface = device
        .create_surface(
            &surface_holder,
            &SurfaceType::Generic {
                size: SurfaceSize {
                    width: 8,
                    height: 8,
                },
            },
        )
        .unwrap();

    assert_eq!(
        device.bind_surface_to_context(&mut context, surface),
        Err(Error::ExternalRenderTarget)
    );
    assert_eq!(
        device.unbind_surface_from_context(&mut context),
        Err(Error::ExternalRenderTarget)
    );
    assert_eq!(
        device.context_surface_info(&context),
        Err(Error::ExternalRenderTarget)
    );
    assert!(matches!(context.framebuffer, Framebuffer::BoundExternal));

    assert_eq!(device.destroy_context(&mut surface_holder), Ok(()));
}

#[test]
fn context_ids_increase_strictly() {
    let mut device = Device::new(false);
    let mut a = make_context(&mut device);
    let mut b = make_context(&mut device);
    let mut c = make_context(&mut device);

    assert!(a.id.0 < b.id.0);
    assert!(b.id.0 < c.id.0);

    assert_eq!(device.destroy_context(&mut a), Ok(()));
    assert_eq!(device.destroy_context(&mut b), Ok(()));
    assert_eq!(device.destroy_context(&mut c), Ok(()));
}

#[test]
fn destroying_surface_through_foreign_context_leaks() {
    let mut device = Device::new(false);
    let mut context_a = make_context(&mut device);
    let mut context_b = make_context(&mut device);

    let surface = device
        .create_surface(
            &context_a,
            &SurfaceType::Generic {
                size: SurfaceSize {
                    width: 4,
                    height: 4,
                },
            },
        )
        .unwrap();
    assert_eq!(
        device.destroy_surface(&mut context_b, surface),
        Err(Error::IncompatibleSurface)
    );

    let surface = device
        .create_surface(
            &context_a,
            &SurfaceType::Generic {
                size: SurfaceSize {
                    width: 4,
                    height: 4,
                },
            },
        )
        .unwrap();
    assert_eq!(device.destroy_surface(&mut context_a, surface), Ok(()));

    assert_eq!(device.destroy_context(&mut context_a), Ok(()));
    assert_eq!(device.destroy_context(&mut context_b), Ok(()));
}

#[test]
fn destroying_context_twice_is_idempotent() {
    let mut device = Device::new(false);
    let mut context = make_context(&mut device);
    assert_eq!(device.destroy_context(&mut context), Ok(()));
    assert_eq!(context.native_context, 0);
    let id = context.id;
    assert_eq!(device.destroy_context(&mut context), Ok(()));
    assert_eq!(context.native_context, 0);
    assert_eq!(context.id, id);
}

#[test]
fn surface_texture_round_trip() {
    let mut device = Device::new(false);
    let mut context = make_context(&mut device);
    let size = SurfaceSize {
        width: 128,
        height: 128,
    };
    let surface = device
        .create_surface(&context, &SurfaceType::Generic { size })
        .unwrap();
    let surface_id = surface.id();

    let surface_texture = device
        .create_surface_texture(&mut context, surface)
        .unwrap();
    assert_ne!(surface_texture.gl_texture(), 0);

    let surface = device
        .destroy_surface_texture(&mut context, surface_texture)
        .unwrap();
    assert_eq!(surface.id(), surface_id);
    assert_eq!(surface.size(), size);

    assert_eq!(device.destroy_surface(&mut context, surface), Ok(()));
    assert_eq!(device.destroy_context(&mut context), Ok(()));
}

#[test]
fn surface_info_reports_render_target() {
    let mut device = Device::new(false);
    let mut context = make_context(&mut device);

    let generic = device
        .create_surface(
            &context,
            &SurfaceType::Generic {
                size: SurfaceSize {
                    width: 2,
                    height: 2,
                },
            },
        )
        .unwrap();
    let generic_info = device.surface_info(&generic);
    assert_ne!(generic_info.framebuffer_object, 0);
    assert_eq!(generic_info.id, generic.id());
    assert_eq!(generic_info.context_id, context.id);

    let widget = NativeWidget::from_native_window(
        0x1234,
        SurfaceSize {
            width: 10,
            height: 20,
        },
    );
    let window = device
        .create_surface(
            &context,
            &SurfaceType::Widget {
                native_widget: widget,
            },
        )
        .unwrap();
    // A window surface renders to the default framebuffer.
    assert_eq!(device.surface_info(&window).framebuffer_object, 0);

    assert_eq!(device.destroy_surface(&mut context, generic), Ok(()));
    assert_eq!(device.destroy_surface(&mut context, window), Ok(()));
    assert_eq!(device.destroy_context(&mut context), Ok(()));
}

#[test]
fn current_context_guard_restores_previous_context() {
    let mut device = Device::new(false);
    let mut first = make_context(&mut device);
    let mut second = make_context(&mut device);

    assert_eq!(device.make_context_current(&first), Ok(()));
    let previously_current = device.current_context;

    let guard = CurrentContextGuard::new(&device);
    assert_eq!(device.make_context_current(&second), Ok(()));
    assert_eq!(device.current_context, second.native_context);
    guard.restore(&mut device);
    assert_eq!(device.current_context, previously_current);

    assert_eq!(device.make_no_context_current(), Ok(()));
    assert_eq!(device.current_context, 0);

    assert_eq!(device.destroy_context(&mut first), Ok(()));
    assert_eq!(device.destroy_context(&mut second), Ok(()));
}

#[test]
fn unbind_leaves_current_context_unchanged() {
    let mut device = Device::new(false);
    let mut render = make_context(&mut device);
    let mut other = make_context(&mut device);

    let surface = device
        .create_surface(
            &render,
            &SurfaceType::Generic {
                size: SurfaceSize {
                    width: 1,
                    height: 1,
                },
            },
        )
        .unwrap();
    assert_eq!(device.bind_surface_to_context(&mut render, surface), Ok(()));

    // The unbind flush momentarily makes `render` current; afterwards the
    // previously current context must be current again.
    assert_eq!(device.make_context_current(&other), Ok(()));
    let unbound = device.unbind_surface_from_context(&mut render).unwrap();
    assert!(unbound.is_some());
    assert_eq!(device.current_context, other.native_context);

    assert_eq!(
        device.destroy_surface(&mut render, unbound.unwrap()),
        Ok(())
    );
    assert_eq!(device.destroy_context(&mut render), Ok(()));
    assert_eq!(device.destroy_context(&mut other), Ok(()));
}

#[test]
fn destroying_current_context_clears_current_binding() {
    let mut device = Device::new(false);
    let mut context = make_context(&mut device);
    let mut bystander = make_context(&mut device);

    assert_eq!(device.make_context_current(&bystander), Ok(()));
    // Destroying a non-current context leaves the current binding alone.
    assert_eq!(device.destroy_context(&mut context), Ok(()));
    assert_eq!(device.current_context, bystander.native_context);

    // Destroying the current context clears it.
    assert_eq!(device.make_context_current(&bystander), Ok(()));
    assert_eq!(device.destroy_context(&mut bystander), Ok(()));
    assert_eq!(device.current_context, 0);
}

#[test]
fn unbinding_empty_slot_returns_none() {
    let mut device = Device::new(false);
    let mut context = make_context(&mut device);
    assert_eq!(device.unbind_surface_from_context(&mut context), Ok(None));
    assert_eq!(device.destroy_context(&mut context), Ok(()));
}

#[test]
fn version_tier_matches_requested_versions() {
    let mut device = Device::new(false);
    let cases = [
        (GLVersion { major: 4, minor: 6 }, GLVersion { major: 4, minor: 1 }),
        (GLVersion { major: 4, minor: 0 }, GLVersion { major: 4, minor: 1 }),
        (GLVersion { major: 3, minor: 0 }, GLVersion { major: 3, minor: 2 }),
        (GLVersion { major: 2, minor: 1 }, GLVersion { major: 1, minor: 0 }),
        (GLVersion { major: 1, minor: 0 }, GLVersion { major: 1, minor: 0 }),
    ];
    for (requested, expected) in cases {
        let attributes = ContextAttributes {
            flags: ContextAttributeFlags {
                alpha: true,
                depth: false,
                stencil: true,
            },
            version: requested,
        };
        let descriptor = device.create_context_descriptor(&attributes).unwrap();
        let back = device.context_descriptor_attributes(&descriptor);
        assert_eq!(back.version, expected);
        assert_eq!(back.flags, attributes.flags);
    }
}
