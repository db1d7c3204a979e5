//! Descriptor creation and attribute read-back.

use surfman::surface::SurfaceObjects;
use surfman::{
    ContextAttributeFlags, ContextAttributes, Device, GLVersion, SurfaceSize, SurfaceType,
};

fn attributes(alpha: bool, depth: bool, stencil: bool, major: u8, minor: u8) -> ContextAttributes {
    ContextAttributes {
        flags: ContextAttributeFlags {
            alpha,
            depth,
            stencil,
        },
        version: GLVersion { major, minor },
    }
}

#[test]
fn pixel_format_resolves_exact_bit_depths() {
    let device = Device::new(false);
    let descriptor = device
        .create_context_descriptor(&attributes(true, true, true, 3, 2))
        .unwrap();
    assert_eq!(descriptor.pixel_format.alpha_size, 8);
    assert_eq!(descriptor.pixel_format.depth_size, 24);
    assert_eq!(descriptor.pixel_format.stencil_size, 8);
    assert_eq!(descriptor.pixel_format.profile, 0x3200);

    let descriptor = device
        .create_context_descriptor(&attributes(false, false, false, 4, 1))
        .unwrap();
    assert_eq!(descriptor.pixel_format.alpha_size, 0);
    assert_eq!(descriptor.pixel_format.depth_size, 0);
    assert_eq!(descriptor.pixel_format.stencil_size, 0);
    assert_eq!(descriptor.pixel_format.profile, 0x4100);

    let descriptor = device
        .create_context_descriptor(&attributes(false, true, false, 2, 0))
        .unwrap();
    assert_eq!(descriptor.pixel_format.profile, 0x1000);
}

#[test]
fn low_power_adapter_allows_offline_renderers() {
    let low_power = Device::new(true);
    let descriptor = low_power
        .create_context_descriptor(&attributes(false, false, false, 3, 2))
        .unwrap();
    assert!(descriptor.pixel_format.allow_offline_renderers);

    let discrete = Device::new(false);
    let descriptor = discrete
        .create_context_descriptor(&attributes(false, false, false, 3, 2))
        .unwrap();
    assert!(!descriptor.pixel_format.allow_offline_renderers);
}

#[test]
fn descriptors_compare_by_configuration() {
    let device = Device::new(false);
    let first = device
        .create_context_descriptor(&attributes(true, false, true, 3, 2))
        .unwrap();
    let second = device
        .create_context_descriptor(&attributes(true, false, true, 3, 0))
        .unwrap();
    // Both requests resolve to the same configuration, so the descriptors
    // are equal, and a clone is equal to its source.
    assert_eq!(first, second);
    assert_eq!(first.clone(), first);

    let different = device
        .create_context_descriptor(&attributes(true, true, true, 3, 2))
        .unwrap();
    assert_ne!(first, different);
}

#[test]
fn context_reports_descriptor_it_was_created_with() {
    let mut device = Device::new(false);
    let requested = attributes(false, true, true, 4, 6);
    let descriptor = device.create_context_descriptor(&requested).unwrap();
    let mut context = device.create_context(&descriptor).unwrap();

    let read_back = device.context_descriptor(&context);
    assert_eq!(read_back, descriptor);

    let reconstructed = device.context_descriptor_attributes(&read_back);
    assert_eq!(reconstructed.flags, requested.flags);
    // The requested version is rounded to the profile tier.
    assert_eq!(reconstructed.version, GLVersion { major: 4, minor: 1 });

    assert_eq!(device.destroy_context(&mut context), Ok(()));
}

#[test]
fn renderbuffers_match_descriptor_attributes() {
    let mut device = Device::new(false);
    let descriptor = device
        .create_context_descriptor(&attributes(false, true, false, 3, 2))
        .unwrap();
    let mut context = device.create_context(&descriptor).unwrap();
    let surface = device
        .create_surface(
            &context,
            &SurfaceType::Generic {
                size: SurfaceSize {
                    width: 64,
                    height: 64,
                },
            },
        )
        .unwrap();

    match &surface.objects {
        SurfaceObjects::EglImage { renderbuffers, .. } => {
            // A depth renderbuffer was attached; the stencil slot holds
            // the null sentinel.
            assert_ne!(renderbuffers.depth, 0);
            assert_eq!(renderbuffers.stencil, 0);
        }
        SurfaceObjects::Window { .. } => panic!("expected a generic surface"),
    }

    assert_eq!(device.destroy_surface(&mut context, surface), Ok(()));
    assert_eq!(device.destroy_context(&mut context), Ok(()));
}

#[test]
fn surface_gl_texture_target_is_the_2d_target() {
    let device = Device::new(false);
    assert_eq!(device.surface_gl_texture_target(), 0x0DE1);
}
