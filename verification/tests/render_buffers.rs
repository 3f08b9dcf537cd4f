//! Render-buffer path arbitration and descriptors.

use glsync::caps::{Api, Capabilities, ExtensionSet, Version};
use glsync::commands::EntryPath;
use glsync::render_buffer::{
    choose_delete_path, choose_storage_path, ColorAttachment, DepthRenderBuffer,
    DepthStencilRenderBuffer, RenderBuffer, RenderBufferAny, RenderBufferStoragePath,
    StencilRenderBuffer,
};

fn caps_with(version: Version, extensions: ExtensionSet) -> Capabilities {
    Capabilities {
        version,
        extensions,
        max_patch_vertices: None,
        max_viewport_width: 4096,
        max_viewport_height: 4096,
    }
}

#[test]
fn direct_access_wins_when_available() {
    let caps = caps_with(Version { api: Api::Gl, major: 4, minor: 5 }, ExtensionSet::none());
    assert_eq!(choose_storage_path(&caps, false), Some(RenderBufferStoragePath::DirectAccess));
    assert_eq!(choose_storage_path(&caps, true), Some(RenderBufferStoragePath::DirectAccess));
    let mut ext = ExtensionSet::none();
    ext.gl_arb_direct_state_access = true;
    let old = caps_with(Version { api: Api::Gl, major: 3, minor: 0 }, ext);
    assert_eq!(choose_storage_path(&old, true), Some(RenderBufferStoragePath::DirectAccess));
}

#[test]
fn core_paths_come_before_extensions() {
    let caps = caps_with(Version { api: Api::Gl, major: 3, minor: 0 }, ExtensionSet::none());
    assert_eq!(choose_storage_path(&caps, true), Some(RenderBufferStoragePath::CoreMultisample));
    assert_eq!(choose_storage_path(&caps, false), Some(RenderBufferStoragePath::Core));
    let es2 = caps_with(Version { api: Api::GlEs, major: 2, minor: 0 }, ExtensionSet::none());
    assert_eq!(choose_storage_path(&es2, false), Some(RenderBufferStoragePath::Core));
    assert_eq!(choose_storage_path(&es2, true), None);
}

#[test]
fn multisample_extensions_follow_in_fixed_order() {
    let v = Version { api: Api::GlEs, major: 1, minor: 1 };
    let mut ext = ExtensionSet::none();
    ext.gl_nv_framebuffer_multisample = true;
    assert_eq!(
        choose_storage_path(&caps_with(v, ext), true),
        Some(RenderBufferStoragePath::NvMultisample)
    );
    ext.gl_ext_multisampled_render_to_texture = true;
    assert_eq!(
        choose_storage_path(&caps_with(v, ext), true),
        Some(RenderBufferStoragePath::TextureMultisample)
    );
    ext.gl_angle_framebuffer_multisample = true;
    assert_eq!(
        choose_storage_path(&caps_with(v, ext), true),
        Some(RenderBufferStoragePath::AngleMultisample)
    );
    ext.gl_apple_framebuffer_multisample = true;
    assert_eq!(
        choose_storage_path(&caps_with(v, ext), true),
        Some(RenderBufferStoragePath::AppleMultisample)
    );
}

#[test]
fn the_framebuffer_object_extension_is_the_last_resort() {
    let v = Version { api: Api::Gl, major: 2, minor: 1 };
    let mut ext = ExtensionSet::none();
    ext.gl_ext_framebuffer_object = true;
    assert_eq!(
        choose_storage_path(&caps_with(v, ext), false),
        Some(RenderBufferStoragePath::Ext)
    );
    assert_eq!(choose_storage_path(&caps_with(v, ext), true), None);
    ext.gl_ext_framebuffer_multisample = true;
    assert_eq!(
        choose_storage_path(&caps_with(v, ext), true),
        Some(RenderBufferStoragePath::ExtMultisample)
    );
}

#[test]
fn some_devices_have_no_allocation_path() {
    let caps = caps_with(Version { api: Api::Gl, major: 2, minor: 1 }, ExtensionSet::none());
    assert_eq!(choose_storage_path(&caps, false), None);
}

#[test]
fn deletion_prefers_the_core_call() {
    let core = caps_with(Version { api: Api::GlEs, major: 2, minor: 0 }, ExtensionSet::none());
    assert_eq!(choose_delete_path(&core), Some(EntryPath::Core));
    let mut ext = ExtensionSet::none();
    ext.gl_ext_framebuffer_object = true;
    let old = caps_with(Version { api: Api::Gl, major: 2, minor: 1 }, ext);
    assert_eq!(choose_delete_path(&old), Some(EntryPath::Ext));
    let none = caps_with(Version { api: Api::Gl, major: 2, minor: 1 }, ExtensionSet::none());
    assert_eq!(choose_delete_path(&none), None);
}

#[test]
fn descriptors_report_what_they_hold() {
    let any = RenderBufferAny { id: 17, width: 800, height: 600, samples: Some(4) };
    assert_eq!(any.get_dimensions(), (800, 600));
    assert_eq!(any.get_samples(), Some(4));
    assert_eq!(any.get_id(), 17);
    let plain = RenderBufferAny { id: 18, width: 1, height: 1, samples: None };
    assert_eq!(plain.get_samples(), None);
}

#[test]
fn typed_buffers_turn_into_their_attachment_kind() {
    let any = RenderBufferAny { id: 3, width: 64, height: 64, samples: None };
    let color = RenderBuffer::new(any);
    assert_eq!(color.to_color_attachment(), ColorAttachment::RenderBuffer(any));
    assert_eq!(color.get_id(), 3);
    let depth = DepthRenderBuffer::new(any);
    assert!(matches!(
        depth.to_depth_attachment(),
        glsync::render_buffer::DepthAttachment::RenderBuffer(_)
    ));
    let stencil = StencilRenderBuffer::new(any);
    assert!(matches!(
        stencil.to_stencil_attachment(),
        glsync::render_buffer::StencilAttachment::RenderBuffer(_)
    ));
    let both = DepthStencilRenderBuffer::new(any);
    assert!(matches!(
        both.to_depth_stencil_attachment(),
        glsync::render_buffer::DepthStencilAttachment::RenderBuffer(_)
    ));
}
