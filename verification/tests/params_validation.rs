//! Pre-flight validation, defaults, and the exact device enumerants.

use glsync::caps::{Api, Capabilities, ExtensionSet, Version};
use glsync::params::{
    Blend, BlendingFunction, DepthClamp, DepthRange, DepthTest, LinearBlendingFactor, PolygonMode,
    ProvokingVertex, Smooth, StencilOperation, StencilTest, validate, DrawParameters,
};
use glsync::{DrawError, FIXED_ONE};

fn desktop_caps() -> Capabilities {
    Capabilities {
        version: Version { api: Api::Gl, major: 4, minor: 5 },
        extensions: ExtensionSet::none(),
        max_patch_vertices: Some(32),
        max_viewport_width: 16384,
        max_viewport_height: 16384,
    }
}

fn legacy_caps() -> Capabilities {
    Capabilities {
        version: Version { api: Api::Gl, major: 2, minor: 1 },
        extensions: ExtensionSet::none(),
        max_patch_vertices: None,
        max_viewport_width: 4096,
        max_viewport_height: 4096,
    }
}

#[test]
fn depth_range_above_one_is_rejected() {
    let caps = desktop_caps();
    let mut p = DrawParameters::default();
    p.depth_range = DepthRange { near: 1_500_000, far: 0 };
    assert_eq!(validate(&caps, &p), Err(DrawError::InvalidDepthRange));
}

#[test]
fn depth_range_negative_is_rejected() {
    let caps = desktop_caps();
    let mut p = DrawParameters::default();
    p.depth_range = DepthRange { near: 0, far: -1 };
    assert_eq!(validate(&caps, &p), Err(DrawError::InvalidDepthRange));
}

#[test]
fn full_depth_range_is_accepted() {
    let caps = desktop_caps();
    let mut p = DrawParameters::default();
    p.depth_range = DepthRange { near: 0, far: FIXED_ONE };
    assert_eq!(validate(&caps, &p), Ok(()));
}

#[test]
fn reversed_depth_range_is_accepted() {
    let caps = desktop_caps();
    let mut p = DrawParameters::default();
    p.depth_range = DepthRange { near: FIXED_ONE, far: 0 };
    assert_eq!(validate(&caps, &p), Ok(()));
}

#[test]
fn discard_needs_support() {
    let caps = legacy_caps();
    let mut p = DrawParameters::default();
    p.draw_primitives = false;
    assert_eq!(validate(&caps, &p), Err(DrawError::RasterizerDiscardNotSupported));
}

#[test]
fn discard_passes_with_extension() {
    let mut caps = legacy_caps();
    caps.extensions.gl_ext_transform_feedback = true;
    let mut p = DrawParameters::default();
    p.draw_primitives = false;
    assert_eq!(validate(&caps, &p), Ok(()));
}

#[test]
fn depth_range_is_checked_before_discard() {
    let caps = legacy_caps();
    let mut p = DrawParameters::default();
    p.depth_range = DepthRange { near: 2_000_000, far: 0 };
    p.draw_primitives = false;
    assert_eq!(validate(&caps, &p), Err(DrawError::InvalidDepthRange));
}

#[test]
fn default_parameters_are_a_noop_configuration() {
    let p = DrawParameters::default();
    assert_eq!(p.depth_test, DepthTest::Overwrite);
    assert!(!p.depth_write);
    assert_eq!(p.depth_range, DepthRange { near: 0, far: FIXED_ONE });
    assert_eq!(p.depth_clamp, DepthClamp::NoClamp);
    assert_eq!(p.stencil_test_clockwise, StencilTest::AlwaysPass);
    assert_eq!(p.stencil_write_mask_clockwise, 0xffffffff);
    assert_eq!(p.stencil_fail_operation_clockwise, StencilOperation::Keep);
    assert_eq!(p.blend.color, BlendingFunction::AlwaysReplace);
    assert_eq!(p.blend.alpha, BlendingFunction::AlwaysReplace);
    assert!(p.color_mask.r && p.color_mask.g && p.color_mask.b && p.color_mask.a);
    assert_eq!(p.line_width, None);
    assert_eq!(p.point_size, None);
    assert_eq!(p.polygon_mode, PolygonMode::Fill);
    assert!(p.multisampling);
    assert!(p.dithering);
    assert_eq!(p.viewport, None);
    assert_eq!(p.scissor, None);
    assert!(p.draw_primitives);
    assert_eq!(p.provoking_vertex, ProvokingVertex::LastVertex);
    assert_eq!(p.primitive_bounding_box.x_start, -FIXED_ONE);
    assert_eq!(p.primitive_bounding_box.w_end, FIXED_ONE);
}

#[test]
fn alpha_blending_layers_by_source_alpha() {
    let b = Blend::alpha_blending();
    assert_eq!(
        b.color,
        BlendingFunction::Addition {
            source: LinearBlendingFactor::SourceAlpha,
            destination: LinearBlendingFactor::OneMinusSourceAlpha,
        }
    );
    assert_eq!(b.color, b.alpha);
    assert_eq!(b.constant_value.r, 0);
}

#[test]
fn only_overwrite_needs_no_depth_buffer() {
    assert!(!DepthTest::Overwrite.requires_depth_buffer());
    assert!(DepthTest::Ignore.requires_depth_buffer());
    assert!(DepthTest::IfLess.requires_depth_buffer());
    assert!(DepthTest::IfMoreOrEqual.requires_depth_buffer());
}

#[test]
fn depth_test_enumerants_are_exact() {
    assert_eq!(DepthTest::Ignore.to_glenum(), 0x0200);
    assert_eq!(DepthTest::Overwrite.to_glenum(), 0x0207);
    assert_eq!(DepthTest::IfEqual.to_glenum(), 0x0202);
    assert_eq!(DepthTest::IfNotEqual.to_glenum(), 0x0205);
    assert_eq!(DepthTest::IfMore.to_glenum(), 0x0204);
    assert_eq!(DepthTest::IfMoreOrEqual.to_glenum(), 0x0206);
    assert_eq!(DepthTest::IfLess.to_glenum(), 0x0201);
    assert_eq!(DepthTest::IfLessOrEqual.to_glenum(), 0x0203);
}

#[test]
fn blending_factor_enumerants_are_exact() {
    assert_eq!(LinearBlendingFactor::Zero.to_glenum(), 0);
    assert_eq!(LinearBlendingFactor::One.to_glenum(), 1);
    assert_eq!(LinearBlendingFactor::SourceColor.to_glenum(), 0x0300);
    assert_eq!(LinearBlendingFactor::OneMinusSourceColor.to_glenum(), 0x0301);
    assert_eq!(LinearBlendingFactor::SourceAlpha.to_glenum(), 0x0302);
    assert_eq!(LinearBlendingFactor::OneMinusSourceAlpha.to_glenum(), 0x0303);
    assert_eq!(LinearBlendingFactor::DestinationAlpha.to_glenum(), 0x0304);
    assert_eq!(LinearBlendingFactor::OneMinusDestinationAlpha.to_glenum(), 0x0305);
    assert_eq!(LinearBlendingFactor::DestinationColor.to_glenum(), 0x0306);
    assert_eq!(LinearBlendingFactor::OneMinusDestinationColor.to_glenum(), 0x0307);
    assert_eq!(LinearBlendingFactor::SourceAlphaSaturate.to_glenum(), 0x0308);
    assert_eq!(LinearBlendingFactor::ConstantColor.to_glenum(), 0x8001);
    assert_eq!(LinearBlendingFactor::OneMinusConstantColor.to_glenum(), 0x8002);
    assert_eq!(LinearBlendingFactor::ConstantAlpha.to_glenum(), 0x8003);
    assert_eq!(LinearBlendingFactor::OneMinusConstantAlpha.to_glenum(), 0x8004);
}

#[test]
fn stencil_operation_enumerants_are_exact() {
    assert_eq!(StencilOperation::Keep.to_glenum(), 0x1E00);
    assert_eq!(StencilOperation::Zero.to_glenum(), 0);
    assert_eq!(StencilOperation::Replace.to_glenum(), 0x1E01);
    assert_eq!(StencilOperation::Increment.to_glenum(), 0x1E02);
    assert_eq!(StencilOperation::IncrementWrap.to_glenum(), 0x8507);
    assert_eq!(StencilOperation::Decrement.to_glenum(), 0x1E03);
    assert_eq!(StencilOperation::DecrementWrap.to_glenum(), 0x8508);
    assert_eq!(StencilOperation::Invert.to_glenum(), 0x150A);
}

#[test]
fn stencil_test_enumerants_and_masks_are_exact() {
    assert_eq!(StencilTest::AlwaysPass.to_glenum(), 0x0207);
    assert_eq!(StencilTest::AlwaysFail.to_glenum(), 0x0200);
    assert_eq!(StencilTest::IfLess { mask: 7 }.to_glenum(), 0x0201);
    assert_eq!(StencilTest::IfMore { mask: 7 }.to_glenum(), 0x0204);
    assert_eq!(StencilTest::AlwaysPass.read_mask(), 0);
    assert_eq!(StencilTest::IfEqual { mask: 0xf0 }.read_mask(), 0xf0);
}

#[test]
fn polygon_and_smooth_enumerants_are_exact() {
    assert_eq!(PolygonMode::Point.to_glenum(), 0x1B00);
    assert_eq!(PolygonMode::Line.to_glenum(), 0x1B01);
    assert_eq!(PolygonMode::Fill.to_glenum(), 0x1B02);
    assert_eq!(Smooth::Fastest.to_glenum(), 0x1101);
    assert_eq!(Smooth::Nicest.to_glenum(), 0x1102);
    assert_eq!(Smooth::DontCare.to_glenum(), 0x1100);
}
