//! Per-dimension synchronization against a fresh mirror, and the
//! minimal-diff behavior across repeated calls.

use glsync::blend::sync_blending;
use glsync::caps::{Api, Capabilities, ExtensionSet, Version};
use glsync::commands::{Command, EntryPath};
use glsync::depth::sync_depth;
use glsync::glenum::{
    GL_BLEND, GL_DEPTH_TEST, GL_LINE_SMOOTH, GL_STENCIL_TEST,
};
use glsync::hints::{sync_provoking_vertex, sync_smooth};
use glsync::index::PrimitiveType;
use glsync::params::{
    Blend, BlendConstant, BlendingFunction, DepthClamp, DepthRange, DepthTest, DrawParameters,
    ProvokingVertex, Smooth, StencilOperation,
};
use glsync::queries::QueryLifecycleManager;
use glsync::raster::sync_rasterizer_discard;
use glsync::state::RenderState;
use glsync::stencil::sync_stencil;
use glsync::sync::synchronize;
use glsync::{DrawError, FIXED_ONE};

fn desktop_caps() -> Capabilities {
    Capabilities {
        version: Version { api: Api::Gl, major: 4, minor: 5 },
        extensions: ExtensionSet::none(),
        max_patch_vertices: Some(32),
        max_viewport_width: 16384,
        max_viewport_height: 16384,
    }
}

fn embedded_caps() -> Capabilities {
    Capabilities {
        version: Version { api: Api::GlEs, major: 2, minor: 0 },
        extensions: ExtensionSet::none(),
        max_patch_vertices: None,
        max_viewport_width: 4096,
        max_viewport_height: 4096,
    }
}

fn sync_defaults(state: &mut RenderState, queries: &mut QueryLifecycleManager) -> Vec<Command> {
    let caps = desktop_caps();
    let p = DrawParameters::default();
    let mut cmds = Vec::new();
    synchronize(state, queries, &mut cmds, &caps, &p, None, PrimitiveType::TrianglesList, 640,
        480).unwrap();
    cmds
}

#[test]
fn default_depth_from_fresh_emits_exactly_one_disable() {
    let caps = desktop_caps();
    let mut state = RenderState::fresh();
    let mut cmds = Vec::new();
    let r = sync_depth(&mut state.depth, &mut cmds, &caps, DepthTest::Overwrite, false,
        DepthRange { near: 0, far: FIXED_ONE }, DepthClamp::NoClamp);
    assert_eq!(r, Ok(()));
    assert_eq!(cmds, vec![Command::Disable { cap: GL_DEPTH_TEST }]);
}

#[test]
fn replace_only_blend_emits_exactly_one_disable() {
    let caps = desktop_caps();
    let mut state = RenderState::fresh();
    let mut cmds = Vec::new();
    let blend = Blend {
        color: BlendingFunction::AlwaysReplace,
        alpha: BlendingFunction::AlwaysReplace,
        constant_value: BlendConstant { r: FIXED_ONE, g: FIXED_ONE, b: FIXED_ONE, a: FIXED_ONE },
    };
    let r = sync_blending(&mut state.blend, &mut cmds, &caps, &blend);
    assert_eq!(r, Ok(()));
    assert_eq!(cmds, vec![Command::Disable { cap: GL_BLEND }]);
    for c in &cmds {
        assert!(!matches!(c, Command::BlendEquationSeparate { .. }));
        assert!(!matches!(c, Command::BlendFuncSeparate { .. }));
        assert!(!matches!(c, Command::BlendColor { .. }));
    }
}

#[test]
fn resync_of_identical_parameters_is_silent() {
    let caps = desktop_caps();
    let mut state = RenderState::fresh();
    let mut queries = QueryLifecycleManager::new();
    let p = DrawParameters::default();
    let mut cmds = Vec::new();
    synchronize(&mut state, &mut queries, &mut cmds, &caps, &p, None,
        PrimitiveType::TrianglesList, 640, 480).unwrap();
    let first_len = cmds.len();
    assert!(first_len > 0);
    synchronize(&mut state, &mut queries, &mut cmds, &caps, &p, None,
        PrimitiveType::TrianglesList, 640, 480).unwrap();
    assert_eq!(cmds.len(), first_len);
}

#[test]
fn changing_one_dimension_touches_only_that_dimension() {
    let caps = desktop_caps();
    let mut state = RenderState::fresh();
    let mut queries = QueryLifecycleManager::new();
    sync_defaults(&mut state, &mut queries);
    let mut p = DrawParameters::default();
    p.line_width = Some(2 * FIXED_ONE);
    let mut cmds = Vec::new();
    synchronize(&mut state, &mut queries, &mut cmds, &caps, &p, None,
        PrimitiveType::TrianglesList, 640, 480).unwrap();
    assert_eq!(cmds, vec![Command::LineWidth { width: 2 * FIXED_ONE }]);
}

#[test]
fn default_stencil_synchronizes_to_disabled() {
    let mut state = RenderState::fresh();
    let mut queries = QueryLifecycleManager::new();
    sync_defaults(&mut state, &mut queries);
    assert!(!state.stencil.test_enabled);
}

#[test]
fn one_operation_away_from_keep_enables_stencil() {
    let mut state = RenderState::fresh();
    let mut queries = QueryLifecycleManager::new();
    sync_defaults(&mut state, &mut queries);
    let mut p = DrawParameters::default();
    p.stencil_depth_pass_operation_counter_clockwise = StencilOperation::Replace;
    let mut cmds = Vec::new();
    sync_stencil(&mut state.stencil, &mut cmds, &p);
    assert!(state.stencil.test_enabled);
    assert!(cmds.contains(&Command::Enable { cap: GL_STENCIL_TEST }));
}

#[test]
fn each_winding_keeps_its_own_write_mask() {
    let mut state = RenderState::fresh();
    let mut queries = QueryLifecycleManager::new();
    sync_defaults(&mut state, &mut queries);
    let mut p = DrawParameters::default();
    p.stencil_write_mask_clockwise = 0x0f;
    p.stencil_write_mask_counter_clockwise = 0xf0;
    let mut cmds = Vec::new();
    sync_stencil(&mut state.stencil, &mut cmds, &p);
    assert_eq!(state.stencil.mask_back, 0x0f);
    assert_eq!(state.stencil.mask_front, 0xf0);
    assert!(cmds.contains(&Command::StencilMaskSeparate { face: 0x0405, mask: 0x0f }));
    assert!(cmds.contains(&Command::StencilMaskSeparate { face: 0x0404, mask: 0xf0 }));
}

#[test]
fn split_depth_clamp_needs_the_vendor_extension() {
    let caps = desktop_caps();
    let mut state = RenderState::fresh();
    let mut cmds = Vec::new();
    let r = sync_depth(&mut state.depth, &mut cmds, &caps, DepthTest::Overwrite, false,
        DepthRange { near: 0, far: FIXED_ONE }, DepthClamp::ClampNear);
    assert_eq!(r, Err(DrawError::DepthClampNotSupported));
}

#[test]
fn combined_depth_clamp_is_never_split_silently() {
    let mut caps = desktop_caps();
    caps.extensions.gl_amd_depth_clamp_separate = true;
    caps.version = Version { api: Api::GlEs, major: 2, minor: 0 };
    let mut state = RenderState::fresh();
    let mut cmds = Vec::new();
    let r = sync_depth(&mut state.depth, &mut cmds, &caps, DepthTest::Overwrite, false,
        DepthRange { near: 0, far: FIXED_ONE }, DepthClamp::Clamp);
    assert_eq!(r, Err(DrawError::DepthClampNotSupported));
}

#[test]
fn min_blend_equation_needs_support() {
    let caps = embedded_caps();
    let mut state = RenderState::fresh();
    let mut cmds = Vec::new();
    let blend = Blend {
        color: BlendingFunction::Min,
        alpha: BlendingFunction::AlwaysReplace,
        constant_value: BlendConstant { r: 0, g: 0, b: 0, a: 0 },
    };
    let r = sync_blending(&mut state.blend, &mut cmds, &caps, &blend);
    assert_eq!(r, Err(DrawError::BlendingParameterNotSupported));
    // The fresh mirror already shows blending on, so the enable step
    // before the failing equation check had nothing to emit; the mirror
    // still records blending as on.
    assert_eq!(cmds, vec![]);
    assert!(state.blend.enabled);
}

#[test]
fn min_blend_equation_passes_with_the_extension() {
    let mut caps = embedded_caps();
    caps.extensions.gl_ext_blend_minmax = true;
    let mut state = RenderState::fresh();
    let mut cmds = Vec::new();
    let blend = Blend {
        color: BlendingFunction::Min,
        alpha: BlendingFunction::Min,
        constant_value: BlendConstant { r: 0, g: 0, b: 0, a: 0 },
    };
    assert_eq!(sync_blending(&mut state.blend, &mut cmds, &caps, &blend), Ok(()));
    assert!(cmds.contains(&Command::BlendEquationSeparate { color: 0x8007, alpha: 0x8007 }));
}

#[test]
fn smoothing_points_is_rejected() {
    let caps = desktop_caps();
    let mut state = RenderState::fresh();
    let mut cmds = Vec::new();
    let r = sync_smooth(&mut state.smooth, &mut cmds, &caps, Some(Smooth::Nicest),
        PrimitiveType::Points);
    assert_eq!(r, Err(DrawError::SmoothingNotSupported));
}

#[test]
fn smoothing_is_desktop_only() {
    let caps = embedded_caps();
    let mut state = RenderState::fresh();
    let mut cmds = Vec::new();
    let r = sync_smooth(&mut state.smooth, &mut cmds, &caps, Some(Smooth::Fastest),
        PrimitiveType::LinesList);
    assert_eq!(r, Err(DrawError::SmoothingNotSupported));
}

#[test]
fn line_smoothing_toggles_enable_and_hint() {
    let caps = desktop_caps();
    let mut state = RenderState::fresh();
    let mut cmds = Vec::new();
    sync_smooth(&mut state.smooth, &mut cmds, &caps, Some(Smooth::Nicest),
        PrimitiveType::LineStrip).unwrap();
    assert_eq!(
        cmds,
        vec![
            Command::Enable { cap: GL_LINE_SMOOTH },
            Command::Hint { target: 0x0C52, mode: 0x1102 },
        ]
    );
    // Disabling afterwards only toggles, with no hint write.
    let mut more = Vec::new();
    sync_smooth(&mut state.smooth, &mut more, &caps, None, PrimitiveType::LineStrip).unwrap();
    assert_eq!(more, vec![Command::Disable { cap: GL_LINE_SMOOTH }]);
}

#[test]
fn provoking_vertex_prefers_the_core_path() {
    let caps = desktop_caps();
    let mut state = RenderState::fresh();
    let mut cmds = Vec::new();
    sync_provoking_vertex(&mut state.provoking_vertex, &mut cmds, &caps,
        ProvokingVertex::FirstVertex).unwrap();
    assert_eq!(
        cmds,
        vec![Command::ProvokingVertex { path: EntryPath::Core, convention: 0x8E4D }]
    );
}

#[test]
fn provoking_vertex_falls_back_to_the_extension_path() {
    let mut caps = embedded_caps();
    caps.extensions.gl_ext_provoking_vertex = true;
    let mut state = RenderState::fresh();
    let mut first = Vec::new();
    sync_provoking_vertex(&mut state.provoking_vertex, &mut first, &caps,
        ProvokingVertex::FirstVertex).unwrap();
    assert_eq!(
        first,
        vec![Command::ProvokingVertex { path: EntryPath::Ext, convention: 0x8E4D }]
    );
    // The same profile picks the identical path again.
    let mut second = Vec::new();
    sync_provoking_vertex(&mut state.provoking_vertex, &mut second, &caps,
        ProvokingVertex::LastVertex).unwrap();
    assert_eq!(
        second,
        vec![Command::ProvokingVertex { path: EntryPath::Ext, convention: 0x8E4E }]
    );
}

#[test]
fn provoking_vertex_without_any_path_fails() {
    let caps = embedded_caps();
    let mut state = RenderState::fresh();
    let mut cmds = Vec::new();
    let r = sync_provoking_vertex(&mut state.provoking_vertex, &mut cmds, &caps,
        ProvokingVertex::FirstVertex);
    assert_eq!(r, Err(DrawError::ProvokingVertexNotSupported));
}

#[test]
fn rasterizer_discard_sync_fails_without_any_path() {
    let caps = embedded_caps();
    let mut state = RenderState::fresh();
    let mut cmds = Vec::new();
    let r = sync_rasterizer_discard(&mut state.rasterizer_discard, &mut cmds, &caps, false);
    assert_eq!(r, Err(DrawError::RasterizerDiscardNotSupported));
}

#[test]
fn bounding_box_is_ignored_without_a_path() {
    let caps = desktop_caps();
    let mut state = RenderState::fresh();
    let mut queries = QueryLifecycleManager::new();
    sync_defaults(&mut state, &mut queries);
    let mut p = DrawParameters::default();
    p.primitive_bounding_box.x_end = 2 * FIXED_ONE;
    let mut cmds = Vec::new();
    synchronize(&mut state, &mut queries, &mut cmds, &caps, &p, None,
        PrimitiveType::TrianglesList, 640, 480).unwrap();
    assert_eq!(cmds, vec![]);
}

#[test]
fn bounding_box_uses_the_profile_path() {
    let mut caps = desktop_caps();
    caps.extensions.gl_arb_es3_2_compatibility = true;
    let mut state = RenderState::fresh();
    let mut queries = QueryLifecycleManager::new();
    let p = DrawParameters::default();
    let mut cmds = Vec::new();
    synchronize(&mut state, &mut queries, &mut cmds, &caps, &p, None,
        PrimitiveType::TrianglesList, 640, 480).unwrap();
    let mut p2 = DrawParameters::default();
    p2.primitive_bounding_box.x_end = 2 * FIXED_ONE;
    let mut more = Vec::new();
    synchronize(&mut state, &mut queries, &mut more, &caps, &p2, None,
        PrimitiveType::TrianglesList, 640, 480).unwrap();
    assert_eq!(more.len(), 1);
    assert!(matches!(
        more[0],
        Command::PrimitiveBoundingBox { path: glsync::commands::BoundingBoxPath::Arb, .. }
    ));
}

#[test]
fn scissor_toggles_its_own_enable() {
    let caps = desktop_caps();
    let mut state = RenderState::fresh();
    let mut queries = QueryLifecycleManager::new();
    sync_defaults(&mut state, &mut queries);
    let mut p = DrawParameters::default();
    p.scissor = Some(glsync::Rect { left: 10, bottom: 20, width: 100, height: 200 });
    let mut cmds = Vec::new();
    synchronize(&mut state, &mut queries, &mut cmds, &caps, &p, None,
        PrimitiveType::TrianglesList, 640, 480).unwrap();
    assert_eq!(
        cmds,
        vec![
            Command::Scissor { x: 10, y: 20, width: 100, height: 200 },
            Command::Enable { cap: 0x0C11 },
        ]
    );
    // Dropping the scissor only disables the test.
    let p2 = DrawParameters::default();
    let mut more = Vec::new();
    synchronize(&mut state, &mut queries, &mut more, &caps, &p2, None,
        PrimitiveType::TrianglesList, 640, 480).unwrap();
    assert_eq!(more, vec![Command::Disable { cap: 0x0C11 }]);
}

#[test]
fn patch_vertices_sync_only_on_change() {
    let caps = desktop_caps();
    let mut state = RenderState::fresh();
    let mut queries = QueryLifecycleManager::new();
    sync_defaults(&mut state, &mut queries);
    let p = DrawParameters::default();
    let mut cmds = Vec::new();
    synchronize(&mut state, &mut queries, &mut cmds, &caps, &p, Some(4),
        PrimitiveType::TrianglesList, 640, 480).unwrap();
    assert_eq!(cmds, vec![Command::PatchParameter { pname: 0x8E72, value: 4 }]);
    let mut more = Vec::new();
    synchronize(&mut state, &mut queries, &mut more, &caps, &p, Some(4),
        PrimitiveType::TrianglesList, 640, 480).unwrap();
    assert_eq!(more, vec![]);
}
