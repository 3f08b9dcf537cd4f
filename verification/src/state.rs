//! The shadow state: the engine's mirror of the device configuration it
//! last synchronized. One instance exists per device context; only the
//! synchronization steps mutate it, and every step emits a command exactly
//! when the requested value differs from the mirrored one.
//!
//! The mirror is grouped into one sub-structure per state dimension, so
//! that each synchronization step reads and writes exactly its own slice.

use vstd::prelude::*;
use crate::commands::Command;
use crate::glenum::{
    GL_ALWAYS, GL_BACK, GL_DONT_CARE, GL_FILL, GL_FUNC_ADD, GL_KEEP, GL_LAST_VERTEX_CONVENTION,
    GL_LESS, GL_ONE, GL_ZERO,
};
use crate::params::{
    BlendConstant, BoundingBox, ColorMask, ConditionalRendering, DepthRange, SamplesQueryParam,
};
use crate::{DrawError, Fixed, FIXED_ONE};

verus! {

/// The mirrored stencil comparison of one face.
#[derive(Clone, Copy, PartialEq, Eq, Structural, Debug)]
pub struct StencilFuncState {
    /// The comparison function, as a device enumerant.
    pub func: u32,
    /// The reference value.
    pub reference: i32,
    /// The read mask.
    pub mask: u32,
}

/// The mirrored stencil operations of one face, as device enumerants.
#[derive(Clone, Copy, PartialEq, Eq, Structural, Debug)]
pub struct StencilOpState {
    /// Operation on stencil-test failure.
    pub fail_op: u32,
    /// Operation on depth-test failure after a stencil pass.
    pub depth_fail_op: u32,
    /// Operation when both tests pass.
    pub depth_pass_op: u32,
}

/// A mirrored viewport or scissor box, in the device's own units.
#[derive(Clone, Copy, PartialEq, Eq, Structural, Debug)]
pub struct ViewportBox {
    pub x: i32,
    pub y: i32,
    pub width: i32,
    pub height: i32,
}

/// A mirrored transform-feedback binding: the session and the primitive
/// topology it was begun with.
#[derive(Clone, Copy, PartialEq, Eq, Structural, Debug)]
pub struct TransformFeedbackBinding {
    pub session: u32,
    pub primitives: u32,
}

/// The mirrored depth dimension.
#[derive(Clone, Copy, PartialEq, Eq, Structural, Debug)]
pub struct DepthState {
    /// Whether clamping of depth values below `0` is on.
    pub clamp_near: bool,
    /// Whether clamping of depth values above `1` is on.
    pub clamp_far: bool,
    /// The depth range.
    pub range: DepthRange,
    /// Whether the depth test is on.
    pub test_enabled: bool,
    /// The depth comparison function, as a device enumerant.
    pub func: u32,
    /// Whether depth values are written.
    pub mask: bool,
}

/// The mirrored stencil dimension.
#[derive(Clone, Copy, PartialEq, Eq, Structural, Debug)]
pub struct StencilState {
    /// Stencil comparison of back-facing fragments.
    pub func_back: StencilFuncState,
    /// Stencil comparison of front-facing fragments.
    pub func_front: StencilFuncState,
    /// Stencil write mask of back-facing fragments.
    pub mask_back: u32,
    /// Stencil write mask of front-facing fragments.
    pub mask_front: u32,
    /// Stencil operations of back-facing fragments.
    pub op_back: StencilOpState,
    /// Stencil operations of front-facing fragments.
    pub op_front: StencilOpState,
    /// Whether the stencil test is on.
    pub test_enabled: bool,
}

/// The mirrored blending dimension.
#[derive(Clone, Copy, PartialEq, Eq, Structural, Debug)]
pub struct BlendState {
    /// Whether blending is on.
    pub enabled: bool,
    /// The blend equation of the color channels, as a device enumerant.
    pub equation_color: u32,
    /// The blend equation of the alpha channel, as a device enumerant.
    pub equation_alpha: u32,
    /// The source factor of the color channels.
    pub src_color: u32,
    /// The destination factor of the color channels.
    pub dst_color: u32,
    /// The source factor of the alpha channel.
    pub src_alpha: u32,
    /// The destination factor of the alpha channel.
    pub dst_alpha: u32,
    /// The constant blend color.
    pub color: BlendConstant,
}

/// The mirrored culling and polygon-mode dimension.
#[derive(Clone, Copy, PartialEq, Eq, Structural, Debug)]
pub struct PolygonState {
    /// Whether face culling is on.
    pub cull_enabled: bool,
    /// Which faces are culled, as a device enumerant.
    pub cull_face: u32,
    /// The polygon rasterization mode, as a device enumerant.
    pub mode: u32,
}

/// The mirrored viewport and scissor dimension.
#[derive(Clone, Copy, PartialEq, Eq, Structural, Debug)]
pub struct ViewportScissorState {
    /// The viewport, once one has been set.
    pub viewport: Option<ViewportBox>,
    /// The scissor box, once one has been set.
    pub scissor: Option<ViewportBox>,
    /// Whether the scissor test is on.
    pub scissor_test_enabled: bool,
}

/// The mirrored query bindings, one per query category.
#[derive(Clone, Copy, PartialEq, Eq, Structural, Debug)]
pub struct QueryBindings {
    /// The bound samples query, if any.
    pub samples_passed: Option<SamplesQueryParam>,
    /// The bound time-elapsed query, if any.
    pub time_elapsed: Option<u64>,
    /// The bound primitives-generated query, if any.
    pub primitives_generated: Option<u64>,
    /// The bound transform-feedback-primitives-written query, if any.
    pub transform_feedback_primitives_written: Option<u64>,
}

/// The mirrored smoothing dimension.
#[derive(Clone, Copy, PartialEq, Eq, Structural, Debug)]
pub struct SmoothState {
    /// Whether line smoothing is on.
    pub line_enabled: bool,
    /// Whether polygon smoothing is on.
    pub polygon_enabled: bool,
    /// The line smoothing hint, as a device enumerant.
    pub line_hint: u32,
    /// The polygon smoothing hint, as a device enumerant.
    pub polygon_hint: u32,
}

/// The engine's mirror of the device configuration, one slice per state
/// dimension. A command is emitted iff the requested value differs from
/// the one recorded here, so this mirror must stay faithful: every
/// emitted command is recorded back into it.
#[derive(Clone, Copy, PartialEq, Eq, Structural, Debug)]
pub struct RenderState {
    /// The depth dimension.
    pub depth: DepthState,
    /// The stencil dimension.
    pub stencil: StencilState,
    /// The blending dimension.
    pub blend: BlendState,
    /// Which color channels are written.
    pub color_mask: ColorMask,
    /// The line width, fixed-point.
    pub line_width: Fixed,
    /// The point diameter, fixed-point.
    pub point_size: Fixed,
    /// The culling and polygon-mode dimension.
    pub polygon: PolygonState,
    /// Whether multisample antialiasing is on.
    pub multisample: bool,
    /// Whether dithering is on.
    pub dither: bool,
    /// The viewport and scissor dimension.
    pub viewport_scissor: ViewportScissorState,
    /// Whether rasterizer discard is on.
    pub rasterizer_discard: bool,
    /// The number of vertices per tessellation patch.
    pub patch_vertices: i32,
    /// The query bindings.
    pub queries: QueryBindings,
    /// The active conditional-render block, if any.
    pub conditional_render: Option<ConditionalRendering>,
    /// The smoothing dimension.
    pub smooth: SmoothState,
    /// The provoking-vertex convention, as a device enumerant.
    pub provoking_vertex: u32,
    /// The primitive bounding box.
    pub bounding_box: BoundingBox,
    /// The active transform-feedback session, if any.
    pub transform_feedback: Option<TransformFeedbackBinding>,
    /// The framebuffer bound for drawing.
    pub draw_framebuffer: u32,
    /// The current program.
    pub program: u32,
    /// The identifier the next successful draw will get. Increases by
    /// exactly one per submission; untouched by failed requests.
    pub next_draw_call_id: u64,
}

/// The mirror belonging to a device context no draw has used yet: every
/// value is the device's initial one, except the depth-test and blending
/// toggles, which a fresh mirror assumes on so that the first draw pins
/// them with an explicit toggle command.
pub open spec fn spec_fresh_state() -> RenderState {
    RenderState {
        depth: DepthState {
            clamp_near: false,
            clamp_far: false,
            range: DepthRange { near: 0, far: FIXED_ONE as Fixed },
            test_enabled: true,
            func: GL_LESS,
            mask: true,
        },
        stencil: StencilState {
            func_back: StencilFuncState { func: GL_ALWAYS, reference: 0, mask: 0 },
            func_front: StencilFuncState { func: GL_ALWAYS, reference: 0, mask: 0 },
            mask_back: 0xffffffff,
            mask_front: 0xffffffff,
            op_back: StencilOpState {
                fail_op: GL_KEEP,
                depth_fail_op: GL_KEEP,
                depth_pass_op: GL_KEEP,
            },
            op_front: StencilOpState {
                fail_op: GL_KEEP,
                depth_fail_op: GL_KEEP,
                depth_pass_op: GL_KEEP,
            },
            test_enabled: false,
        },
        blend: BlendState {
            enabled: true,
            equation_color: GL_FUNC_ADD,
            equation_alpha: GL_FUNC_ADD,
            src_color: GL_ONE,
            dst_color: GL_ZERO,
            src_alpha: GL_ONE,
            dst_alpha: GL_ZERO,
            color: BlendConstant { r: 0, g: 0, b: 0, a: 0 },
        },
        color_mask: ColorMask { r: true, g: true, b: true, a: true },
        line_width: FIXED_ONE as Fixed,
        point_size: FIXED_ONE as Fixed,
        polygon: PolygonState { cull_enabled: false, cull_face: GL_BACK, mode: GL_FILL },
        multisample: true,
        dither: true,
        viewport_scissor: ViewportScissorState {
            viewport: None,
            scissor: None,
            scissor_test_enabled: false,
        },
        rasterizer_discard: false,
        patch_vertices: 3,
        queries: QueryBindings {
            samples_passed: None,
            time_elapsed: None,
            primitives_generated: None,
            transform_feedback_primitives_written: None,
        },
        conditional_render: None,
        smooth: SmoothState {
            line_enabled: false,
            polygon_enabled: false,
            line_hint: GL_DONT_CARE,
            polygon_hint: GL_DONT_CARE,
        },
        provoking_vertex: GL_LAST_VERTEX_CONVENTION,
        bounding_box: BoundingBox {
            x_start: ((-FIXED_ONE) as Fixed),
            x_end: FIXED_ONE as Fixed,
            y_start: ((-FIXED_ONE) as Fixed),
            y_end: FIXED_ONE as Fixed,
            z_start: ((-FIXED_ONE) as Fixed),
            z_end: FIXED_ONE as Fixed,
            w_start: ((-FIXED_ONE) as Fixed),
            w_end: FIXED_ONE as Fixed,
        },
        transform_feedback: None,
        draw_framebuffer: 0,
        program: 0,
        next_draw_call_id: 0,
    }
}

impl RenderState {
    /// The mirror for a device context no draw has used yet.
    pub fn fresh() -> (r: RenderState)
        ensures
            r == spec_fresh_state(),
    {
        RenderState {
            depth: DepthState {
                clamp_near: false,
                clamp_far: false,
                range: DepthRange { near: 0, far: FIXED_ONE },
                test_enabled: true,
                func: GL_LESS,
                mask: true,
            },
            stencil: StencilState {
                func_back: StencilFuncState { func: GL_ALWAYS, reference: 0, mask: 0 },
                func_front: StencilFuncState { func: GL_ALWAYS, reference: 0, mask: 0 },
                mask_back: 0xffffffff,
                mask_front: 0xffffffff,
                op_back: StencilOpState {
                    fail_op: GL_KEEP,
                    depth_fail_op: GL_KEEP,
                    depth_pass_op: GL_KEEP,
                },
                op_front: StencilOpState {
                    fail_op: GL_KEEP,
                    depth_fail_op: GL_KEEP,
                    depth_pass_op: GL_KEEP,
                },
                test_enabled: false,
            },
            blend: BlendState {
                enabled: true,
                equation_color: GL_FUNC_ADD,
                equation_alpha: GL_FUNC_ADD,
                src_color: GL_ONE,
                dst_color: GL_ZERO,
                src_alpha: GL_ONE,
                dst_alpha: GL_ZERO,
                color: BlendConstant { r: 0, g: 0, b: 0, a: 0 },
            },
            color_mask: ColorMask { r: true, g: true, b: true, a: true },
            line_width: FIXED_ONE,
            point_size: FIXED_ONE,
            polygon: PolygonState { cull_enabled: false, cull_face: GL_BACK, mode: GL_FILL },
            multisample: true,
            dither: true,
            viewport_scissor: ViewportScissorState {
                viewport: None,
                scissor: None,
                scissor_test_enabled: false,
            },
            rasterizer_discard: false,
            patch_vertices: 3,
            queries: QueryBindings {
                samples_passed: None,
                time_elapsed: None,
                primitives_generated: None,
                transform_feedback_primitives_written: None,
            },
            conditional_render: None,
            smooth: SmoothState {
                line_enabled: false,
                polygon_enabled: false,
                line_hint: GL_DONT_CARE,
                polygon_hint: GL_DONT_CARE,
            },
            provoking_vertex: GL_LAST_VERTEX_CONVENTION,
            bounding_box: BoundingBox {
                x_start: -FIXED_ONE,
                x_end: FIXED_ONE,
                y_start: -FIXED_ONE,
                y_end: FIXED_ONE,
                z_start: -FIXED_ONE,
                z_end: FIXED_ONE,
                w_start: -FIXED_ONE,
                w_end: FIXED_ONE,
            },
            transform_feedback: None,
            draw_framebuffer: 0,
            program: 0,
            next_draw_call_id: 0,
        }
    }
}

/// What one synchronization step does, as a value: the slice of the
/// mirror it leaves behind, the commands it emits in order, and the rule
/// it violates, if any. A step that fails may still have emitted the
/// commands recorded here; the mirror stays faithful to them, so a retry
/// converges.
pub ghost struct SyncOutcome<S> {
    /// The mirror slice after the step.
    pub state: S,
    /// The commands the step emits, in order.
    pub cmds: Seq<Command>,
    /// The rule the step violates, or `None` on success.
    pub err: Option<DrawError>,
}

impl<S> SyncOutcome<S> {
    /// A successful step leaving slice `s` behind with commands `cmds`.
    pub open spec fn ok(s: S, cmds: Seq<Command>) -> SyncOutcome<S> {
        SyncOutcome { state: s, cmds, err: None }
    }

    /// A step that emits nothing and changes nothing.
    pub open spec fn silent(s: S) -> SyncOutcome<S> {
        SyncOutcome { state: s, cmds: Seq::empty(), err: None }
    }

    /// A failing step that leaves slice `s` and commands `cmds` behind.
    pub open spec fn fail(s: S, cmds: Seq<Command>, e: DrawError) -> SyncOutcome<S> {
        SyncOutcome { state: s, cmds, err: Some(e) }
    }

    /// This step followed by `next`: commands concatenate, and a failure
    /// of the first step cuts the second one off.
    pub open spec fn and_then(self, next: SyncOutcome<S>) -> SyncOutcome<S> {
        if self.err is Some {
            self
        } else {
            SyncOutcome { state: next.state, cmds: self.cmds + next.cmds, err: next.err }
        }
    }
}

/// Appends one command to the recording.
pub fn emit(cmds: &mut Vec<Command>, c: Command)
    ensures
        final(cmds)@ == old(cmds)@ + seq![c],
{
    cmds.push(c);
    proof {
        assert(cmds@ =~= old(cmds)@ + seq![c]);
    }
}

} // verus!
