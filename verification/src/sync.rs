//! The state synchronizer: diffs one requested configuration against the
//! mirror across every dimension, in fixed order, emitting only the
//! commands for what changed.
//!
//! Dimensions are independently idempotent, so a failure part way
//! through leaves a valid intermediate mirror: the dimensions already
//! synchronized stay synchronized, and a retry converges.

use vstd::prelude::*;
use crate::blend::{blend_sync, sync_blending};
use crate::caps::Capabilities;
use crate::commands::Command;
use crate::depth::{depth_sync, sync_depth};
use crate::hints::{
    bounding_box_sync, provoking_vertex_sync, smooth_sync, sync_primitive_bounding_box,
    sync_provoking_vertex, sync_smooth,
};
use crate::index::{primitive_type_glenum, PrimitiveType};
use crate::params::DrawParameters;
use crate::queries::{
    conditional_render_sync, queries_sync, sync_conditional_render, sync_queries, QueryLifecycle,
    QueryLifecycleManager,
};
use crate::raster::{
    color_mask_sync, dither_sync, line_width_sync, multisample_sync, patch_vertices_sync,
    point_size_sync, polygon_sync, rasterizer_discard_sync, sync_color_mask, sync_dithering,
    sync_line_width, sync_multisampling, sync_point_size, sync_polygon_mode,
    sync_rasterizer_discard, sync_vertices_per_patch,
};
use crate::state::{emit, RenderState, SyncOutcome, TransformFeedbackBinding};
use crate::stencil::{stencil_sync, sync_stencil};
use crate::viewport::{sync_viewport_scissor, viewport_request_wf, viewport_scissor_sync};
use crate::DrawError;

verus! {

/// The transform-feedback step: on change, end the current session's
/// recording and begin the requested one with the draw's topology.
pub open spec fn transform_feedback_sync(
    s: Option<TransformFeedbackBinding>,
    requested: Option<u32>,
    primitives: PrimitiveType,
) -> SyncOutcome<Option<TransformFeedbackBinding>> {
    match requested {
        Some(session) => {
            let b = TransformFeedbackBinding {
                session,
                primitives: primitive_type_glenum(primitives),
            };
            if s == Some(b) {
                SyncOutcome::silent(s)
            } else {
                let ended: Seq<Command> = match s {
                    Some(_) => seq![Command::EndTransformFeedback],
                    None => Seq::empty(),
                };
                SyncOutcome::ok(
                    Some(b),
                    ended + seq![
                        Command::BeginTransformFeedback { session, primitives: b.primitives },
                    ],
                )
            }
        },
        None => match s {
            Some(_) => SyncOutcome::ok(None, seq![Command::EndTransformFeedback]),
            None => SyncOutcome::silent(s),
        },
    }
}

/// The transform-feedback step, on the live mirror.
pub fn sync_transform_feedback(
    state: &mut Option<TransformFeedbackBinding>,
    cmds: &mut Vec<Command>,
    requested: Option<u32>,
    primitives: PrimitiveType,
)
    ensures
        ({
            let o = transform_feedback_sync(*old(state), requested, primitives);
            &&& *final(state) == o.state
            &&& final(cmds)@ == old(cmds)@ + o.cmds
            &&& o.err is None
        }),
{
    let ghost o = transform_feedback_sync(*state, requested, primitives);
    match requested {
        Some(session) => {
            let b = TransformFeedbackBinding { session, primitives: primitives.to_glenum() };
            let same = match *state {
                Some(cur) => cur == b,
                None => false,
            };
            if !same {
                if state.is_some() {
                    emit(cmds, Command::EndTransformFeedback);
                }
                emit(cmds, Command::BeginTransformFeedback {
                    session,
                    primitives: b.primitives,
                });
                *state = Some(b);
            }
        },
        None => {
            if state.is_some() {
                emit(cmds, Command::EndTransformFeedback);
                *state = None;
            }
        },
    }
    proof {
        assert(cmds@ =~= old(cmds)@ + o.cmds);
    }
}

/// Depth, stencil and blending, lifted to the whole mirror.
pub open spec fn sync_group_depth_stencil_blend(
    s: RenderState,
    caps: Capabilities,
    p: DrawParameters,
) -> SyncOutcome<RenderState> {
    let o1 = depth_sync(s.depth, caps, p.depth_test, p.depth_write, p.depth_range, p.depth_clamp);
    let s1 = RenderState { depth: o1.state, ..s };
    let a1 = SyncOutcome { state: s1, cmds: o1.cmds, err: o1.err };
    let o2 = stencil_sync(s1.stencil, p);
    let s2 = RenderState { stencil: o2.state, ..s1 };
    let a2 = a1.and_then(SyncOutcome { state: s2, cmds: o2.cmds, err: o2.err });
    let o3 = blend_sync(s2.blend, caps, p.blend);
    let s3 = RenderState { blend: o3.state, ..s2 };
    a2.and_then(SyncOutcome { state: s3, cmds: o3.cmds, err: o3.err })
}

/// Depth, stencil and blending, on the live mirror.
#[verifier::rlimit(100)]
fn sync_depth_stencil_blend(
    state: &mut RenderState,
    cmds: &mut Vec<Command>,
    caps: &Capabilities,
    p: &DrawParameters,
) -> (r: Result<(), DrawError>)
    ensures
        ({
            let o = sync_group_depth_stencil_blend(*old(state), *caps, *p);
            &&& *final(state) == o.state
            &&& final(cmds)@ == old(cmds)@ + o.cmds
            &&& (r is Ok <==> o.err is None)
            &&& (r matches Err(e) ==> o.err == Some(e))
        }),
{
    let ghost o = sync_group_depth_stencil_blend(*state, *caps, *p);
    let r1 = sync_depth(&mut state.depth, cmds, caps, p.depth_test, p.depth_write, p.depth_range,
        p.depth_clamp);
    if let Err(e) = r1 {
        proof {
            assert(cmds@ =~= old(cmds)@ + o.cmds);
        }
        return Err(e);
    }
    sync_stencil(&mut state.stencil, cmds, p);
    let r3 = sync_blending(&mut state.blend, cmds, caps, &p.blend);
    if let Err(e) = r3 {
        proof {
            assert(cmds@ =~= old(cmds)@ + o.cmds);
        }
        return Err(e);
    }
    proof {
        assert(cmds@ =~= old(cmds)@ + o.cmds);
    }
    Ok(())
}

/// Color mask, line width and point size, lifted to the whole mirror.
/// None of the three can fail.
pub open spec fn sync_group_masks_sizes(s: RenderState, p: DrawParameters)
    -> SyncOutcome<RenderState> {
    let o1 = color_mask_sync(s.color_mask, p.color_mask);
    let s1 = RenderState { color_mask: o1.state, ..s };
    let o2 = line_width_sync(s1.line_width, p.line_width);
    let s2 = RenderState { line_width: o2.state, ..s1 };
    let o3 = point_size_sync(s2.point_size, p.point_size);
    let s3 = RenderState { point_size: o3.state, ..s2 };
    SyncOutcome { state: s3, cmds: o1.cmds + o2.cmds + o3.cmds, err: None }
}

/// Color mask, line width and point size, on the live mirror.
#[verifier::rlimit(100)]
fn sync_masks_sizes(state: &mut RenderState, cmds: &mut Vec<Command>, p: &DrawParameters)
    ensures
        ({
            let o = sync_group_masks_sizes(*old(state), *p);
            &&& *final(state) == o.state
            &&& final(cmds)@ == old(cmds)@ + o.cmds
            &&& o.err is None
        }),
{
    let ghost o = sync_group_masks_sizes(*state, *p);
    sync_color_mask(&mut state.color_mask, cmds, p.color_mask);
    sync_line_width(&mut state.line_width, cmds, p.line_width);
    sync_point_size(&mut state.point_size, cmds, p.point_size);
    proof {
        assert(cmds@ =~= old(cmds)@ + o.cmds);
    }
}

/// Culling and polygon mode, multisampling and dithering, lifted to the
/// whole mirror. None of the three can fail.
pub open spec fn sync_group_raster_toggles(s: RenderState, p: DrawParameters)
    -> SyncOutcome<RenderState> {
    let o1 = polygon_sync(s.polygon, p.backface_culling, p.polygon_mode);
    let s1 = RenderState { polygon: o1.state, ..s };
    let o2 = multisample_sync(s1.multisample, p.multisampling);
    let s2 = RenderState { multisample: o2.state, ..s1 };
    let o3 = dither_sync(s2.dither, p.dithering);
    let s3 = RenderState { dither: o3.state, ..s2 };
    SyncOutcome { state: s3, cmds: o1.cmds + o2.cmds + o3.cmds, err: None }
}

/// Culling and polygon mode, multisampling and dithering, on the live
/// mirror.
#[verifier::rlimit(100)]
fn sync_raster_toggles(state: &mut RenderState, cmds: &mut Vec<Command>, p: &DrawParameters)
    ensures
        ({
            let o = sync_group_raster_toggles(*old(state), *p);
            &&& *final(state) == o.state
            &&& final(cmds)@ == old(cmds)@ + o.cmds
            &&& o.err is None
        }),
{
    let ghost o = sync_group_raster_toggles(*state, *p);
    sync_polygon_mode(&mut state.polygon, cmds, p.backface_culling, p.polygon_mode);
    sync_multisampling(&mut state.multisample, cmds, p.multisampling);
    sync_dithering(&mut state.dither, cmds, p.dithering);
    proof {
        assert(cmds@ =~= old(cmds)@ + o.cmds);
    }
}

/// Viewport and scissor, rasterizer discard and patch vertices, lifted
/// to the whole mirror.
pub open spec fn sync_group_viewport_discard_patch(
    s: RenderState,
    caps: Capabilities,
    p: DrawParameters,
    vertices_per_patch: Option<u16>,
    surface_width: u32,
    surface_height: u32,
) -> SyncOutcome<RenderState> {
    let o1 = viewport_scissor_sync(s.viewport_scissor, p.viewport, p.scissor, surface_width,
        surface_height);
    let s1 = RenderState { viewport_scissor: o1.state, ..s };
    let a1 = SyncOutcome { state: s1, cmds: o1.cmds, err: o1.err };
    let o2 = rasterizer_discard_sync(s1.rasterizer_discard, caps, p.draw_primitives);
    let s2 = RenderState { rasterizer_discard: o2.state, ..s1 };
    let a2 = a1.and_then(SyncOutcome { state: s2, cmds: o2.cmds, err: o2.err });
    let o3 = patch_vertices_sync(s2.patch_vertices, vertices_per_patch);
    let s3 = RenderState { patch_vertices: o3.state, ..s2 };
    a2.and_then(SyncOutcome { state: s3, cmds: o3.cmds, err: o3.err })
}

/// Viewport and scissor, rasterizer discard and patch vertices, on the
/// live mirror.
#[verifier::rlimit(100)]
fn sync_viewport_discard_patch(
    state: &mut RenderState,
    cmds: &mut Vec<Command>,
    caps: &Capabilities,
    p: &DrawParameters,
    vertices_per_patch: Option<u16>,
    surface_width: u32,
    surface_height: u32,
) -> (r: Result<(), DrawError>)
    requires
        viewport_request_wf(*caps, p.viewport, p.scissor, surface_width, surface_height),
    ensures
        ({
            let o = sync_group_viewport_discard_patch(*old(state), *caps, *p, vertices_per_patch,
                surface_width, surface_height);
            &&& *final(state) == o.state
            &&& final(cmds)@ == old(cmds)@ + o.cmds
            &&& (r is Ok <==> o.err is None)
            &&& (r matches Err(e) ==> o.err == Some(e))
        }),
{
    let ghost o = sync_group_viewport_discard_patch(*state, *caps, *p, vertices_per_patch,
        surface_width, surface_height);
    sync_viewport_scissor(&mut state.viewport_scissor, cmds, caps, p.viewport, p.scissor,
        surface_width, surface_height);
    let r2 = sync_rasterizer_discard(&mut state.rasterizer_discard, cmds, caps, p.draw_primitives);
    if let Err(e) = r2 {
        proof {
            assert(cmds@ =~= old(cmds)@ + o.cmds);
        }
        return Err(e);
    }
    sync_vertices_per_patch(&mut state.patch_vertices, cmds, vertices_per_patch);
    proof {
        assert(cmds@ =~= old(cmds)@ + o.cmds);
    }
    Ok(())
}

/// What synchronizing the whole parameter set does: the mirror and the
/// query status table it leaves behind, the commands it emits, and the
/// first violated rule, if any.
pub ghost struct ParamsSyncOutcome {
    /// The mirror after synchronization.
    pub state: RenderState,
    /// The query status table after synchronization.
    pub statuses: Map<u64, QueryLifecycle>,
    /// The emitted commands, in order.
    pub cmds: Seq<Command>,
    /// The first violated rule, or `None`.
    pub err: Option<DrawError>,
}

impl ParamsSyncOutcome {
    /// This step followed by `next`: commands concatenate, and a
    /// failure of the first step cuts the second one off.
    pub open spec fn and_then(self, next: ParamsSyncOutcome) -> ParamsSyncOutcome {
        if self.err is Some {
            self
        } else {
            ParamsSyncOutcome {
                state: next.state,
                statuses: next.statuses,
                cmds: self.cmds + next.cmds,
                err: next.err,
            }
        }
    }
}

/// The query categories and the conditional-render block, lifted to the
/// whole mirror and status table.
pub open spec fn sync_group_queries(
    s: RenderState,
    statuses: Map<u64, QueryLifecycle>,
    p: DrawParameters,
) -> ParamsSyncOutcome {
    let o1 = queries_sync(s.queries, statuses, p.samples_passed_query, p.time_elapsed_query,
        p.primitives_generated_query, p.transform_feedback_primitives_written_query);
    let s1 = RenderState { queries: o1.bindings, ..s };
    let a1 = ParamsSyncOutcome { state: s1, statuses: o1.statuses, cmds: o1.cmds, err: o1.err };
    let o2 = conditional_render_sync(s1.conditional_render, p.condition);
    let s2 = RenderState { conditional_render: o2.state, ..s1 };
    a1.and_then(ParamsSyncOutcome {
        state: s2,
        statuses: o1.statuses,
        cmds: o2.cmds,
        err: o2.err,
    })
}

/// The query categories and the conditional-render block, on the live
/// mirror and status table.
#[verifier::rlimit(100)]
fn sync_queries_conditional(
    state: &mut RenderState,
    queries: &mut QueryLifecycleManager,
    cmds: &mut Vec<Command>,
    p: &DrawParameters,
) -> (r: Result<(), DrawError>)
    ensures
        ({
            let o = sync_group_queries(*old(state), old(queries).map(), *p);
            &&& *final(state) == o.state
            &&& final(queries).map() == o.statuses
            &&& final(cmds)@ == old(cmds)@ + o.cmds
            &&& (r is Ok <==> o.err is None)
            &&& (r matches Err(e) ==> o.err == Some(e))
        }),
{
    let ghost o = sync_group_queries(*state, queries.map(), *p);
    let r1 = sync_queries(&mut state.queries, queries, cmds, p.samples_passed_query,
        p.time_elapsed_query, p.primitives_generated_query,
        p.transform_feedback_primitives_written_query);
    if let Err(e) = r1 {
        proof {
            assert(cmds@ =~= old(cmds)@ + o.cmds);
        }
        return Err(e);
    }
    sync_conditional_render(&mut state.conditional_render, cmds, p.condition);
    proof {
        assert(cmds@ =~= old(cmds)@ + o.cmds);
    }
    Ok(())
}

/// Smoothing, the provoking vertex, the bounding box and transform
/// feedback, lifted to the whole mirror.
pub open spec fn sync_group_hints(
    s: RenderState,
    caps: Capabilities,
    p: DrawParameters,
    primitives: PrimitiveType,
) -> SyncOutcome<RenderState> {
    let o1 = smooth_sync(s.smooth, caps, p.smooth, primitives);
    let s1 = RenderState { smooth: o1.state, ..s };
    let a1 = SyncOutcome { state: s1, cmds: o1.cmds, err: o1.err };
    let o2 = provoking_vertex_sync(s1.provoking_vertex, caps, p.provoking_vertex);
    let s2 = RenderState { provoking_vertex: o2.state, ..s1 };
    let a2 = a1.and_then(SyncOutcome { state: s2, cmds: o2.cmds, err: o2.err });
    let o3 = bounding_box_sync(s2.bounding_box, caps, p.primitive_bounding_box);
    let s3 = RenderState { bounding_box: o3.state, ..s2 };
    let a3 = a2.and_then(SyncOutcome { state: s3, cmds: o3.cmds, err: o3.err });
    let o4 = transform_feedback_sync(s3.transform_feedback, p.transform_feedback, primitives);
    let s4 = RenderState { transform_feedback: o4.state, ..s3 };
    a3.and_then(SyncOutcome { state: s4, cmds: o4.cmds, err: o4.err })
}

/// Smoothing, the provoking vertex, the bounding box and transform
/// feedback, on the live mirror.
#[verifier::rlimit(100)]
fn sync_hints(
    state: &mut RenderState,
    cmds: &mut Vec<Command>,
    caps: &Capabilities,
    p: &DrawParameters,
    primitives: PrimitiveType,
) -> (r: Result<(), DrawError>)
    ensures
        ({
            let o = sync_group_hints(*old(state), *caps, *p, primitives);
            &&& *final(state) == o.state
            &&& final(cmds)@ == old(cmds)@ + o.cmds
            &&& (r is Ok <==> o.err is None)
            &&& (r matches Err(e) ==> o.err == Some(e))
        }),
{
    let ghost o = sync_group_hints(*state, *caps, *p, primitives);
    let r1 = sync_smooth(&mut state.smooth, cmds, caps, p.smooth, primitives);
    if let Err(e) = r1 {
        proof {
            assert(cmds@ =~= old(cmds)@ + o.cmds);
        }
        return Err(e);
    }
    let r2 = sync_provoking_vertex(&mut state.provoking_vertex, cmds, caps, p.provoking_vertex);
    if let Err(e) = r2 {
        proof {
            assert(cmds@ =~= old(cmds)@ + o.cmds);
        }
        return Err(e);
    }
    sync_primitive_bounding_box(&mut state.bounding_box, cmds, caps, &p.primitive_bounding_box);
    sync_transform_feedback(&mut state.transform_feedback, cmds, p.transform_feedback, primitives);
    proof {
        assert(cmds@ =~= old(cmds)@ + o.cmds);
    }
    Ok(())
}

/// Lifts a fallible group outcome that leaves the status table alone.
pub open spec fn lift_group(o: SyncOutcome<RenderState>, statuses: Map<u64, QueryLifecycle>)
    -> ParamsSyncOutcome {
    ParamsSyncOutcome { state: o.state, statuses, cmds: o.cmds, err: o.err }
}

/// The whole synchronizer: every dimension, in fixed order. Opaque:
/// callers reason through [`synchronize`]'s contract and the lemmas of
/// [`crate::laws`], which reveal the definition where they need it.
#[verifier::opaque]
pub open spec fn params_sync(
    s: RenderState,
    statuses: Map<u64, QueryLifecycle>,
    caps: Capabilities,
    p: DrawParameters,
    vertices_per_patch: Option<u16>,
    primitives: PrimitiveType,
    surface_width: u32,
    surface_height: u32,
) -> ParamsSyncOutcome {
    let g1 = lift_group(sync_group_depth_stencil_blend(s, caps, p), statuses);
    let g2 = g1.and_then(lift_group(sync_group_masks_sizes(g1.state, p), statuses));
    let g3 = g2.and_then(lift_group(sync_group_raster_toggles(g2.state, p), statuses));
    let g4 = g3.and_then(lift_group(
        sync_group_viewport_discard_patch(g3.state, caps, p, vertices_per_patch, surface_width,
            surface_height),
        statuses,
    ));
    let g5 = g4.and_then(sync_group_queries(g4.state, statuses, p));
    g5.and_then(lift_group(sync_group_hints(g5.state, caps, p, primitives), g5.statuses))
}

/// Synchronizes every state dimension of the mirror against the
/// requested parameters, appending the emitted commands to `cmds`.
/// A command is emitted exactly where the requested value differs from
/// the mirrored one; on failure, the dimensions already synchronized
/// keep their new values, a valid intermediate state.
#[verifier::rlimit(100)]
pub fn synchronize(
    state: &mut RenderState,
    queries: &mut QueryLifecycleManager,
    cmds: &mut Vec<Command>,
    caps: &Capabilities,
    p: &DrawParameters,
    vertices_per_patch: Option<u16>,
    primitives: PrimitiveType,
    surface_width: u32,
    surface_height: u32,
) -> (r: Result<(), DrawError>)
    requires
        viewport_request_wf(*caps, p.viewport, p.scissor, surface_width, surface_height),
    ensures
        ({
            let o = params_sync(*old(state), old(queries).map(), *caps, *p, vertices_per_patch,
                primitives, surface_width, surface_height);
            &&& *final(state) == o.state
            &&& final(queries).map() == o.statuses
            &&& final(cmds)@ == old(cmds)@ + o.cmds
            &&& (r is Ok <==> o.err is None)
            &&& (r matches Err(e) ==> o.err == Some(e))
        }),
{
    proof {
        reveal(params_sync);
    }
    let ghost s0 = *state;
    let ghost q0 = queries.map();
    let ghost c0 = cmds@;
    let ghost o = params_sync(s0, q0, *caps, *p, vertices_per_patch, primitives, surface_width,
        surface_height);

    let ghost g1 = sync_group_depth_stencil_blend(s0, *caps, *p);
    let r1 = sync_depth_stencil_blend(state, cmds, caps, p);
    if let Err(e) = r1 {
        proof {
            assert(cmds@ =~= c0 + o.cmds);
        }
        return Err(e);
    }
    proof {
        assert(*state == g1.state);
        assert(cmds@ =~= c0 + g1.cmds);
    }

    let ghost g2 = sync_group_masks_sizes(g1.state, *p);
    sync_masks_sizes(state, cmds, p);
    proof {
        assert(*state == g2.state);
        assert(cmds@ =~= c0 + g1.cmds + g2.cmds);
    }

    let ghost g3 = sync_group_raster_toggles(g2.state, *p);
    sync_raster_toggles(state, cmds, p);
    proof {
        assert(*state == g3.state);
        assert(cmds@ =~= c0 + g1.cmds + g2.cmds + g3.cmds);
    }

    let ghost g4 = sync_group_viewport_discard_patch(g3.state, *caps, *p, vertices_per_patch,
        surface_width, surface_height);
    let r4 = sync_viewport_discard_patch(state, cmds, caps, p, vertices_per_patch, surface_width,
        surface_height);
    if let Err(e) = r4 {
        proof {
            assert(cmds@ =~= c0 + (g1.cmds + g2.cmds + g3.cmds + g4.cmds));
            assert(cmds@ =~= c0 + o.cmds);
        }
        return Err(e);
    }
    proof {
        assert(*state == g4.state);
        assert(cmds@ =~= c0 + g1.cmds + g2.cmds + g3.cmds + g4.cmds);
    }

    let ghost g5 = sync_group_queries(g4.state, q0, *p);
    let r5 = sync_queries_conditional(state, queries, cmds, p);
    if let Err(e) = r5 {
        proof {
            assert(cmds@ =~= c0 + (g1.cmds + g2.cmds + g3.cmds + g4.cmds + g5.cmds));
            assert(cmds@ =~= c0 + o.cmds);
        }
        return Err(e);
    }
    proof {
        assert(*state == g5.state);
        assert(queries.map() == g5.statuses);
        assert(cmds@ =~= c0 + g1.cmds + g2.cmds + g3.cmds + g4.cmds + g5.cmds);
    }

    let ghost g6 = sync_group_hints(g5.state, *caps, *p, primitives);
    let r6 = sync_hints(state, cmds, caps, p, primitives);
    if let Err(e) = r6 {
        proof {
            assert(cmds@ =~= c0 + (g1.cmds + g2.cmds + g3.cmds + g4.cmds + g5.cmds + g6.cmds));
            assert(cmds@ =~= c0 + o.cmds);
        }
        return Err(e);
    }
    proof {
        assert(*state == g6.state);
        assert(o.state == g6.state);
        assert(o.statuses == g5.statuses);
        assert(o.err is None);
        assert(o.cmds =~= g1.cmds + g2.cmds + g3.cmds + g4.cmds + g5.cmds + g6.cmds);
        assert(cmds@ =~= c0 + o.cmds);
    }
    Ok(())
}

} // verus!
