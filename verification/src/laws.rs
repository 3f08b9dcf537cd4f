//! The engine's cross-cutting guarantees, stated and proved over the
//! specification functions of the synchronizer and the dispatcher.

use vstd::prelude::*;
use crate::blend::{blend_collapses, blend_sync};
use crate::caps::Capabilities;
use crate::commands::{Command, EntryPath};
use crate::depth::depth_sync;
use crate::glenum::GL_BLEND;
use crate::hints::{
    bounding_box_path, bounding_box_sync, provoking_vertex_core, provoking_vertex_sync,
};
use crate::index::PrimitiveType;
use crate::params::{
    DepthClamp, DepthRange, DepthTest, DrawParameters, ProvokingVertex, StencilOperation,
    StencilTest,
};
use crate::queries::QueryLifecycle;
use crate::state::{BlendState, DepthState, RenderState, StencilState};
use crate::stencil::{stencil_enable_needed, stencil_sync};
use crate::sync::{
    params_sync, sync_group_depth_stencil_blend, sync_group_hints, sync_group_masks_sizes,
    sync_group_queries, sync_group_raster_toggles, sync_group_viewport_discard_patch,
};

verus! {

// ---------------------------------------------------------------------
// Which parameters each dimension group reads: two parameter sets that
// agree on a group's slice are indistinguishable to that group.
// ---------------------------------------------------------------------

/// Whether two parameter sets agree on the depth dimension.
pub open spec fn depth_slice_eq(a: DrawParameters, b: DrawParameters) -> bool {
    &&& a.depth_test == b.depth_test
    &&& a.depth_write == b.depth_write
    &&& a.depth_range == b.depth_range
    &&& a.depth_clamp == b.depth_clamp
}

/// Whether two parameter sets agree on the stencil dimension.
pub open spec fn stencil_slice_eq(a: DrawParameters, b: DrawParameters) -> bool {
    &&& a.stencil_test_clockwise == b.stencil_test_clockwise
    &&& a.stencil_reference_value_clockwise == b.stencil_reference_value_clockwise
    &&& a.stencil_write_mask_clockwise == b.stencil_write_mask_clockwise
    &&& a.stencil_fail_operation_clockwise == b.stencil_fail_operation_clockwise
    &&& a.stencil_pass_depth_fail_operation_clockwise
        == b.stencil_pass_depth_fail_operation_clockwise
    &&& a.stencil_depth_pass_operation_clockwise == b.stencil_depth_pass_operation_clockwise
    &&& a.stencil_test_counter_clockwise == b.stencil_test_counter_clockwise
    &&& a.stencil_reference_value_counter_clockwise
        == b.stencil_reference_value_counter_clockwise
    &&& a.stencil_write_mask_counter_clockwise == b.stencil_write_mask_counter_clockwise
    &&& a.stencil_fail_operation_counter_clockwise == b.stencil_fail_operation_counter_clockwise
    &&& a.stencil_pass_depth_fail_operation_counter_clockwise
        == b.stencil_pass_depth_fail_operation_counter_clockwise
    &&& a.stencil_depth_pass_operation_counter_clockwise
        == b.stencil_depth_pass_operation_counter_clockwise
}

/// Whether two parameter sets agree on the blending dimension.
pub open spec fn blend_slice_eq(a: DrawParameters, b: DrawParameters) -> bool {
    a.blend == b.blend
}

/// Whether two parameter sets agree on color mask, line width and point
/// size.
pub open spec fn masks_sizes_slice_eq(a: DrawParameters, b: DrawParameters) -> bool {
    &&& a.color_mask == b.color_mask
    &&& a.line_width == b.line_width
    &&& a.point_size == b.point_size
}

/// Whether two parameter sets agree on culling, polygon mode,
/// multisampling and dithering.
pub open spec fn raster_toggles_slice_eq(a: DrawParameters, b: DrawParameters) -> bool {
    &&& a.backface_culling == b.backface_culling
    &&& a.polygon_mode == b.polygon_mode
    &&& a.multisampling == b.multisampling
    &&& a.dithering == b.dithering
}

/// Whether two parameter sets agree on viewport, scissor and rasterizer
/// discard.
pub open spec fn viewport_discard_slice_eq(a: DrawParameters, b: DrawParameters) -> bool {
    &&& a.viewport == b.viewport
    &&& a.scissor == b.scissor
    &&& a.draw_primitives == b.draw_primitives
}

/// Whether two parameter sets agree on every query binding and the
/// conditional-render descriptor.
pub open spec fn queries_slice_eq(a: DrawParameters, b: DrawParameters) -> bool {
    &&& a.samples_passed_query == b.samples_passed_query
    &&& a.time_elapsed_query == b.time_elapsed_query
    &&& a.primitives_generated_query == b.primitives_generated_query
    &&& a.transform_feedback_primitives_written_query
        == b.transform_feedback_primitives_written_query
    &&& a.condition == b.condition
}

/// Whether two parameter sets agree on smoothing, the provoking vertex,
/// the bounding box and transform feedback.
pub open spec fn hints_slice_eq(a: DrawParameters, b: DrawParameters) -> bool {
    &&& a.smooth == b.smooth
    &&& a.provoking_vertex == b.provoking_vertex
    &&& a.primitive_bounding_box == b.primitive_bounding_box
    &&& a.transform_feedback == b.transform_feedback
}

/// The stencil dimension reads only its slice: parameter sets that
/// agree on it synchronize stencil identically.
pub proof fn lemma_stencil_reads_only_slice(
    s: StencilState,
    a: DrawParameters,
    b: DrawParameters,
)
    requires
        stencil_slice_eq(a, b),
    ensures
        stencil_sync(s, a) == stencil_sync(s, b),
{
}

// ---------------------------------------------------------------------
// Idempotence per dimension: once a dimension is synchronized, the same
// request finds nothing to do.
// ---------------------------------------------------------------------

/// After a successful depth synchronization, repeating the same request
/// changes nothing and emits nothing.
pub proof fn lemma_depth_resync_silent(
    s: DepthState,
    caps: Capabilities,
    test: DepthTest,
    write: bool,
    range: DepthRange,
    clamp: DepthClamp,
)
    requires
        depth_sync(s, caps, test, write, range, clamp).err is None,
    ensures
        ({
            let o = depth_sync(s, caps, test, write, range, clamp);
            let o2 = depth_sync(o.state, caps, test, write, range, clamp);
            &&& o2.state == o.state
            &&& o2.cmds == Seq::<Command>::empty()
            &&& o2.err is None
        }),
{
    let o = depth_sync(s, caps, test, write, range, clamp);
    let o2 = depth_sync(o.state, caps, test, write, range, clamp);
    assert(o2.cmds =~= Seq::<Command>::empty());
}

/// Stencil synchronization is always free of errors, and repeating the
/// same request afterwards changes nothing and emits nothing.
pub proof fn lemma_stencil_resync_silent(s: StencilState, p: DrawParameters)
    ensures
        ({
            let o = stencil_sync(s, p);
            let o2 = stencil_sync(o.state, p);
            &&& o.err is None
            &&& o2.state == o.state
            &&& o2.cmds == Seq::<Command>::empty()
            &&& o2.err is None
        }),
{
    let o = stencil_sync(s, p);
    let o2 = stencil_sync(o.state, p);
    assert(o2.cmds =~= Seq::<Command>::empty());
}

/// After a successful blending synchronization, repeating the same
/// request changes nothing and emits nothing.
pub proof fn lemma_blend_resync_silent(s: BlendState, caps: Capabilities, b: crate::params::Blend)
    requires
        blend_sync(s, caps, b).err is None,
    ensures
        ({
            let o = blend_sync(s, caps, b);
            let o2 = blend_sync(o.state, caps, b);
            &&& o2.state == o.state
            &&& o2.cmds == Seq::<Command>::empty()
            &&& o2.err is None
        }),
{
    let o = blend_sync(s, caps, b);
    let o2 = blend_sync(o.state, caps, b);
    assert(o2.cmds =~= Seq::<Command>::empty());
}

// ---------------------------------------------------------------------
// Framing per group: each group writes only its own slices.
// ---------------------------------------------------------------------

/// The depth, stencil and blending group writes only those slices, even
/// when it fails part way.
pub proof fn lemma_group_depth_stencil_blend_frame(
    s: RenderState,
    caps: Capabilities,
    p: DrawParameters,
)
    ensures
        ({
            let o = sync_group_depth_stencil_blend(s, caps, p);
            o.state == (RenderState {
                depth: o.state.depth,
                stencil: o.state.stencil,
                blend: o.state.blend,
                ..s
            })
        }),
{
}

/// The masks-and-sizes group writes only its slices.
pub proof fn lemma_group_masks_sizes_frame(s: RenderState, p: DrawParameters)
    ensures
        ({
            let o = sync_group_masks_sizes(s, p);
            o.state == (RenderState {
                color_mask: o.state.color_mask,
                line_width: o.state.line_width,
                point_size: o.state.point_size,
                ..s
            })
        }),
{
}

/// The rasterizer-toggle group writes only its slices.
pub proof fn lemma_group_raster_toggles_frame(s: RenderState, p: DrawParameters)
    ensures
        ({
            let o = sync_group_raster_toggles(s, p);
            o.state == (RenderState {
                polygon: o.state.polygon,
                multisample: o.state.multisample,
                dither: o.state.dither,
                ..s
            })
        }),
{
}

/// The viewport, discard and patch group writes only its slices, even
/// when it fails part way.
pub proof fn lemma_group_viewport_discard_patch_frame(
    s: RenderState,
    caps: Capabilities,
    p: DrawParameters,
    vertices_per_patch: Option<u16>,
    surface_width: u32,
    surface_height: u32,
)
    ensures
        ({
            let o = sync_group_viewport_discard_patch(s, caps, p, vertices_per_patch,
                surface_width, surface_height);
            o.state == (RenderState {
                viewport_scissor: o.state.viewport_scissor,
                rasterizer_discard: o.state.rasterizer_discard,
                patch_vertices: o.state.patch_vertices,
                ..s
            })
        }),
{
}

/// The query group writes only its slices, even when it fails part way.
pub proof fn lemma_group_queries_frame(
    s: RenderState,
    statuses: Map<u64, QueryLifecycle>,
    p: DrawParameters,
)
    ensures
        ({
            let o = sync_group_queries(s, statuses, p);
            o.state == (RenderState {
                queries: o.state.queries,
                conditional_render: o.state.conditional_render,
                ..s
            })
        }),
{
}

/// The hints group writes only its slices, even when it fails part way.
pub proof fn lemma_group_hints_frame(
    s: RenderState,
    caps: Capabilities,
    p: DrawParameters,
    primitives: PrimitiveType,
)
    ensures
        ({
            let o = sync_group_hints(s, caps, p, primitives);
            o.state == (RenderState {
                smooth: o.state.smooth,
                provoking_vertex: o.state.provoking_vertex,
                bounding_box: o.state.bounding_box,
                transform_feedback: o.state.transform_feedback,
                ..s
            })
        }),
{
}

// ---------------------------------------------------------------------
// Silence per group: a group whose slices are already synchronized for
// a parameter set finds nothing to do at any mirror carrying them.
// ---------------------------------------------------------------------

/// A mirror carrying the depth, stencil and blending slices a
/// successful synchronization with `p` left behind has nothing to do
/// for any parameter set `q` that agrees with `p` on those slices.
pub proof fn lemma_group_depth_stencil_blend_silent_at(
    s: RenderState,
    caps: Capabilities,
    p: DrawParameters,
    q: DrawParameters,
    t: RenderState,
)
    requires
        sync_group_depth_stencil_blend(s, caps, p).err is None,
        t.depth == sync_group_depth_stencil_blend(s, caps, p).state.depth,
        t.stencil == sync_group_depth_stencil_blend(s, caps, p).state.stencil,
        t.blend == sync_group_depth_stencil_blend(s, caps, p).state.blend,
        depth_slice_eq(p, q),
        stencil_slice_eq(p, q),
        blend_slice_eq(p, q),
    ensures
        ({
            let o2 = sync_group_depth_stencil_blend(t, caps, q);
            &&& o2.state == t
            &&& o2.cmds == Seq::<Command>::empty()
            &&& o2.err is None
        }),
{
    lemma_depth_resync_silent(s.depth, caps, p.depth_test, p.depth_write, p.depth_range,
        p.depth_clamp);
    lemma_stencil_resync_silent(s.stencil, p);
    lemma_stencil_reads_only_slice(t.stencil, p, q);
    lemma_blend_resync_silent(s.blend, caps, p.blend);
    let o2 = sync_group_depth_stencil_blend(t, caps, q);
    assert(o2.cmds =~= Seq::<Command>::empty());
}

/// A mirror carrying the masks-and-sizes slices a synchronization with
/// `p` left behind has nothing to do for any `q` agreeing on them.
pub proof fn lemma_group_masks_sizes_silent_at(
    s: RenderState,
    p: DrawParameters,
    q: DrawParameters,
    t: RenderState,
)
    requires
        t.color_mask == sync_group_masks_sizes(s, p).state.color_mask,
        t.line_width == sync_group_masks_sizes(s, p).state.line_width,
        t.point_size == sync_group_masks_sizes(s, p).state.point_size,
        masks_sizes_slice_eq(p, q),
    ensures
        ({
            let o2 = sync_group_masks_sizes(t, q);
            &&& o2.state == t
            &&& o2.cmds == Seq::<Command>::empty()
            &&& o2.err is None
        }),
{
    let o2 = sync_group_masks_sizes(t, q);
    assert(o2.cmds =~= Seq::<Command>::empty());
}

/// A mirror carrying the rasterizer-toggle slices a synchronization
/// with `p` left behind has nothing to do for any `q` agreeing on them.
pub proof fn lemma_group_raster_toggles_silent_at(
    s: RenderState,
    p: DrawParameters,
    q: DrawParameters,
    t: RenderState,
)
    requires
        t.polygon == sync_group_raster_toggles(s, p).state.polygon,
        t.multisample == sync_group_raster_toggles(s, p).state.multisample,
        t.dither == sync_group_raster_toggles(s, p).state.dither,
        raster_toggles_slice_eq(p, q),
    ensures
        ({
            let o2 = sync_group_raster_toggles(t, q);
            &&& o2.state == t
            &&& o2.cmds == Seq::<Command>::empty()
            &&& o2.err is None
        }),
{
    let o2 = sync_group_raster_toggles(t, q);
    assert(o2.cmds =~= Seq::<Command>::empty());
}

/// A mirror carrying the viewport, discard and patch slices a
/// successful synchronization with `p` left behind has nothing to do
/// for any `q` agreeing on them, for the same surface and patch size.
pub proof fn lemma_group_viewport_discard_patch_silent_at(
    s: RenderState,
    caps: Capabilities,
    p: DrawParameters,
    q: DrawParameters,
    t: RenderState,
    vertices_per_patch: Option<u16>,
    surface_width: u32,
    surface_height: u32,
)
    requires
        sync_group_viewport_discard_patch(s, caps, p, vertices_per_patch, surface_width,
            surface_height).err is None,
        t.viewport_scissor == sync_group_viewport_discard_patch(s, caps, p, vertices_per_patch,
            surface_width, surface_height).state.viewport_scissor,
        t.rasterizer_discard == sync_group_viewport_discard_patch(s, caps, p, vertices_per_patch,
            surface_width, surface_height).state.rasterizer_discard,
        t.patch_vertices == sync_group_viewport_discard_patch(s, caps, p, vertices_per_patch,
            surface_width, surface_height).state.patch_vertices,
        viewport_discard_slice_eq(p, q),
    ensures
        ({
            let o2 = sync_group_viewport_discard_patch(t, caps, q, vertices_per_patch,
                surface_width, surface_height);
            &&& o2.state == t
            &&& o2.cmds == Seq::<Command>::empty()
            &&& o2.err is None
        }),
{
    let o2 = sync_group_viewport_discard_patch(t, caps, q, vertices_per_patch, surface_width,
        surface_height);
    assert(o2.cmds =~= Seq::<Command>::empty());
}

/// A mirror and status table carrying the query bindings a successful
/// synchronization with `p` left behind have nothing to do for any `q`
/// agreeing on them.
pub proof fn lemma_group_queries_silent_at(
    s: RenderState,
    statuses: Map<u64, QueryLifecycle>,
    p: DrawParameters,
    q: DrawParameters,
    t: RenderState,
)
    requires
        sync_group_queries(s, statuses, p).err is None,
        t.queries == sync_group_queries(s, statuses, p).state.queries,
        t.conditional_render == sync_group_queries(s, statuses, p).state.conditional_render,
        queries_slice_eq(p, q),
    ensures
        ({
            let o2 = sync_group_queries(t, sync_group_queries(s, statuses, p).statuses, q);
            &&& o2.state == t
            &&& o2.statuses == sync_group_queries(s, statuses, p).statuses
            &&& o2.cmds == Seq::<Command>::empty()
            &&& o2.err is None
        }),
{
    let o = sync_group_queries(s, statuses, p);
    let o2 = sync_group_queries(t, o.statuses, q);
    assert(o2.cmds =~= Seq::<Command>::empty());
}

/// A mirror carrying the hint slices a successful synchronization with
/// `p` left behind has nothing to do for any `q` agreeing on them, for
/// the same topology.
pub proof fn lemma_group_hints_silent_at(
    s: RenderState,
    caps: Capabilities,
    p: DrawParameters,
    q: DrawParameters,
    t: RenderState,
    primitives: PrimitiveType,
)
    requires
        sync_group_hints(s, caps, p, primitives).err is None,
        t.smooth == sync_group_hints(s, caps, p, primitives).state.smooth,
        t.provoking_vertex == sync_group_hints(s, caps, p, primitives).state.provoking_vertex,
        t.bounding_box == sync_group_hints(s, caps, p, primitives).state.bounding_box,
        t.transform_feedback == sync_group_hints(s, caps, p, primitives).state.transform_feedback,
        hints_slice_eq(p, q),
    ensures
        ({
            let o2 = sync_group_hints(t, caps, q, primitives);
            &&& o2.state == t
            &&& o2.cmds == Seq::<Command>::empty()
            &&& o2.err is None
        }),
{
    let o2 = sync_group_hints(t, caps, q, primitives);
    assert(o2.cmds =~= Seq::<Command>::empty());
}

// ---------------------------------------------------------------------
// The synchronizer's headline guarantees.
// ---------------------------------------------------------------------

/// Law: re-synchronizing identical parameters twice issues zero
/// additional commands on the second call. After one successful
/// synchronization, the very same request changes no mirror slice and
/// no query status, and emits not a single command.
#[verifier::rlimit(100)]
pub proof fn lemma_resync_identical_silent(
    s: RenderState,
    statuses: Map<u64, QueryLifecycle>,
    caps: Capabilities,
    p: DrawParameters,
    vertices_per_patch: Option<u16>,
    primitives: PrimitiveType,
    surface_width: u32,
    surface_height: u32,
)
    requires
        params_sync(s, statuses, caps, p, vertices_per_patch, primitives, surface_width,
            surface_height).err is None,
    ensures
        ({
            let o = params_sync(s, statuses, caps, p, vertices_per_patch, primitives,
                surface_width, surface_height);
            let o2 = params_sync(o.state, o.statuses, caps, p, vertices_per_patch, primitives,
                surface_width, surface_height);
            &&& o2.state == o.state
            &&& o2.statuses == o.statuses
            &&& o2.cmds == Seq::<Command>::empty()
            &&& o2.err is None
        }),
{
    reveal(params_sync);
    lemma_resync_unchanged_groups_silent(s, statuses, caps, p, p, vertices_per_patch, primitives,
        surface_width, surface_height);
    let o = params_sync(s, statuses, caps, p, vertices_per_patch, primitives, surface_width,
        surface_height);
    let h1 = sync_group_depth_stencil_blend(o.state, caps, p);
    assert(h1.state == o.state && h1.cmds =~= Seq::<Command>::empty() && h1.err is None);
    let h2 = sync_group_masks_sizes(h1.state, p);
    assert(h2.state == o.state && h2.cmds =~= Seq::<Command>::empty() && h2.err is None);
    let h3 = sync_group_raster_toggles(h2.state, p);
    assert(h3.state == o.state && h3.cmds =~= Seq::<Command>::empty() && h3.err is None);
    let h4 = sync_group_viewport_discard_patch(h3.state, caps, p, vertices_per_patch,
        surface_width, surface_height);
    assert(h4.state == o.state && h4.cmds =~= Seq::<Command>::empty() && h4.err is None);
    let h5 = sync_group_queries(h4.state, o.statuses, p);
    assert(h5.state == o.state && h5.statuses == o.statuses && h5.cmds =~= Seq::<
        Command,
    >::empty() && h5.err is None);
    let h6 = sync_group_hints(h5.state, caps, p, primitives);
    assert(h6.state == o.state && h6.cmds =~= Seq::<Command>::empty() && h6.err is None);
    let o2 = params_sync(o.state, o.statuses, caps, p, vertices_per_patch, primitives,
        surface_width, surface_height);
    assert(o2.state == o.state);
    assert(o2.statuses == o.statuses);
    assert(o2.err is None);
    assert(o2.cmds =~= Seq::<Command>::empty());
}

/// Law: changing some dimensions between two calls leaves every
/// unchanged dimension group silent on the second call: at the mirror
/// the first call left behind, a group whose parameter slice did not
/// change keeps its state, emits nothing, and cannot fail, so the
/// second call's commands come from the changed dimensions alone.
#[verifier::rlimit(100)]
pub proof fn lemma_resync_unchanged_groups_silent(
    s: RenderState,
    statuses: Map<u64, QueryLifecycle>,
    caps: Capabilities,
    p: DrawParameters,
    q: DrawParameters,
    vertices_per_patch: Option<u16>,
    primitives: PrimitiveType,
    surface_width: u32,
    surface_height: u32,
)
    requires
        params_sync(s, statuses, caps, p, vertices_per_patch, primitives, surface_width,
            surface_height).err is None,
    ensures
        ({
            let o = params_sync(s, statuses, caps, p, vertices_per_patch, primitives,
                surface_width, surface_height);
            &&& (depth_slice_eq(p, q) && stencil_slice_eq(p, q) && blend_slice_eq(p, q) ==> ({
                let h = sync_group_depth_stencil_blend(o.state, caps, q);
                h.state == o.state && h.cmds == Seq::<Command>::empty() && h.err is None
            }))
            &&& (masks_sizes_slice_eq(p, q) ==> ({
                let h = sync_group_masks_sizes(o.state, q);
                h.state == o.state && h.cmds == Seq::<Command>::empty() && h.err is None
            }))
            &&& (raster_toggles_slice_eq(p, q) ==> ({
                let h = sync_group_raster_toggles(o.state, q);
                h.state == o.state && h.cmds == Seq::<Command>::empty() && h.err is None
            }))
            &&& (viewport_discard_slice_eq(p, q) ==> ({
                let h = sync_group_viewport_discard_patch(o.state, caps, q, vertices_per_patch,
                    surface_width, surface_height);
                h.state == o.state && h.cmds == Seq::<Command>::empty() && h.err is None
            }))
            &&& (queries_slice_eq(p, q) ==> ({
                let h = sync_group_queries(o.state, o.statuses, q);
                h.state == o.state && h.statuses == o.statuses && h.cmds == Seq::<
                    Command,
                >::empty() && h.err is None
            }))
            &&& (hints_slice_eq(p, q) ==> ({
                let h = sync_group_hints(o.state, caps, q, primitives);
                h.state == o.state && h.cmds == Seq::<Command>::empty() && h.err is None
            }))
        }),
{
    reveal(params_sync);
    let g1 = sync_group_depth_stencil_blend(s, caps, p);
    let g2 = sync_group_masks_sizes(g1.state, p);
    let g3 = sync_group_raster_toggles(g2.state, p);
    let g4 = sync_group_viewport_discard_patch(g3.state, caps, p, vertices_per_patch,
        surface_width, surface_height);
    let g5 = sync_group_queries(g4.state, statuses, p);
    let g6 = sync_group_hints(g5.state, caps, p, primitives);
    let o = params_sync(s, statuses, caps, p, vertices_per_patch, primitives, surface_width,
        surface_height);
    lemma_group_depth_stencil_blend_frame(s, caps, p);
    lemma_group_masks_sizes_frame(g1.state, p);
    lemma_group_raster_toggles_frame(g2.state, p);
    lemma_group_viewport_discard_patch_frame(g3.state, caps, p, vertices_per_patch, surface_width,
        surface_height);
    lemma_group_queries_frame(g4.state, statuses, p);
    lemma_group_hints_frame(g5.state, caps, p, primitives);
    assert(o.state == g6.state);
    assert(o.statuses == g5.statuses);
    if depth_slice_eq(p, q) && stencil_slice_eq(p, q) && blend_slice_eq(p, q) {
        lemma_group_depth_stencil_blend_silent_at(s, caps, p, q, o.state);
    }
    if masks_sizes_slice_eq(p, q) {
        lemma_group_masks_sizes_silent_at(g1.state, p, q, o.state);
    }
    if raster_toggles_slice_eq(p, q) {
        lemma_group_raster_toggles_silent_at(g2.state, p, q, o.state);
    }
    if viewport_discard_slice_eq(p, q) {
        lemma_group_viewport_discard_patch_silent_at(g3.state, caps, p, q, o.state,
            vertices_per_patch, surface_width, surface_height);
    }
    if queries_slice_eq(p, q) {
        lemma_group_queries_silent_at(g4.state, statuses, p, q, o.state);
    }
    if hints_slice_eq(p, q) {
        lemma_group_hints_silent_at(g5.state, caps, p, q, o.state, primitives);
    }
}

/// Law: a blend of replace-only color and alpha disables blending
/// outright. The only command such a request can ever emit is the
/// disable toggle; it never configures an equation, factors or a
/// constant color, and it cannot fail.
pub proof fn lemma_collapsed_blend_only_disables(
    s: BlendState,
    caps: Capabilities,
    b: crate::params::Blend,
)
    requires
        blend_collapses(b),
    ensures
        ({
            let o = blend_sync(s, caps, b);
            &&& o.err is None
            &&& !o.state.enabled
            &&& o.cmds == if s.enabled {
                seq![Command::Disable { cap: GL_BLEND }]
            } else {
                Seq::<Command>::empty()
            }
        }),
{
}

/// Law: after stencil synchronization the stencil test is on exactly
/// when the parameters need it: some face's test is not always-pass or
/// some operation is not keep.
pub proof fn lemma_stencil_enabled_iff_needed(s: StencilState, p: DrawParameters)
    ensures
        stencil_sync(s, p).state.test_enabled == stencil_enable_needed(p),
{
}

/// Law: the stencil test is needed exactly when a face departs from the
/// always-pass test or any of the six operations departs from keep; in
/// particular the all-default stencil parameters need none, and
/// flipping any single operation away from keep needs it.
pub proof fn lemma_stencil_needed_characterization(p: DrawParameters)
    ensures
        stencil_enable_needed(p) <==> !(p.stencil_test_clockwise == StencilTest::AlwaysPass
            && p.stencil_test_counter_clockwise == StencilTest::AlwaysPass
            && p.stencil_fail_operation_clockwise == StencilOperation::Keep
            && p.stencil_fail_operation_counter_clockwise == StencilOperation::Keep
            && p.stencil_pass_depth_fail_operation_clockwise == StencilOperation::Keep
            && p.stencil_pass_depth_fail_operation_counter_clockwise == StencilOperation::Keep
            && p.stencil_depth_pass_operation_clockwise == StencilOperation::Keep
            && p.stencil_depth_pass_operation_counter_clockwise == StencilOperation::Keep),
{
}

/// The synchronizer never touches the draw-call counter, the bound
/// framebuffer or the current program, whether it succeeds or fails.
pub proof fn lemma_params_sync_preserves_rest(
    s: RenderState,
    statuses: Map<u64, QueryLifecycle>,
    caps: Capabilities,
    p: DrawParameters,
    vertices_per_patch: Option<u16>,
    primitives: PrimitiveType,
    surface_width: u32,
    surface_height: u32,
)
    ensures
        ({
            let o = params_sync(s, statuses, caps, p, vertices_per_patch, primitives,
                surface_width, surface_height);
            &&& o.state.next_draw_call_id == s.next_draw_call_id
            &&& o.state.draw_framebuffer == s.draw_framebuffer
            &&& o.state.program == s.program
        }),
{
    reveal(params_sync);
    let g1 = sync_group_depth_stencil_blend(s, caps, p);
    let g2 = sync_group_masks_sizes(g1.state, p);
    let g3 = sync_group_raster_toggles(g2.state, p);
    let g4 = sync_group_viewport_discard_patch(g3.state, caps, p, vertices_per_patch,
        surface_width, surface_height);
    let g5 = sync_group_queries(g4.state, statuses, p);
    lemma_group_depth_stencil_blend_frame(s, caps, p);
    lemma_group_masks_sizes_frame(g1.state, p);
    lemma_group_raster_toggles_frame(g2.state, p);
    lemma_group_viewport_discard_patch_frame(g3.state, caps, p, vertices_per_patch, surface_width,
        surface_height);
    lemma_group_queries_frame(g4.state, statuses, p);
    lemma_group_hints_frame(g5.state, caps, p, primitives);
}

/// Law: the draw-call counter advances by exactly one per successful
/// submission and is untouched by any failed request.
#[verifier::rlimit(100)]
pub proof fn lemma_draw_counter(
    s: RenderState,
    statuses: Map<u64, QueryLifecycle>,
    caps: Capabilities,
    framebuffer: u32,
    sources: Seq<crate::vertex::VerticesSource>,
    indices: crate::index::IndicesSource,
    program: u32,
    uniforms: u64,
    p: DrawParameters,
    surface_width: u32,
    surface_height: u32,
    reported_base_vertex: i32,
)
    requires
        s.next_draw_call_id < u64::MAX,
    ensures
        ({
            let o = crate::draw::draw_spec(s, statuses, caps, framebuffer, sources, indices,
                program, uniforms, p, surface_width, surface_height, reported_base_vertex);
            &&& (o.result is Ok ==> o.state.next_draw_call_id == s.next_draw_call_id + 1)
            &&& (o.result is Err ==> o.state.next_draw_call_id == s.next_draw_call_id)
        }),
{
    let b = crate::draw::bind_sync(s, framebuffer, program, uniforms);
    assert(b.state.next_draw_call_id == s.next_draw_call_id);
    if crate::params::spec_validate(caps, p) is None {
        if crate::draw::patch_check(indices, caps) is Ok {
            let vertices_per_patch = crate::draw::patch_check(indices, caps)->Ok_0;
            lemma_params_sync_preserves_rest(b.state, statuses, caps, p, vertices_per_patch,
                crate::index::spec_primitives_of(indices), surface_width, surface_height);
        }
    }
}

// ---------------------------------------------------------------------
// Command-path arbitration is a pure function of the capability
// profile: for a fixed profile, every emitted multi-path command uses
// the profile's path, whatever the mirror held.
// ---------------------------------------------------------------------

/// Law: a provoking-vertex command always uses the path the capability
/// profile selects: the core path when available, else the extension.
pub proof fn lemma_provoking_vertex_path_pure(s: u32, caps: Capabilities, v: ProvokingVertex)
    ensures
        ({
            let o = provoking_vertex_sync(s, caps, v);
            forall|i: int| 0 <= i < o.cmds.len() ==> (#[trigger] o.cmds[i]
                matches Command::ProvokingVertex { path, .. } ==> path == if provoking_vertex_core(
                caps,
            ) {
                EntryPath::Core
            } else {
                EntryPath::Ext
            })
        }),
{
}

/// Law: a bounding-box command always uses the path the capability
/// profile selects, in the fixed preference order.
pub proof fn lemma_bounding_box_path_pure(
    s: crate::params::BoundingBox,
    caps: Capabilities,
    bb: crate::params::BoundingBox,
)
    ensures
        ({
            let o = bounding_box_sync(s, caps, bb);
            forall|i: int| 0 <= i < o.cmds.len() ==> (#[trigger] o.cmds[i]
                matches Command::PrimitiveBoundingBox { path, .. } ==> Some(path)
                == bounding_box_path(caps))
        }),
{
}

/// Law: a base-vertex draw command always uses the path the capability
/// profile selects: the core path when available, else the extension.
pub proof fn lemma_base_vertex_path_pure(
    indices: crate::index::IndicesSource,
    counts: crate::vertex::ReconciledCounts,
    base_vertex: i32,
    caps: Capabilities,
)
    ensures
        ({
            let r = crate::draw::submission_cmds(indices, counts, base_vertex, caps);
            r matches Ok(cs) ==> forall|i: int|
                0 <= i < cs.len() ==> {
                    let want = if crate::draw::base_vertex_core_path(caps) {
                        EntryPath::Core
                    } else {
                        EntryPath::Ext
                    };
                    &&& (#[trigger] cs[i] matches Command::DrawElementsBaseVertex { path, .. }
                        ==> path == want)
                    &&& (cs[i] matches Command::DrawElementsInstancedBaseVertex { path, .. }
                        ==> path == want)
                }
        }),
{
}

/// A mirror that carries exactly the dimension slices a successful
/// synchronization left behind — whatever its counter or bindings hold —
/// has nothing to do for the same parameters: the synchronizer leaves
/// it untouched and emits nothing.
#[verifier::rlimit(100)]
pub proof fn lemma_resync_silent_at(
    s: RenderState,
    statuses: Map<u64, QueryLifecycle>,
    caps: Capabilities,
    p: DrawParameters,
    vertices_per_patch: Option<u16>,
    primitives: PrimitiveType,
    surface_width: u32,
    surface_height: u32,
    t: RenderState,
)
    requires
        params_sync(s, statuses, caps, p, vertices_per_patch, primitives, surface_width,
            surface_height).err is None,
        ({
            let o = params_sync(s, statuses, caps, p, vertices_per_patch, primitives,
                surface_width, surface_height);
            &&& t.depth == o.state.depth
            &&& t.stencil == o.state.stencil
            &&& t.blend == o.state.blend
            &&& t.color_mask == o.state.color_mask
            &&& t.line_width == o.state.line_width
            &&& t.point_size == o.state.point_size
            &&& t.polygon == o.state.polygon
            &&& t.multisample == o.state.multisample
            &&& t.dither == o.state.dither
            &&& t.viewport_scissor == o.state.viewport_scissor
            &&& t.rasterizer_discard == o.state.rasterizer_discard
            &&& t.patch_vertices == o.state.patch_vertices
            &&& t.queries == o.state.queries
            &&& t.conditional_render == o.state.conditional_render
            &&& t.smooth == o.state.smooth
            &&& t.provoking_vertex == o.state.provoking_vertex
            &&& t.bounding_box == o.state.bounding_box
            &&& t.transform_feedback == o.state.transform_feedback
        }),
    ensures
        ({
            let o = params_sync(s, statuses, caps, p, vertices_per_patch, primitives,
                surface_width, surface_height);
            let o2 = params_sync(t, o.statuses, caps, p, vertices_per_patch, primitives,
                surface_width, surface_height);
            &&& o2.state == t
            &&& o2.statuses == o.statuses
            &&& o2.cmds == Seq::<Command>::empty()
            &&& o2.err is None
        }),
{
    reveal(params_sync);
    let o = params_sync(s, statuses, caps, p, vertices_per_patch, primitives, surface_width,
        surface_height);
    let g1 = sync_group_depth_stencil_blend(s, caps, p);
    let g2 = sync_group_masks_sizes(g1.state, p);
    let g3 = sync_group_raster_toggles(g2.state, p);
    let g4 = sync_group_viewport_discard_patch(g3.state, caps, p, vertices_per_patch,
        surface_width, surface_height);
    let g5 = sync_group_queries(g4.state, statuses, p);
    let g6 = sync_group_hints(g5.state, caps, p, primitives);
    lemma_group_depth_stencil_blend_frame(s, caps, p);
    lemma_group_masks_sizes_frame(g1.state, p);
    lemma_group_raster_toggles_frame(g2.state, p);
    lemma_group_viewport_discard_patch_frame(g3.state, caps, p, vertices_per_patch, surface_width,
        surface_height);
    lemma_group_queries_frame(g4.state, statuses, p);
    lemma_group_hints_frame(g5.state, caps, p, primitives);
    assert(o.state == g6.state);
    assert(o.statuses == g5.statuses);
    lemma_group_depth_stencil_blend_silent_at(s, caps, p, p, t);
    lemma_group_masks_sizes_silent_at(g1.state, p, p, t);
    lemma_group_raster_toggles_silent_at(g2.state, p, p, t);
    lemma_group_viewport_discard_patch_silent_at(g3.state, caps, p, p, t, vertices_per_patch,
        surface_width, surface_height);
    lemma_group_queries_silent_at(g4.state, statuses, p, p, t);
    lemma_group_hints_silent_at(g5.state, caps, p, p, t, primitives);
    let h1 = sync_group_depth_stencil_blend(t, caps, p);
    assert(h1.state == t && h1.cmds =~= Seq::<Command>::empty() && h1.err is None);
    let h2 = sync_group_masks_sizes(h1.state, p);
    assert(h2.state == t && h2.cmds =~= Seq::<Command>::empty() && h2.err is None);
    let h3 = sync_group_raster_toggles(h2.state, p);
    assert(h3.state == t && h3.cmds =~= Seq::<Command>::empty() && h3.err is None);
    let h4 = sync_group_viewport_discard_patch(h3.state, caps, p, vertices_per_patch,
        surface_width, surface_height);
    assert(h4.state == t && h4.cmds =~= Seq::<Command>::empty() && h4.err is None);
    let h5 = sync_group_queries(h4.state, o.statuses, p);
    assert(h5.state == t && h5.statuses == o.statuses && h5.cmds =~= Seq::<Command>::empty()
        && h5.err is None);
    let h6 = sync_group_hints(h5.state, caps, p, primitives);
    assert(h6.state == t && h6.cmds =~= Seq::<Command>::empty() && h6.err is None);
    let o2 = params_sync(t, o.statuses, caps, p, vertices_per_patch, primitives, surface_width,
        surface_height);
    assert(o2.state == t);
    assert(o2.statuses == o.statuses);
    assert(o2.err is None);
    assert(o2.cmds =~= Seq::<Command>::empty());
}

/// Law: repeating a successful draw with identical arguments, and
/// nothing else touching the context in between, succeeds again and
/// emits no state-change command: the second recording is exactly the
/// uniform bind, the one submission (with its indirect-buffer bind
/// where one is needed) and the fence registrations, and only the
/// draw-call counter moves.
#[verifier::rlimit(100)]
pub proof fn lemma_redraw_identical_minimal(
    s: RenderState,
    statuses: Map<u64, QueryLifecycle>,
    caps: Capabilities,
    framebuffer: u32,
    sources: Seq<crate::vertex::VerticesSource>,
    indices: crate::index::IndicesSource,
    program: u32,
    uniforms: u64,
    p: DrawParameters,
    surface_width: u32,
    surface_height: u32,
    reported_base_vertex: i32,
)
    requires
        crate::draw::draw_spec(s, statuses, caps, framebuffer, sources, indices, program,
            uniforms, p, surface_width, surface_height, reported_base_vertex).result is Ok,
    ensures
        ({
            let o1 = crate::draw::draw_spec(s, statuses, caps, framebuffer, sources, indices,
                program, uniforms, p, surface_width, surface_height, reported_base_vertex);
            let o2 = crate::draw::draw_spec(o1.state, o1.statuses, caps, framebuffer, sources,
                indices, program, uniforms, p, surface_width, surface_height,
                reported_base_vertex);
            let base_vertex = if crate::draw::use_base_vertex(indices, caps) {
                reported_base_vertex
            } else {
                0
            };
            &&& o2.result is Ok
            &&& o2.cmds == seq![Command::BindUniforms { uniforms }] + crate::draw::submission_cmds(
                indices,
                crate::vertex::spec_reconcile(sources)->Ok_0,
                base_vertex,
                caps,
            )->Ok_0 + crate::vertex::vertex_fence_cmds(sources) + crate::draw::index_fence_cmds(
                indices,
            )
            &&& o2.statuses == o1.statuses
            &&& o2.state == (RenderState {
                next_draw_call_id: (o1.state.next_draw_call_id + 1) as u64,
                ..o1.state
            })
        }),
{
    let o1 = crate::draw::draw_spec(s, statuses, caps, framebuffer, sources, indices, program,
        uniforms, p, surface_width, surface_height, reported_base_vertex);
    let vertices_per_patch = crate::draw::patch_check(indices, caps)->Ok_0;
    let prim = crate::index::spec_primitives_of(indices);
    let b1 = crate::draw::bind_sync(s, framebuffer, program, uniforms);
    let ps1 = params_sync(b1.state, statuses, caps, p, vertices_per_patch, prim, surface_width,
        surface_height);
    assert(ps1.err is None);
    lemma_params_sync_preserves_rest(b1.state, statuses, caps, p, vertices_per_patch, prim,
        surface_width, surface_height);
    assert(ps1.state.draw_framebuffer == framebuffer);
    assert(ps1.state.program == program);
    assert(o1.state.draw_framebuffer == framebuffer);
    assert(o1.state.program == program);
    let b2 = crate::draw::bind_sync(o1.state, framebuffer, program, uniforms);
    assert(b2.state == o1.state);
    assert(b2.cmds =~= seq![Command::BindUniforms { uniforms }]);
    lemma_resync_silent_at(b1.state, statuses, caps, p, vertices_per_patch, prim, surface_width,
        surface_height, o1.state);
    let ps2 = params_sync(o1.state, o1.statuses, caps, p, vertices_per_patch, prim,
        surface_width, surface_height);
    assert(ps2.state == o1.state);
    assert(ps2.statuses == o1.statuses);
    assert(ps2.cmds == Seq::<Command>::empty());
    assert(ps2.err is None);
    let o2 = crate::draw::draw_spec(o1.state, o1.statuses, caps, framebuffer, sources, indices,
        program, uniforms, p, surface_width, surface_height, reported_base_vertex);
    assert(o2.result is Ok);
    assert(o2.cmds =~= seq![Command::BindUniforms { uniforms }] + crate::draw::submission_cmds(
        indices,
        crate::vertex::spec_reconcile(sources)->Ok_0,
        if crate::draw::use_base_vertex(indices, caps) {
            reported_base_vertex
        } else {
            0
        },
        caps,
    )->Ok_0 + crate::vertex::vertex_fence_cmds(sources) + crate::draw::index_fence_cmds(indices));
}

/// Law: two per-instance sources that disagree on their length make the
/// whole draw request fail with the instances-mismatch error, whatever
/// other sources and whatever index source the request carries, with
/// no state mutation and no command — provided the request passes
/// pre-flight validation and the tessellation gate, the two checks
/// that run before reconciliation.
pub proof fn lemma_draw_instance_mismatch(
    s: RenderState,
    statuses: Map<u64, QueryLifecycle>,
    caps: Capabilities,
    framebuffer: u32,
    sources: Seq<crate::vertex::VerticesSource>,
    indices: crate::index::IndicesSource,
    program: u32,
    uniforms: u64,
    p: DrawParameters,
    surface_width: u32,
    surface_height: u32,
    reported_base_vertex: i32,
    i: int,
    j: int,
)
    requires
        crate::params::spec_validate(caps, p) is None,
        crate::draw::patch_check(indices, caps) is Ok,
        0 <= i < j < sources.len(),
        crate::vertex::source_per_instance(sources[i]),
        crate::vertex::source_per_instance(sources[j]),
        crate::vertex::source_len(sources[i]) != crate::vertex::source_len(sources[j]),
    ensures
        ({
            let o = crate::draw::draw_spec(s, statuses, caps, framebuffer, sources, indices,
                program, uniforms, p, surface_width, surface_height, reported_base_vertex);
            &&& o.result == Err::<(), crate::DrawError>(crate::DrawError::InstancesCountMismatch)
            &&& o.state == s
            &&& o.statuses == statuses
            &&& o.cmds == Seq::<Command>::empty()
        }),
{
    crate::vertex::lemma_instance_mismatch_always_fails(sources, i, j);
}

} // verus!
