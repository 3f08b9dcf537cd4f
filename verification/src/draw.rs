//! The draw dispatcher: validates a request, reconciles its sources,
//! synchronizes the mirror, binds the target, program and uniforms,
//! submits exactly one draw command, registers fences and advances the
//! draw-call counter.
//!
//! Any failure before submission aborts cleanly: no draw command is
//! issued, the counter is untouched, and the only commands already
//! emitted are idempotent state-sync steps the mirror stays faithful to.

use vstd::prelude::*;
use crate::caps::{Api, Capabilities, version_ge};
use crate::commands::{Command, EntryPath};
use crate::index::{
    index_type_glenum, primitive_type_glenum, spec_primitives_of, IndicesSource, PrimitiveType,
};
use crate::params::{spec_validate, validate, DrawParameters};
use crate::queries::{QueryLifecycle, QueryLifecycleManager};
use crate::state::{emit, RenderState, SyncOutcome};
use crate::sync::{params_sync, synchronize, ParamsSyncOutcome};
use crate::vertex::{
    emit_vertex_fences, lemma_reconcile_bounded, reconcile, source_len, spec_reconcile,
    vertex_fence_cmds, ReconciledCounts, VerticesSource,
};
use crate::viewport::viewport_request_wf;
use crate::DrawError;

verus! {

/// One device context as the engine sees it: the immutable capability
/// profile, the mutable state mirror and the query lifecycle table.
pub struct DrawContext {
    /// What the device can do; never changes after construction.
    pub caps: Capabilities,
    /// The state mirror.
    pub state: RenderState,
    /// The query lifecycle table.
    pub queries: QueryLifecycleManager,
}

impl DrawContext {
    /// A context whose device no draw has used yet.
    pub fn new(caps: Capabilities) -> (r: DrawContext)
        ensures
            r.caps == caps,
            r.state == crate::state::spec_fresh_state(),
            r.queries.map() == Map::<u64, QueryLifecycle>::empty(),
    {
        DrawContext { caps, state: RenderState::fresh(), queries: QueryLifecycleManager::new() }
    }

    /// The identifier the next successful draw will get.
    pub fn next_draw_call_id(&self) -> (r: u64)
        ensures
            r == self.state.next_draw_call_id,
    {
        self.state.next_draw_call_id
    }
}

/// The tessellation gate: a patch topology needs tessellation support
/// and a patch size between one and the device limit; the size is then
/// handed to the patch-vertex dimension. Any other topology passes
/// nothing on.
pub open spec fn patch_check(indices: IndicesSource, caps: Capabilities)
    -> Result<Option<u16>, DrawError> {
    match spec_primitives_of(indices) {
        PrimitiveType::Patches { vertices_per_patch } => match caps.max_patch_vertices {
            Some(max) => if vertices_per_patch == 0 || vertices_per_patch as i32 > max {
                Err(DrawError::UnsupportedVerticesPerPatch)
            } else {
                Ok(Some(vertices_per_patch))
            },
            None => Err(DrawError::TessellationNotSupported),
        },
        _ => Ok(None),
    }
}

/// Whether the device can draw indexed primitives with a base vertex
/// offset by any path.
pub open spec fn base_vertex_supported(caps: Capabilities) -> bool {
    ||| version_ge(caps.version, Api::Gl, 3, 2)
    ||| version_ge(caps.version, Api::GlEs, 3, 2)
    ||| caps.extensions.gl_arb_draw_elements_base_vertex
    ||| caps.extensions.gl_oes_draw_elements_base_vertex
}

/// Whether the core base-vertex entry points are available; otherwise
/// the embedded-extension ones are used.
pub open spec fn base_vertex_core_path(caps: Capabilities) -> bool {
    ||| version_ge(caps.version, Api::Gl, 3, 2)
    ||| version_ge(caps.version, Api::GlEs, 3, 2)
    ||| caps.extensions.gl_arb_draw_elements_base_vertex
}

/// Whether the attribute binding may report a base vertex offset: the
/// indirect multidraw paths carry no single base-vertex concept, and an
/// indexed draw needs device support; a plain draw always may.
pub open spec fn use_base_vertex(indices: IndicesSource, caps: Capabilities) -> bool {
    match indices {
        IndicesSource::MultidrawArray { .. } => false,
        IndicesSource::MultidrawElement { .. } => false,
        IndicesSource::NoIndices { .. } => true,
        IndicesSource::IndexBuffer { .. } => base_vertex_supported(caps),
    }
}

/// The binding steps before synchronization: the draw framebuffer and
/// the program, each only on change, then the uniform set against the
/// program, always.
pub open spec fn bind_sync(s: RenderState, framebuffer: u32, program: u32, uniforms: u64)
    -> SyncOutcome<RenderState> {
    let o1 = if s.draw_framebuffer != framebuffer {
        SyncOutcome::ok(
            RenderState { draw_framebuffer: framebuffer, ..s },
            seq![Command::BindDrawFramebuffer { framebuffer }],
        )
    } else {
        SyncOutcome::silent(s)
    };
    let o2 = if o1.state.program != program {
        SyncOutcome::ok(
            RenderState { program, ..o1.state },
            seq![Command::UseProgram { program }],
        )
    } else {
        SyncOutcome::silent(o1.state)
    };
    let o3 = SyncOutcome::ok(o2.state, seq![Command::BindUniforms { uniforms }]);
    o1.and_then(o2.and_then(o3))
}

/// The binding steps, on the live mirror.
#[verifier::rlimit(50)]
fn sync_bindings(
    state: &mut RenderState,
    cmds: &mut Vec<Command>,
    framebuffer: u32,
    program: u32,
    uniforms: u64,
)
    ensures
        ({
            let o = bind_sync(*old(state), framebuffer, program, uniforms);
            &&& *final(state) == o.state
            &&& final(cmds)@ == old(cmds)@ + o.cmds
            &&& o.err is None
        }),
{
    let ghost o = bind_sync(*state, framebuffer, program, uniforms);
    if state.draw_framebuffer != framebuffer {
        emit(cmds, Command::BindDrawFramebuffer { framebuffer });
        state.draw_framebuffer = framebuffer;
    }
    if state.program != program {
        emit(cmds, Command::UseProgram { program });
        state.program = program;
    }
    emit(cmds, Command::BindUniforms { uniforms });
    proof {
        assert(cmds@ =~= old(cmds)@ + o.cmds);
    }
}

/// The single draw command a request submits, preceded by an indirect
/// bind for the multidraw paths: the concrete command is selected by
/// index-source kind crossed with instancing and the base-vertex tier.
/// Only the plain path can still fail, on an unresolved vertex count.
pub open spec fn submission_cmds(
    indices: IndicesSource,
    counts: ReconciledCounts,
    base_vertex: i32,
    caps: Capabilities,
) -> Result<Seq<Command>, DrawError> {
    match indices {
        IndicesSource::IndexBuffer { buffer, data_type, primitives } => {
            let prim = primitive_type_glenum(primitives);
            let dt = index_type_glenum(data_type);
            let count = buffer.elements_count as i32;
            let path = if base_vertex_core_path(caps) {
                EntryPath::Core
            } else {
                EntryPath::Ext
            };
            Ok(
                match counts.instances {
                    Some(inst) => if base_vertex != 0 {
                        seq![
                            Command::DrawElementsInstancedBaseVertex {
                                path,
                                primitives: prim,
                                count,
                                index_type: dt,
                                offset: buffer.offset_bytes,
                                instances: inst as i32,
                                base_vertex,
                            },
                        ]
                    } else {
                        seq![
                            Command::DrawElementsInstanced {
                                primitives: prim,
                                count,
                                index_type: dt,
                                offset: buffer.offset_bytes,
                                instances: inst as i32,
                            },
                        ]
                    },
                    None => if base_vertex != 0 {
                        seq![
                            Command::DrawElementsBaseVertex {
                                path,
                                primitives: prim,
                                count,
                                index_type: dt,
                                offset: buffer.offset_bytes,
                                base_vertex,
                            },
                        ]
                    } else {
                        seq![
                            Command::DrawElements {
                                primitives: prim,
                                count,
                                index_type: dt,
                                offset: buffer.offset_bytes,
                            },
                        ]
                    },
                },
            )
        },
        IndicesSource::MultidrawArray { buffer, primitives } => Ok(
            seq![
                Command::BindDrawIndirectBuffer { buffer: buffer.id },
                Command::MultiDrawArraysIndirect {
                    primitives: primitive_type_glenum(primitives),
                    offset: buffer.offset_bytes,
                    count: buffer.elements_count as i32,
                },
            ],
        ),
        IndicesSource::MultidrawElement { commands, indices, data_type, primitives } => Ok(
            seq![
                Command::BindDrawIndirectBuffer { buffer: commands.id },
                Command::MultiDrawElementsIndirect {
                    primitives: primitive_type_glenum(primitives),
                    index_type: index_type_glenum(data_type),
                    offset: commands.offset_bytes,
                    count: commands.elements_count as i32,
                },
            ],
        ),
        IndicesSource::NoIndices { primitives } => {
            match counts.vertices {
                Some(v) => Ok(
                    match counts.instances {
                        Some(inst) => seq![
                            Command::DrawArraysInstanced {
                                primitives: primitive_type_glenum(primitives),
                                first: base_vertex,
                                count: v as i32,
                                instances: inst as i32,
                            },
                        ],
                        None => seq![
                            Command::DrawArrays {
                                primitives: primitive_type_glenum(primitives),
                                first: base_vertex,
                                count: v as i32,
                            },
                        ],
                    },
                ),
                None => Err(DrawError::VerticesSourcesLengthMismatch),
            }
        },
    }
}

/// The fence commands an index source asks for, in registration order.
pub open spec fn index_fence_cmds(indices: IndicesSource) -> Seq<Command> {
    match indices {
        IndicesSource::IndexBuffer { buffer, .. } => if buffer.fenced {
            seq![Command::InsertFence { buffer: buffer.id }]
        } else {
            Seq::empty()
        },
        IndicesSource::MultidrawArray { buffer, .. } => if buffer.fenced {
            seq![Command::InsertFence { buffer: buffer.id }]
        } else {
            Seq::empty()
        },
        IndicesSource::MultidrawElement { commands, indices, .. } => {
            let c: Seq<Command> = if commands.fenced {
                seq![Command::InsertFence { buffer: commands.id }]
            } else {
                Seq::empty()
            };
            let i: Seq<Command> = if indices.fenced {
                seq![Command::InsertFence { buffer: indices.id }]
            } else {
                Seq::empty()
            };
            c + i
        },
        IndicesSource::NoIndices { .. } => Seq::empty(),
    }
}

/// Whether every count a request can hand to the device fits the
/// device's signed units: a machine limit, not a validation rule.
pub open spec fn request_fits_device(sources: Seq<VerticesSource>, indices: IndicesSource)
    -> bool {
    &&& forall|i: int| 0 <= i < sources.len() ==> source_len(#[trigger] sources[i]) <= i32::MAX
    &&& match indices {
        IndicesSource::IndexBuffer { buffer, .. } => buffer.elements_count <= i32::MAX,
        IndicesSource::MultidrawArray { buffer, .. } => buffer.elements_count <= i32::MAX,
        IndicesSource::MultidrawElement { commands, .. } => commands.elements_count <= i32::MAX,
        IndicesSource::NoIndices { .. } => true,
    }
}

/// What one draw request does: the context it leaves behind, the
/// commands it emits in order, and its result.
pub ghost struct DrawOutcome {
    /// The state mirror after the request.
    pub state: RenderState,
    /// The query status table after the request.
    pub statuses: Map<u64, QueryLifecycle>,
    /// The emitted commands, in order.
    pub cmds: Seq<Command>,
    /// What the request returns.
    pub result: Result<(), DrawError>,
}

/// The committing half of the dispatch, once the gates have passed:
/// bind, synchronize every dimension, submit one draw command, register
/// the fences and advance the counter. The counter advances exactly on
/// success.
pub open spec fn draw_commit_spec(
    s: RenderState,
    statuses: Map<u64, QueryLifecycle>,
    caps: Capabilities,
    framebuffer: u32,
    sources: Seq<VerticesSource>,
    indices: IndicesSource,
    program: u32,
    uniforms: u64,
    p: DrawParameters,
    surface_width: u32,
    surface_height: u32,
    reported_base_vertex: i32,
    vertices_per_patch: Option<u16>,
    counts: ReconciledCounts,
) -> DrawOutcome {
    let base_vertex = if use_base_vertex(indices, caps) {
        reported_base_vertex
    } else {
        0
    };
    let b = bind_sync(s, framebuffer, program, uniforms);
    let ps = params_sync(b.state, statuses, caps, p, vertices_per_patch,
        spec_primitives_of(indices), surface_width, surface_height);
    if ps.err is Some {
        DrawOutcome {
            state: ps.state,
            statuses: ps.statuses,
            cmds: b.cmds + ps.cmds,
            result: Err(ps.err->0),
        }
    } else {
        match submission_cmds(indices, counts, base_vertex, caps) {
            Err(e) => DrawOutcome {
                state: ps.state,
                statuses: ps.statuses,
                cmds: b.cmds + ps.cmds,
                result: Err(e),
            },
            Ok(sub) => DrawOutcome {
                state: RenderState {
                    next_draw_call_id: (ps.state.next_draw_call_id + 1) as u64,
                    ..ps.state
                },
                statuses: ps.statuses,
                cmds: b.cmds + ps.cmds + sub + vertex_fence_cmds(sources) + index_fence_cmds(
                    indices,
                ),
                result: Ok(()),
            },
        }
    }
}

/// The whole dispatch, as a value: validate, gate tessellation,
/// reconcile the sources, then commit (bind, synchronize, submit,
/// fence, count).
pub open spec fn draw_spec(
    s: RenderState,
    statuses: Map<u64, QueryLifecycle>,
    caps: Capabilities,
    framebuffer: u32,
    sources: Seq<VerticesSource>,
    indices: IndicesSource,
    program: u32,
    uniforms: u64,
    p: DrawParameters,
    surface_width: u32,
    surface_height: u32,
    reported_base_vertex: i32,
) -> DrawOutcome {
    match spec_validate(caps, p) {
        Some(e) => DrawOutcome { state: s, statuses, cmds: Seq::empty(), result: Err(e) },
        None => match patch_check(indices, caps) {
            Err(e) => DrawOutcome { state: s, statuses, cmds: Seq::empty(), result: Err(e) },
            Ok(vertices_per_patch) => match spec_reconcile(sources) {
                Err(e) => DrawOutcome { state: s, statuses, cmds: Seq::empty(), result: Err(e) },
                Ok(counts) => draw_commit_spec(s, statuses, caps, framebuffer, sources, indices,
                    program, uniforms, p, surface_width, surface_height, reported_base_vertex,
                    vertices_per_patch, counts),
            },
        },
    }
}


/// The submission step, on the live recording: emits the one draw
/// command (and the indirect bind where one is needed), or fails
/// without emitting anything.
#[verifier::rlimit(100)]
fn submit(
    cmds: &mut Vec<Command>,
    indices: &IndicesSource,
    counts: ReconciledCounts,
    base_vertex: i32,
    caps: &Capabilities,
) -> (r: Result<(), DrawError>)
    requires
        counts.vertices matches Some(v) ==> v <= i32::MAX,
        counts.instances matches Some(v) ==> v <= i32::MAX,
        (match *indices {
            IndicesSource::IndexBuffer { buffer, .. } => buffer.elements_count <= i32::MAX,
            IndicesSource::MultidrawArray { buffer, .. } => buffer.elements_count <= i32::MAX,
            IndicesSource::MultidrawElement { commands, .. } => commands.elements_count
                <= i32::MAX,
            IndicesSource::NoIndices { .. } => true,
        }),
    ensures
        ({
            let s = submission_cmds(*indices, counts, base_vertex, *caps);
            &&& (r is Ok <==> s is Ok)
            &&& (s matches Ok(cs) ==> final(cmds)@ == old(cmds)@ + cs)
            &&& (s matches Err(e) ==> final(cmds)@ == old(cmds)@ && r == Err::<(), DrawError>(e))
        }),
{
    let ghost s = submission_cmds(*indices, counts, base_vertex, *caps);
    match *indices {
        IndicesSource::IndexBuffer { buffer, data_type, primitives } => {
            let prim = primitives.to_glenum();
            let dt = data_type.to_glenum();
            let count = buffer.elements_count as i32;
            let core = caps.version.at_least(Api::Gl, 3, 2) || caps.version.at_least(Api::GlEs, 3,
                2) || caps.extensions.gl_arb_draw_elements_base_vertex;
            let path = if core {
                EntryPath::Core
            } else {
                EntryPath::Ext
            };
            match counts.instances {
                Some(inst) => {
                    if base_vertex != 0 {
                        emit(cmds, Command::DrawElementsInstancedBaseVertex {
                            path,
                            primitives: prim,
                            count,
                            index_type: dt,
                            offset: buffer.offset_bytes,
                            instances: inst as i32,
                            base_vertex,
                        });
                    } else {
                        emit(cmds, Command::DrawElementsInstanced {
                            primitives: prim,
                            count,
                            index_type: dt,
                            offset: buffer.offset_bytes,
                            instances: inst as i32,
                        });
                    }
                },
                None => {
                    if base_vertex != 0 {
                        emit(cmds, Command::DrawElementsBaseVertex {
                            path,
                            primitives: prim,
                            count,
                            index_type: dt,
                            offset: buffer.offset_bytes,
                            base_vertex,
                        });
                    } else {
                        emit(cmds, Command::DrawElements {
                            primitives: prim,
                            count,
                            index_type: dt,
                            offset: buffer.offset_bytes,
                        });
                    }
                },
            }
        },
        IndicesSource::MultidrawArray { buffer, primitives } => {
            emit(cmds, Command::BindDrawIndirectBuffer { buffer: buffer.id });
            emit(cmds, Command::MultiDrawArraysIndirect {
                primitives: primitives.to_glenum(),
                offset: buffer.offset_bytes,
                count: buffer.elements_count as i32,
            });
        },
        IndicesSource::MultidrawElement { commands, data_type, primitives, .. } => {
            emit(cmds, Command::BindDrawIndirectBuffer { buffer: commands.id });
            emit(cmds, Command::MultiDrawElementsIndirect {
                primitives: primitives.to_glenum(),
                index_type: data_type.to_glenum(),
                offset: commands.offset_bytes,
                count: commands.elements_count as i32,
            });
        },
        IndicesSource::NoIndices { primitives } => {
            let v = match counts.vertices {
                Some(v) => v,
                None => {
                    return Err(DrawError::VerticesSourcesLengthMismatch);
                },
            };
            match counts.instances {
                Some(inst) => {
                    emit(cmds, Command::DrawArraysInstanced {
                        primitives: primitives.to_glenum(),
                        first: base_vertex,
                        count: v as i32,
                        instances: inst as i32,
                    });
                },
                None => {
                    emit(cmds, Command::DrawArrays {
                        primitives: primitives.to_glenum(),
                        first: base_vertex,
                        count: v as i32,
                    });
                },
            }
        },
    }
    proof {
        assert(s is Ok);
        assert(cmds@ =~= old(cmds)@ + s->Ok_0);
    }
    Ok(())
}

/// Appends a fence-registration command for every fenced buffer of the
/// index source.
fn emit_index_fences(cmds: &mut Vec<Command>, indices: &IndicesSource)
    ensures
        final(cmds)@ == old(cmds)@ + index_fence_cmds(*indices),
{
    match *indices {
        IndicesSource::IndexBuffer { buffer, .. } => {
            if buffer.fenced {
                emit(cmds, Command::InsertFence { buffer: buffer.id });
            }
        },
        IndicesSource::MultidrawArray { buffer, .. } => {
            if buffer.fenced {
                emit(cmds, Command::InsertFence { buffer: buffer.id });
            }
        },
        IndicesSource::MultidrawElement { commands, indices, .. } => {
            if commands.fenced {
                emit(cmds, Command::InsertFence { buffer: commands.id });
            }
            if indices.fenced {
                emit(cmds, Command::InsertFence { buffer: indices.id });
            }
        },
        IndicesSource::NoIndices { .. } => {},
    }
    proof {
        assert(cmds@ =~= old(cmds)@ + index_fence_cmds(*indices));
    }
}

/// The tessellation gate, on the live request.
fn check_patches(indices: &IndicesSource, caps: &Capabilities) -> (r: Result<
    Option<u16>,
    DrawError,
>)
    ensures
        r == patch_check(*indices, *caps),
{
    match indices.get_primitives_type() {
        PrimitiveType::Patches { vertices_per_patch } => match caps.max_patch_vertices {
            Some(max) => {
                if vertices_per_patch == 0 || vertices_per_patch as i32 > max {
                    Err(DrawError::UnsupportedVerticesPerPatch)
                } else {
                    Ok(Some(vertices_per_patch))
                }
            },
            None => Err(DrawError::TessellationNotSupported),
        },
        _ => Ok(None),
    }
}

/// Submits one draw request against a context, appending every emitted
/// device command to `cmds`.
///
/// The caller owes three machine limits: the viewport fits the device
/// (an oversized viewport is a caller error, not a recoverable
/// failure), every count fits the device's signed units, and the
/// draw-call counter has room. Everything else a request can get wrong
/// comes back as an error, with no draw submitted and the counter
/// untouched.
#[verifier::rlimit(100)]
pub fn draw(
    ctx: &mut DrawContext,
    cmds: &mut Vec<Command>,
    framebuffer: u32,
    vertex_buffers: &Vec<VerticesSource>,
    indices: &IndicesSource,
    program: u32,
    uniforms: u64,
    draw_parameters: &DrawParameters,
    dimensions: (u32, u32),
    reported_base_vertex: i32,
) -> (r: Result<(), DrawError>)
    requires
        viewport_request_wf(old(ctx).caps, draw_parameters.viewport, draw_parameters.scissor,
            dimensions.0, dimensions.1),
        request_fits_device(vertex_buffers@, *indices),
        old(ctx).state.next_draw_call_id < u64::MAX,
    ensures
        final(ctx).caps == old(ctx).caps,
        ({
            let o = draw_spec(old(ctx).state, old(ctx).queries.map(), old(ctx).caps, framebuffer,
                vertex_buffers@, *indices, program, uniforms, *draw_parameters, dimensions.0,
                dimensions.1, reported_base_vertex);
            &&& final(ctx).state == o.state
            &&& final(ctx).queries.map() == o.statuses
            &&& final(cmds)@ == old(cmds)@ + o.cmds
            &&& r == o.result
        }),
{
    let ghost s0 = ctx.state;
    let ghost q0 = ctx.queries.map();
    let ghost c0 = cmds@;
    let ghost o = draw_spec(s0, q0, ctx.caps, framebuffer, vertex_buffers@, *indices, program,
        uniforms, *draw_parameters, dimensions.0, dimensions.1, reported_base_vertex);

    // Pre-flight validation, before any command.
    if let Err(e) = validate(&ctx.caps, draw_parameters) {
        proof {
            assert(cmds@ =~= c0 + o.cmds);
        }
        return Err(e);
    }

    // Tessellation gate.
    let vertices_per_patch = match check_patches(indices, &ctx.caps) {
        Ok(v) => v,
        Err(e) => {
            proof {
                assert(cmds@ =~= c0 + o.cmds);
            }
            return Err(e);
        },
    };

    // Source reconciliation, before any state mutation.
    let counts = match reconcile(vertex_buffers) {
        Ok(c) => c,
        Err(e) => {
            proof {
                assert(cmds@ =~= c0 + o.cmds);
            }
            return Err(e);
        },
    };
    proof {
        lemma_reconcile_bounded(vertex_buffers@, i32::MAX as int);
    }

    commit(ctx, cmds, framebuffer, vertex_buffers, indices, program, uniforms, draw_parameters,
        dimensions, reported_base_vertex, vertices_per_patch, counts)
}

/// The committing half of the dispatch, on the live context, once the
/// gates have passed.
#[verifier::rlimit(100)]
fn commit(
    ctx: &mut DrawContext,
    cmds: &mut Vec<Command>,
    framebuffer: u32,
    vertex_buffers: &Vec<VerticesSource>,
    indices: &IndicesSource,
    program: u32,
    uniforms: u64,
    draw_parameters: &DrawParameters,
    dimensions: (u32, u32),
    reported_base_vertex: i32,
    vertices_per_patch: Option<u16>,
    counts: ReconciledCounts,
) -> (r: Result<(), DrawError>)
    requires
        viewport_request_wf(old(ctx).caps, draw_parameters.viewport, draw_parameters.scissor,
            dimensions.0, dimensions.1),
        counts.vertices matches Some(v) ==> v <= i32::MAX,
        counts.instances matches Some(v) ==> v <= i32::MAX,
        (match *indices {
            IndicesSource::IndexBuffer { buffer, .. } => buffer.elements_count <= i32::MAX,
            IndicesSource::MultidrawArray { buffer, .. } => buffer.elements_count <= i32::MAX,
            IndicesSource::MultidrawElement { commands, .. } => commands.elements_count
                <= i32::MAX,
            IndicesSource::NoIndices { .. } => true,
        }),
        old(ctx).state.next_draw_call_id < u64::MAX,
    ensures
        final(ctx).caps == old(ctx).caps,
        ({
            let o = draw_commit_spec(old(ctx).state, old(ctx).queries.map(), old(ctx).caps,
                framebuffer, vertex_buffers@, *indices, program, uniforms, *draw_parameters,
                dimensions.0, dimensions.1, reported_base_vertex, vertices_per_patch, counts);
            &&& final(ctx).state == o.state
            &&& final(ctx).queries.map() == o.statuses
            &&& final(cmds)@ == old(cmds)@ + o.cmds
            &&& r == o.result
        }),
{
    let ghost s0 = ctx.state;
    let ghost q0 = ctx.queries.map();
    let ghost c0 = cmds@;
    let ghost o = draw_commit_spec(s0, q0, ctx.caps, framebuffer, vertex_buffers@, *indices,
        program, uniforms, *draw_parameters, dimensions.0, dimensions.1, reported_base_vertex,
        vertices_per_patch, counts);

    // The base vertex reported by the attribute binding, usable only
    // where the selected path can carry it.
    let bv_allowed = match *indices {
        IndicesSource::MultidrawArray { .. } => false,
        IndicesSource::MultidrawElement { .. } => false,
        IndicesSource::NoIndices { .. } => true,
        IndicesSource::IndexBuffer { .. } => ctx.caps.version.at_least(Api::Gl, 3, 2)
            || ctx.caps.version.at_least(Api::GlEs, 3, 2)
            || ctx.caps.extensions.gl_arb_draw_elements_base_vertex
            || ctx.caps.extensions.gl_oes_draw_elements_base_vertex,
    };
    let base_vertex: i32 = if bv_allowed {
        reported_base_vertex
    } else {
        0
    };

    // Target, program and uniforms.
    let ghost bspec = bind_sync(s0, framebuffer, program, uniforms);
    sync_bindings(&mut ctx.state, cmds, framebuffer, program, uniforms);
    proof {
        assert(ctx.state == bspec.state);
        assert(cmds@ =~= c0 + bspec.cmds);
    }

    // Every state dimension.
    let ghost psspec = params_sync(bspec.state, q0, ctx.caps, *draw_parameters, vertices_per_patch,
        spec_primitives_of(*indices), dimensions.0, dimensions.1);
    let caps = ctx.caps;
    let sync_result = synchronize(&mut ctx.state, &mut ctx.queries, cmds, &caps, draw_parameters,
        vertices_per_patch, indices.get_primitives_type(), dimensions.0, dimensions.1);
    if let Err(e) = sync_result {
        proof {
            assert(cmds@ =~= c0 + (bspec.cmds + psspec.cmds));
            assert(cmds@ =~= c0 + o.cmds);
        }
        return Err(e);
    }
    proof {
        assert(ctx.state == psspec.state);
        assert(ctx.queries.map() == psspec.statuses);
        assert(cmds@ =~= c0 + bspec.cmds + psspec.cmds);
        // The synchronizer never touches the counter, so it still has
        // the room the precondition guarantees.
        crate::laws::lemma_params_sync_preserves_rest(bspec.state, q0, caps, *draw_parameters,
            vertices_per_patch, spec_primitives_of(*indices), dimensions.0, dimensions.1);
        assert(ctx.state.next_draw_call_id == s0.next_draw_call_id);
    }

    // The one concrete draw command.
    let ghost subspec = submission_cmds(*indices, counts, base_vertex, caps);
    let submit_result = submit(cmds, indices, counts, base_vertex, &caps);
    if let Err(e) = submit_result {
        proof {
            assert(cmds@ =~= c0 + (bspec.cmds + psspec.cmds));
            assert(cmds@ =~= c0 + o.cmds);
        }
        return Err(e);
    }
    proof {
        assert(cmds@ =~= c0 + bspec.cmds + psspec.cmds + subspec->Ok_0);
    }

    // The counter advances exactly once per successful submission.
    ctx.state.next_draw_call_id = ctx.state.next_draw_call_id + 1;

    // Fences on every externally-owned buffer the request touched.
    emit_vertex_fences(cmds, vertex_buffers);
    emit_index_fences(cmds, indices);

    proof {
        assert(cmds@ =~= c0 + bspec.cmds + psspec.cmds + subspec->Ok_0 + vertex_fence_cmds(
            vertex_buffers@) + index_fence_cmds(*indices));
        assert(o.cmds =~= bspec.cmds + psspec.cmds + subspec->Ok_0 + vertex_fence_cmds(
            vertex_buffers@) + index_fence_cmds(*indices));
        assert(cmds@ =~= c0 + o.cmds);
    }
    Ok(())
}

} // verus!
