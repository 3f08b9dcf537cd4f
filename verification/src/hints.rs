//! Synchronization of the smoothing, provoking-vertex and primitive
//! bounding-box dimensions, each with its own capability fallback.

use vstd::prelude::*;
use crate::caps::{Api, Capabilities, version_ge};
use crate::commands::{BoundingBoxPath, Command, EntryPath};
use crate::glenum::{
    GL_LINE_SMOOTH, GL_LINE_SMOOTH_HINT, GL_POLYGON_SMOOTH, GL_POLYGON_SMOOTH_HINT,
};
use crate::index::{is_line_primitive, PrimitiveType};
use crate::params::{provoking_vertex_glenum, smooth_glenum, BoundingBox, ProvokingVertex, Smooth};
use crate::state::{emit, SmoothState, SyncOutcome};
use crate::DrawError;

verus! {

/// Whether the device supports smoothing at all; only the desktop
/// family does.
pub open spec fn smoothing_supported(caps: Capabilities) -> bool {
    version_ge(caps.version, Api::Gl, 1, 0)
}

/// The smoothing dimension. Point primitives cannot be smoothed; line
/// primitives toggle the line enable-and-hint pair, every other
/// topology the polygon pair. Disabling only toggles, never hints.
pub open spec fn smooth_sync(
    s: SmoothState,
    caps: Capabilities,
    smooth: Option<Smooth>,
    primitives: PrimitiveType,
) -> SyncOutcome<SmoothState> {
    match smooth {
        Some(quality) => {
            if !smoothing_supported(caps) {
                SyncOutcome::fail(s, Seq::empty(), DrawError::SmoothingNotSupported)
            } else if primitives == PrimitiveType::Points {
                SyncOutcome::fail(s, Seq::empty(), DrawError::SmoothingNotSupported)
            } else if is_line_primitive(primitives) {
                let hint = smooth_glenum(quality);
                let o1 = if !s.line_enabled {
                    SyncOutcome::ok(
                        SmoothState { line_enabled: true, ..s },
                        seq![Command::Enable { cap: GL_LINE_SMOOTH }],
                    )
                } else {
                    SyncOutcome::silent(s)
                };
                let o2 = if o1.state.line_hint != hint {
                    SyncOutcome::ok(
                        SmoothState { line_hint: hint, ..o1.state },
                        seq![Command::Hint { target: GL_LINE_SMOOTH_HINT, mode: hint }],
                    )
                } else {
                    SyncOutcome::silent(o1.state)
                };
                o1.and_then(o2)
            } else {
                let hint = smooth_glenum(quality);
                let o1 = if !s.polygon_enabled {
                    SyncOutcome::ok(
                        SmoothState { polygon_enabled: true, ..s },
                        seq![Command::Enable { cap: GL_POLYGON_SMOOTH }],
                    )
                } else {
                    SyncOutcome::silent(s)
                };
                let o2 = if o1.state.polygon_hint != hint {
                    SyncOutcome::ok(
                        SmoothState { polygon_hint: hint, ..o1.state },
                        seq![Command::Hint { target: GL_POLYGON_SMOOTH_HINT, mode: hint }],
                    )
                } else {
                    SyncOutcome::silent(o1.state)
                };
                o1.and_then(o2)
            }
        },
        None => {
            if primitives == PrimitiveType::Points {
                SyncOutcome::silent(s)
            } else if is_line_primitive(primitives) {
                if s.line_enabled {
                    SyncOutcome::ok(
                        SmoothState { line_enabled: false, ..s },
                        seq![Command::Disable { cap: GL_LINE_SMOOTH }],
                    )
                } else {
                    SyncOutcome::silent(s)
                }
            } else {
                if s.polygon_enabled {
                    SyncOutcome::ok(
                        SmoothState { polygon_enabled: false, ..s },
                        seq![Command::Disable { cap: GL_POLYGON_SMOOTH }],
                    )
                } else {
                    SyncOutcome::silent(s)
                }
            }
        },
    }
}

/// Synchronizes the smoothing dimension of the mirror.
#[verifier::rlimit(50)]
pub fn sync_smooth(
    state: &mut SmoothState,
    cmds: &mut Vec<Command>,
    caps: &Capabilities,
    smooth: Option<Smooth>,
    primitive_type: PrimitiveType,
) -> (r: Result<(), DrawError>)
    ensures
        ({
            let o = smooth_sync(*old(state), *caps, smooth, primitive_type);
            &&& *final(state) == o.state
            &&& final(cmds)@ == old(cmds)@ + o.cmds
            &&& (r is Ok <==> o.err is None)
            &&& (r matches Err(e) ==> o.err == Some(e))
        }),
{
    let ghost o = smooth_sync(*state, *caps, smooth, primitive_type);
    let line_class = match primitive_type {
        PrimitiveType::LinesList => true,
        PrimitiveType::LinesListAdjacency => true,
        PrimitiveType::LineStrip => true,
        PrimitiveType::LineStripAdjacency => true,
        PrimitiveType::LineLoop => true,
        _ => false,
    };
    if let Some(quality) = smooth {
        if !caps.version.at_least(Api::Gl, 1, 0) {
            proof {
                assert(cmds@ =~= old(cmds)@ + o.cmds);
            }
            return Err(DrawError::SmoothingNotSupported);
        }
        if primitive_type == PrimitiveType::Points {
            proof {
                assert(cmds@ =~= old(cmds)@ + o.cmds);
            }
            return Err(DrawError::SmoothingNotSupported);
        }
        let hint = quality.to_glenum();
        if line_class {
            if !state.line_enabled {
                emit(cmds, Command::Enable { cap: GL_LINE_SMOOTH });
                state.line_enabled = true;
            }
            if state.line_hint != hint {
                emit(cmds, Command::Hint { target: GL_LINE_SMOOTH_HINT, mode: hint });
                state.line_hint = hint;
            }
        } else {
            if !state.polygon_enabled {
                emit(cmds, Command::Enable { cap: GL_POLYGON_SMOOTH });
                state.polygon_enabled = true;
            }
            if state.polygon_hint != hint {
                emit(cmds, Command::Hint { target: GL_POLYGON_SMOOTH_HINT, mode: hint });
                state.polygon_hint = hint;
            }
        }
    } else {
        if primitive_type == PrimitiveType::Points {
        } else if line_class {
            if state.line_enabled {
                emit(cmds, Command::Disable { cap: GL_LINE_SMOOTH });
                state.line_enabled = false;
            }
        } else {
            if state.polygon_enabled {
                emit(cmds, Command::Disable { cap: GL_POLYGON_SMOOTH });
                state.polygon_enabled = false;
            }
        }
    }
    proof {
        assert(cmds@ =~= old(cmds)@ + o.cmds);
    }
    Ok(())
}

/// Whether the device has the core provoking-vertex command path.
pub open spec fn provoking_vertex_core(caps: Capabilities) -> bool {
    version_ge(caps.version, Api::Gl, 3, 2) || caps.extensions.gl_arb_provoking_vertex
}

/// Whether the device has the extension provoking-vertex command path.
pub open spec fn provoking_vertex_ext(caps: Capabilities) -> bool {
    caps.extensions.gl_ext_provoking_vertex
}

/// The provoking-vertex dimension: emits the convention on change,
/// preferring the core path over the extension path; fails when a
/// change is needed and neither path exists.
pub open spec fn provoking_vertex_sync(s: u32, caps: Capabilities, value: ProvokingVertex)
    -> SyncOutcome<u32> {
    let convention = provoking_vertex_glenum(value);
    if s == convention {
        SyncOutcome::silent(s)
    } else if provoking_vertex_core(caps) {
        SyncOutcome::ok(
            convention,
            seq![Command::ProvokingVertex { path: EntryPath::Core, convention }],
        )
    } else if provoking_vertex_ext(caps) {
        SyncOutcome::ok(
            convention,
            seq![Command::ProvokingVertex { path: EntryPath::Ext, convention }],
        )
    } else {
        SyncOutcome::fail(s, Seq::empty(), DrawError::ProvokingVertexNotSupported)
    }
}

/// Synchronizes the provoking-vertex convention of the mirror.
pub fn sync_provoking_vertex(
    state: &mut u32,
    cmds: &mut Vec<Command>,
    caps: &Capabilities,
    value: ProvokingVertex,
) -> (r: Result<(), DrawError>)
    ensures
        ({
            let o = provoking_vertex_sync(*old(state), *caps, value);
            &&& *final(state) == o.state
            &&& final(cmds)@ == old(cmds)@ + o.cmds
            &&& (r is Ok <==> o.err is None)
            &&& (r matches Err(e) ==> o.err == Some(e))
        }),
{
    let ghost o = provoking_vertex_sync(*state, *caps, value);
    let convention = match value {
        ProvokingVertex::LastVertex => crate::glenum::GL_LAST_VERTEX_CONVENTION,
        ProvokingVertex::FirstVertex => crate::glenum::GL_FIRST_VERTEX_CONVENTION,
    };
    if *state == convention {
        proof {
            assert(cmds@ =~= old(cmds)@ + o.cmds);
        }
        return Ok(());
    }
    if caps.version.at_least(Api::Gl, 3, 2) || caps.extensions.gl_arb_provoking_vertex {
        emit(cmds, Command::ProvokingVertex { path: EntryPath::Core, convention });
        *state = convention;
    } else if caps.extensions.gl_ext_provoking_vertex {
        emit(cmds, Command::ProvokingVertex { path: EntryPath::Ext, convention });
        *state = convention;
    } else {
        proof {
            assert(cmds@ =~= old(cmds)@ + o.cmds);
        }
        return Err(DrawError::ProvokingVertexNotSupported);
    }
    proof {
        assert(cmds@ =~= old(cmds)@ + o.cmds);
    }
    Ok(())
}

/// The bounding-box command path a capability profile selects, in
/// preference order: the embedded core path, then the compatibility,
/// embedded and vendor extensions; `None` when the device has none.
pub open spec fn bounding_box_path(caps: Capabilities) -> Option<BoundingBoxPath> {
    if version_ge(caps.version, Api::GlEs, 3, 2) {
        Some(BoundingBoxPath::Core)
    } else if caps.extensions.gl_arb_es3_2_compatibility {
        Some(BoundingBoxPath::Arb)
    } else if caps.extensions.gl_oes_primitive_bounding_box {
        Some(BoundingBoxPath::Oes)
    } else if caps.extensions.gl_ext_primitive_bounding_box {
        Some(BoundingBoxPath::Ext)
    } else {
        None
    }
}

/// The bounding-box dimension: a pure optimization, so a device without
/// any command path ignores the request rather than failing; the mirror
/// then keeps its old value.
pub open spec fn bounding_box_sync(s: BoundingBox, caps: Capabilities, bb: BoundingBox)
    -> SyncOutcome<BoundingBox> {
    if s == bb {
        SyncOutcome::silent(s)
    } else {
        match bounding_box_path(caps) {
            Some(path) => SyncOutcome::ok(
                bb,
                seq![
                    Command::PrimitiveBoundingBox {
                        path,
                        min_x: bb.x_start,
                        min_y: bb.y_start,
                        min_z: bb.z_start,
                        min_w: bb.w_start,
                        max_x: bb.x_end,
                        max_y: bb.y_end,
                        max_z: bb.z_end,
                        max_w: bb.w_end,
                    },
                ],
            ),
            None => SyncOutcome::silent(s),
        }
    }
}

/// Synchronizes the primitive bounding box of the mirror.
pub fn sync_primitive_bounding_box(
    state: &mut BoundingBox,
    cmds: &mut Vec<Command>,
    caps: &Capabilities,
    bb: &BoundingBox,
)
    ensures
        ({
            let o = bounding_box_sync(*old(state), *caps, *bb);
            &&& *final(state) == o.state
            &&& final(cmds)@ == old(cmds)@ + o.cmds
            &&& o.err is None
        }),
{
    let ghost o = bounding_box_sync(*state, *caps, *bb);
    if *state == *bb {
        proof {
            assert(cmds@ =~= old(cmds)@ + o.cmds);
        }
        return;
    }
    let path = if caps.version.at_least(Api::GlEs, 3, 2) {
        Some(BoundingBoxPath::Core)
    } else if caps.extensions.gl_arb_es3_2_compatibility {
        Some(BoundingBoxPath::Arb)
    } else if caps.extensions.gl_oes_primitive_bounding_box {
        Some(BoundingBoxPath::Oes)
    } else if caps.extensions.gl_ext_primitive_bounding_box {
        Some(BoundingBoxPath::Ext)
    } else {
        None
    };
    if let Some(path) = path {
        emit(cmds, Command::PrimitiveBoundingBox {
            path,
            min_x: bb.x_start,
            min_y: bb.y_start,
            min_z: bb.z_start,
            min_w: bb.w_start,
            max_x: bb.x_end,
            max_y: bb.y_end,
            max_z: bb.z_end,
            max_w: bb.w_end,
        });
        *state = *bb;
    }
    proof {
        assert(cmds@ =~= old(cmds)@ + o.cmds);
    }
}

} // verus!
