//! Synchronization of the small rasterizer dimensions: color mask, line
//! width, point size, culling and polygon mode, multisampling,
//! dithering, rasterizer discard and the patch-vertex count. Each syncs
//! independently, emitting a command only on change.

use vstd::prelude::*;
use crate::caps::{Api, Capabilities, version_ge};
use crate::commands::Command;
use crate::glenum::{
    GL_BACK, GL_CULL_FACE, GL_DITHER, GL_FRONT, GL_FRONT_AND_BACK, GL_MULTISAMPLE,
    GL_PATCH_VERTICES, GL_RASTERIZER_DISCARD, GL_RASTERIZER_DISCARD_EXT,
};
use crate::params::{polygon_mode_glenum, BackfaceCullingMode, ColorMask, PolygonMode};
use crate::state::{emit, PolygonState, SyncOutcome};
use crate::{DrawError, Fixed};

verus! {

/// The color-mask dimension: emits the new mask on change.
pub open spec fn color_mask_sync(s: ColorMask, m: ColorMask) -> SyncOutcome<ColorMask> {
    if s != m {
        SyncOutcome::ok(m, seq![Command::ColorMask { r: m.r, g: m.g, b: m.b, a: m.a }])
    } else {
        SyncOutcome::silent(s)
    }
}

/// Synchronizes the color mask of the mirror.
pub fn sync_color_mask(state: &mut ColorMask, cmds: &mut Vec<Command>, mask: ColorMask)
    ensures
        ({
            let o = color_mask_sync(*old(state), mask);
            &&& *final(state) == o.state
            &&& final(cmds)@ == old(cmds)@ + o.cmds
            &&& o.err is None
        }),
{
    let ghost o = color_mask_sync(*state, mask);
    if *state != mask {
        emit(cmds, Command::ColorMask { r: mask.r, g: mask.g, b: mask.b, a: mask.a });
        *state = mask;
    }
    proof {
        assert(cmds@ =~= old(cmds)@ + o.cmds);
    }
}

/// The line-width dimension: a "don't care" request changes nothing.
pub open spec fn line_width_sync(s: Fixed, w: Option<Fixed>) -> SyncOutcome<Fixed> {
    match w {
        Some(width) => if s != width {
            SyncOutcome::ok(width, seq![Command::LineWidth { width }])
        } else {
            SyncOutcome::silent(s)
        },
        None => SyncOutcome::silent(s),
    }
}

/// Synchronizes the line width of the mirror.
pub fn sync_line_width(state: &mut Fixed, cmds: &mut Vec<Command>, line_width: Option<Fixed>)
    ensures
        ({
            let o = line_width_sync(*old(state), line_width);
            &&& *final(state) == o.state
            &&& final(cmds)@ == old(cmds)@ + o.cmds
            &&& o.err is None
        }),
{
    let ghost o = line_width_sync(*state, line_width);
    if let Some(width) = line_width {
        if *state != width {
            emit(cmds, Command::LineWidth { width });
            *state = width;
        }
    }
    proof {
        assert(cmds@ =~= old(cmds)@ + o.cmds);
    }
}

/// The point-size dimension: a "don't care" request changes nothing.
pub open spec fn point_size_sync(s: Fixed, p: Option<Fixed>) -> SyncOutcome<Fixed> {
    match p {
        Some(size) => if s != size {
            SyncOutcome::ok(size, seq![Command::PointSize { size }])
        } else {
            SyncOutcome::silent(s)
        },
        None => SyncOutcome::silent(s),
    }
}

/// Synchronizes the point size of the mirror.
pub fn sync_point_size(state: &mut Fixed, cmds: &mut Vec<Command>, point_size: Option<Fixed>)
    ensures
        ({
            let o = point_size_sync(*old(state), point_size);
            &&& *final(state) == o.state
            &&& final(cmds)@ == old(cmds)@ + o.cmds
            &&& o.err is None
        }),
{
    let ghost o = point_size_sync(*state, point_size);
    if let Some(size) = point_size {
        if *state != size {
            emit(cmds, Command::PointSize { size });
            *state = size;
        }
    }
    proof {
        assert(cmds@ =~= old(cmds)@ + o.cmds);
    }
}

/// The culling step. The front-face convention is never changed, so
/// culling clockwise faces selects the back face and vice versa.
pub open spec fn culling_sync(s: PolygonState, culling: BackfaceCullingMode)
    -> SyncOutcome<PolygonState> {
    match culling {
        BackfaceCullingMode::CullingDisabled => {
            if s.cull_enabled {
                SyncOutcome::ok(
                    PolygonState { cull_enabled: false, ..s },
                    seq![Command::Disable { cap: GL_CULL_FACE }],
                )
            } else {
                SyncOutcome::silent(s)
            }
        },
        BackfaceCullingMode::CullCounterClockWise => {
            let o1 = if !s.cull_enabled {
                SyncOutcome::ok(
                    PolygonState { cull_enabled: true, ..s },
                    seq![Command::Enable { cap: GL_CULL_FACE }],
                )
            } else {
                SyncOutcome::silent(s)
            };
            let o2 = if o1.state.cull_face != GL_FRONT {
                SyncOutcome::ok(
                    PolygonState { cull_face: GL_FRONT, ..o1.state },
                    seq![Command::CullFace { face: GL_FRONT }],
                )
            } else {
                SyncOutcome::silent(o1.state)
            };
            o1.and_then(o2)
        },
        BackfaceCullingMode::CullClockWise => {
            let o1 = if !s.cull_enabled {
                SyncOutcome::ok(
                    PolygonState { cull_enabled: true, ..s },
                    seq![Command::Enable { cap: GL_CULL_FACE }],
                )
            } else {
                SyncOutcome::silent(s)
            };
            let o2 = if o1.state.cull_face != GL_BACK {
                SyncOutcome::ok(
                    PolygonState { cull_face: GL_BACK, ..o1.state },
                    seq![Command::CullFace { face: GL_BACK }],
                )
            } else {
                SyncOutcome::silent(o1.state)
            };
            o1.and_then(o2)
        },
    }
}

/// The polygon-mode step.
pub open spec fn polygon_mode_sync(s: PolygonState, mode: PolygonMode)
    -> SyncOutcome<PolygonState> {
    let m = polygon_mode_glenum(mode);
    if s.mode != m {
        SyncOutcome::ok(
            PolygonState { mode: m, ..s },
            seq![Command::PolygonMode { face: GL_FRONT_AND_BACK, mode: m }],
        )
    } else {
        SyncOutcome::silent(s)
    }
}

/// The whole culling-and-polygon-mode dimension.
pub open spec fn polygon_sync(s: PolygonState, culling: BackfaceCullingMode, mode: PolygonMode)
    -> SyncOutcome<PolygonState> {
    let c = culling_sync(s, culling);
    c.and_then(polygon_mode_sync(c.state, mode))
}

/// Synchronizes culling and polygon mode of the mirror.
#[verifier::rlimit(50)]
pub fn sync_polygon_mode(
    state: &mut PolygonState,
    cmds: &mut Vec<Command>,
    backface_culling: BackfaceCullingMode,
    polygon_mode: PolygonMode,
)
    ensures
        ({
            let o = polygon_sync(*old(state), backface_culling, polygon_mode);
            &&& *final(state) == o.state
            &&& final(cmds)@ == old(cmds)@ + o.cmds
            &&& o.err is None
        }),
{
    let ghost o = polygon_sync(*state, backface_culling, polygon_mode);
    match backface_culling {
        BackfaceCullingMode::CullingDisabled => {
            if state.cull_enabled {
                emit(cmds, Command::Disable { cap: GL_CULL_FACE });
                state.cull_enabled = false;
            }
        },
        BackfaceCullingMode::CullCounterClockWise => {
            if !state.cull_enabled {
                emit(cmds, Command::Enable { cap: GL_CULL_FACE });
                state.cull_enabled = true;
            }
            if state.cull_face != GL_FRONT {
                emit(cmds, Command::CullFace { face: GL_FRONT });
                state.cull_face = GL_FRONT;
            }
        },
        BackfaceCullingMode::CullClockWise => {
            if !state.cull_enabled {
                emit(cmds, Command::Enable { cap: GL_CULL_FACE });
                state.cull_enabled = true;
            }
            if state.cull_face != GL_BACK {
                emit(cmds, Command::CullFace { face: GL_BACK });
                state.cull_face = GL_BACK;
            }
        },
    }
    let m = polygon_mode.to_glenum();
    if state.mode != m {
        emit(cmds, Command::PolygonMode { face: GL_FRONT_AND_BACK, mode: m });
        state.mode = m;
    }
    proof {
        assert(cmds@ =~= old(cmds)@ + o.cmds);
    }
}

/// The multisampling dimension.
pub open spec fn multisample_sync(s: bool, m: bool) -> SyncOutcome<bool> {
    if s != m {
        SyncOutcome::ok(
            m,
            if m {
                seq![Command::Enable { cap: GL_MULTISAMPLE }]
            } else {
                seq![Command::Disable { cap: GL_MULTISAMPLE }]
            },
        )
    } else {
        SyncOutcome::silent(s)
    }
}

/// Synchronizes multisampling of the mirror.
pub fn sync_multisampling(state: &mut bool, cmds: &mut Vec<Command>, multisampling: bool)
    ensures
        ({
            let o = multisample_sync(*old(state), multisampling);
            &&& *final(state) == o.state
            &&& final(cmds)@ == old(cmds)@ + o.cmds
            &&& o.err is None
        }),
{
    let ghost o = multisample_sync(*state, multisampling);
    if *state != multisampling {
        if multisampling {
            emit(cmds, Command::Enable { cap: GL_MULTISAMPLE });
        } else {
            emit(cmds, Command::Disable { cap: GL_MULTISAMPLE });
        }
        *state = multisampling;
    }
    proof {
        assert(cmds@ =~= old(cmds)@ + o.cmds);
    }
}

/// The dithering dimension.
pub open spec fn dither_sync(s: bool, d: bool) -> SyncOutcome<bool> {
    if s != d {
        SyncOutcome::ok(
            d,
            if d {
                seq![Command::Enable { cap: GL_DITHER }]
            } else {
                seq![Command::Disable { cap: GL_DITHER }]
            },
        )
    } else {
        SyncOutcome::silent(s)
    }
}

/// Synchronizes dithering of the mirror.
pub fn sync_dithering(state: &mut bool, cmds: &mut Vec<Command>, dithering: bool)
    ensures
        ({
            let o = dither_sync(*old(state), dithering);
            &&& *final(state) == o.state
            &&& final(cmds)@ == old(cmds)@ + o.cmds
            &&& o.err is None
        }),
{
    let ghost o = dither_sync(*state, dithering);
    if *state != dithering {
        if dithering {
            emit(cmds, Command::Enable { cap: GL_DITHER });
        } else {
            emit(cmds, Command::Disable { cap: GL_DITHER });
        }
        *state = dithering;
    }
    proof {
        assert(cmds@ =~= old(cmds)@ + o.cmds);
    }
}

/// Whether the device has a command path for rasterizer discard: the
/// core toggle from the high enough desktop version, or the numerically
/// identical toggle of the transform-feedback extension.
pub open spec fn rasterizer_discard_core(caps: Capabilities) -> bool {
    version_ge(caps.version, Api::Gl, 3, 0)
}

/// Whether the transform-feedback extension's toggle is available.
pub open spec fn rasterizer_discard_ext(caps: Capabilities) -> bool {
    caps.extensions.gl_ext_transform_feedback
}

/// The rasterizer-discard dimension: discard is on iff primitives are
/// not drawn. Fails when a change is needed and no command path exists.
pub open spec fn rasterizer_discard_sync(s: bool, caps: Capabilities, draw_primitives: bool)
    -> SyncOutcome<bool> {
    if s == draw_primitives {
        if rasterizer_discard_core(caps) {
            SyncOutcome::ok(
                !draw_primitives,
                if draw_primitives {
                    seq![Command::Disable { cap: GL_RASTERIZER_DISCARD }]
                } else {
                    seq![Command::Enable { cap: GL_RASTERIZER_DISCARD }]
                },
            )
        } else if rasterizer_discard_ext(caps) {
            SyncOutcome::ok(
                !draw_primitives,
                if draw_primitives {
                    seq![Command::Disable { cap: GL_RASTERIZER_DISCARD_EXT }]
                } else {
                    seq![Command::Enable { cap: GL_RASTERIZER_DISCARD_EXT }]
                },
            )
        } else {
            SyncOutcome::fail(s, Seq::empty(), DrawError::RasterizerDiscardNotSupported)
        }
    } else {
        SyncOutcome::silent(s)
    }
}

/// Synchronizes rasterizer discard of the mirror.
pub fn sync_rasterizer_discard(
    state: &mut bool,
    cmds: &mut Vec<Command>,
    caps: &Capabilities,
    draw_primitives: bool,
) -> (r: Result<(), DrawError>)
    ensures
        ({
            let o = rasterizer_discard_sync(*old(state), *caps, draw_primitives);
            &&& *final(state) == o.state
            &&& final(cmds)@ == old(cmds)@ + o.cmds
            &&& (r is Ok <==> o.err is None)
            &&& (r matches Err(e) ==> o.err == Some(e))
        }),
{
    let ghost o = rasterizer_discard_sync(*state, *caps, draw_primitives);
    if *state == draw_primitives {
        if caps.version.at_least(Api::Gl, 3, 0) {
            if draw_primitives {
                emit(cmds, Command::Disable { cap: GL_RASTERIZER_DISCARD });
            } else {
                emit(cmds, Command::Enable { cap: GL_RASTERIZER_DISCARD });
            }
            *state = !draw_primitives;
        } else if caps.extensions.gl_ext_transform_feedback {
            if draw_primitives {
                emit(cmds, Command::Disable { cap: GL_RASTERIZER_DISCARD_EXT });
            } else {
                emit(cmds, Command::Enable { cap: GL_RASTERIZER_DISCARD_EXT });
            }
            *state = !draw_primitives;
        } else {
            proof {
                assert(cmds@ =~= old(cmds)@ + o.cmds);
            }
            return Err(DrawError::RasterizerDiscardNotSupported);
        }
    }
    proof {
        assert(cmds@ =~= old(cmds)@ + o.cmds);
    }
    Ok(())
}

/// The patch-vertex dimension: nothing happens for a non-patch draw.
pub open spec fn patch_vertices_sync(s: i32, vertices_per_patch: Option<u16>)
    -> SyncOutcome<i32> {
    match vertices_per_patch {
        Some(v) => if s != v as i32 {
            SyncOutcome::ok(
                v as i32,
                seq![Command::PatchParameter { pname: GL_PATCH_VERTICES, value: v as i32 }],
            )
        } else {
            SyncOutcome::silent(s)
        },
        None => SyncOutcome::silent(s),
    }
}

/// Synchronizes the patch-vertex count of the mirror.
pub fn sync_vertices_per_patch(
    state: &mut i32,
    cmds: &mut Vec<Command>,
    vertices_per_patch: Option<u16>,
)
    ensures
        ({
            let o = patch_vertices_sync(*old(state), vertices_per_patch);
            &&& *final(state) == o.state
            &&& final(cmds)@ == old(cmds)@ + o.cmds
            &&& o.err is None
        }),
{
    let ghost o = patch_vertices_sync(*state, vertices_per_patch);
    if let Some(v) = vertices_per_patch {
        let v32: i32 = v as i32;
        if *state != v32 {
            emit(cmds, Command::PatchParameter { pname: GL_PATCH_VERTICES, value: v32 });
            *state = v32;
        }
    }
    proof {
        assert(cmds@ =~= old(cmds)@ + o.cmds);
    }
}

} // verus!
