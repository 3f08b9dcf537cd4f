//! Synchronization of the viewport and scissor dimension. Oversized
//! viewports are a caller error, not a recoverable failure: the bounds
//! checks against the device limits are preconditions here.

use vstd::prelude::*;
use crate::caps::Capabilities;
use crate::commands::Command;
use crate::glenum::GL_SCISSOR_TEST;
use crate::state::{emit, SyncOutcome, ViewportBox, ViewportScissorState};
use crate::Rect;

verus! {

/// Whether a rectangle's fields survive the conversion into the
/// device's signed units.
pub open spec fn rect_fits_device(r: Rect) -> bool {
    &&& r.left <= i32::MAX
    &&& r.bottom <= i32::MAX
    &&& r.width <= i32::MAX
    &&& r.height <= i32::MAX
}

/// The device box a rectangle maps to.
pub open spec fn box_of_rect(r: Rect) -> ViewportBox {
    ViewportBox {
        x: r.left as i32,
        y: r.bottom as i32,
        width: r.width as i32,
        height: r.height as i32,
    }
}

/// The viewport a request resolves to: the given rectangle, or the
/// whole surface when none is given.
pub open spec fn target_viewport(
    viewport: Option<Rect>,
    surface_width: u32,
    surface_height: u32,
) -> ViewportBox {
    match viewport {
        Some(r) => box_of_rect(r),
        None => ViewportBox {
            x: 0,
            y: 0,
            width: surface_width as i32,
            height: surface_height as i32,
        },
    }
}

/// What a viewport request must satisfy before it reaches the device:
/// the effective viewport lies within the device limits and fits the
/// device's signed units, as does a scissor rectangle if one is given.
pub open spec fn viewport_request_wf(
    caps: Capabilities,
    viewport: Option<Rect>,
    scissor: Option<Rect>,
    surface_width: u32,
    surface_height: u32,
) -> bool {
    &&& match viewport {
        Some(r) => r.width <= caps.max_viewport_width && r.height <= caps.max_viewport_height
            && rect_fits_device(r),
        None => surface_width <= caps.max_viewport_width
            && surface_height <= caps.max_viewport_height && surface_width <= i32::MAX
            && surface_height <= i32::MAX,
    }
    &&& match scissor {
        Some(r) => rect_fits_device(r),
        None => true,
    }
}

/// The viewport step: emits the effective viewport on change.
pub open spec fn viewport_sync(
    s: ViewportScissorState,
    viewport: Option<Rect>,
    surface_width: u32,
    surface_height: u32,
) -> SyncOutcome<ViewportScissorState> {
    let target = target_viewport(viewport, surface_width, surface_height);
    if s.viewport != Some(target) {
        SyncOutcome::ok(
            ViewportScissorState { viewport: Some(target), ..s },
            seq![
                Command::Viewport {
                    x: target.x,
                    y: target.y,
                    width: target.width,
                    height: target.height,
                },
            ],
        )
    } else {
        SyncOutcome::silent(s)
    }
}

/// The scissor step: with a rectangle, sync the box and make sure the
/// scissor test is on; without one, only turn the test off.
pub open spec fn scissor_sync(s: ViewportScissorState, scissor: Option<Rect>)
    -> SyncOutcome<ViewportScissorState> {
    match scissor {
        Some(r) => {
            let target = box_of_rect(r);
            let o1 = if s.scissor != Some(target) {
                SyncOutcome::ok(
                    ViewportScissorState { scissor: Some(target), ..s },
                    seq![
                        Command::Scissor {
                            x: target.x,
                            y: target.y,
                            width: target.width,
                            height: target.height,
                        },
                    ],
                )
            } else {
                SyncOutcome::silent(s)
            };
            let o2 = if !o1.state.scissor_test_enabled {
                SyncOutcome::ok(
                    ViewportScissorState { scissor_test_enabled: true, ..o1.state },
                    seq![Command::Enable { cap: GL_SCISSOR_TEST }],
                )
            } else {
                SyncOutcome::silent(o1.state)
            };
            o1.and_then(o2)
        },
        None => {
            if s.scissor_test_enabled {
                SyncOutcome::ok(
                    ViewportScissorState { scissor_test_enabled: false, ..s },
                    seq![Command::Disable { cap: GL_SCISSOR_TEST }],
                )
            } else {
                SyncOutcome::silent(s)
            }
        },
    }
}

/// The whole viewport-and-scissor dimension.
pub open spec fn viewport_scissor_sync(
    s: ViewportScissorState,
    viewport: Option<Rect>,
    scissor: Option<Rect>,
    surface_width: u32,
    surface_height: u32,
) -> SyncOutcome<ViewportScissorState> {
    let v = viewport_sync(s, viewport, surface_width, surface_height);
    v.and_then(scissor_sync(v.state, scissor))
}

/// Synchronizes the viewport and scissor dimension of the mirror.
#[verifier::rlimit(50)]
pub fn sync_viewport_scissor(
    state: &mut ViewportScissorState,
    cmds: &mut Vec<Command>,
    caps: &Capabilities,
    viewport: Option<Rect>,
    scissor: Option<Rect>,
    surface_width: u32,
    surface_height: u32,
)
    requires
        viewport_request_wf(*caps, viewport, scissor, surface_width, surface_height),
    ensures
        ({
            let o = viewport_scissor_sync(*old(state), viewport, scissor, surface_width,
                surface_height);
            &&& *final(state) == o.state
            &&& final(cmds)@ == old(cmds)@ + o.cmds
            &&& o.err is None
        }),
{
    let ghost o = viewport_scissor_sync(*state, viewport, scissor, surface_width, surface_height);

    let target = match viewport {
        Some(r) => ViewportBox {
            x: r.left as i32,
            y: r.bottom as i32,
            width: r.width as i32,
            height: r.height as i32,
        },
        None => ViewportBox {
            x: 0,
            y: 0,
            width: surface_width as i32,
            height: surface_height as i32,
        },
    };
    let matches_cached = match state.viewport {
        Some(v) => v == target,
        None => false,
    };
    if !matches_cached {
        emit(cmds, Command::Viewport {
            x: target.x,
            y: target.y,
            width: target.width,
            height: target.height,
        });
        state.viewport = Some(target);
    }

    match scissor {
        Some(r) => {
            let starget = ViewportBox {
                x: r.left as i32,
                y: r.bottom as i32,
                width: r.width as i32,
                height: r.height as i32,
            };
            let scissor_cached = match state.scissor {
                Some(v) => v == starget,
                None => false,
            };
            if !scissor_cached {
                emit(cmds, Command::Scissor {
                    x: starget.x,
                    y: starget.y,
                    width: starget.width,
                    height: starget.height,
                });
                state.scissor = Some(starget);
            }
            if !state.scissor_test_enabled {
                emit(cmds, Command::Enable { cap: GL_SCISSOR_TEST });
                state.scissor_test_enabled = true;
            }
        },
        None => {
            if state.scissor_test_enabled {
                emit(cmds, Command::Disable { cap: GL_SCISSOR_TEST });
                state.scissor_test_enabled = false;
            }
        },
    }

    proof {
        assert(cmds@ =~= old(cmds)@ + o.cmds);
    }
}

} // verus!
