//! Synchronization of the depth dimension: clamp flags, range, test
//! function and write mask.

use vstd::prelude::*;
use crate::caps::{Api, Capabilities, version_ge};
use crate::commands::Command;
use crate::glenum::{GL_DEPTH_CLAMP, GL_DEPTH_CLAMP_FAR_AMD, GL_DEPTH_CLAMP_NEAR_AMD, GL_DEPTH_TEST};
use crate::params::{depth_test_glenum, DepthClamp, DepthRange, DepthTest};
use crate::state::{emit, DepthState, SyncOutcome};
use crate::DrawError;

verus! {

/// Whether the device has a command path for the combined depth clamp:
/// a high enough desktop version, or one of the two clamp extensions.
pub open spec fn combined_depth_clamp_supported(caps: Capabilities) -> bool {
    ||| version_ge(caps.version, Api::Gl, 3, 0)
    ||| caps.extensions.gl_arb_depth_clamp
    ||| caps.extensions.gl_nv_depth_clamp
}

/// Whether the device has command paths for clamping the near and far
/// ends separately; only the vendor extension offers them.
pub open spec fn separate_depth_clamp_supported(caps: Capabilities) -> bool {
    caps.extensions.gl_amd_depth_clamp_separate
}

/// The clamp step: reconciles the two mirrored clamp flags with the
/// requested mode. A split clamp on a device without the vendor
/// extension fails rather than being coalesced into the combined clamp.
pub open spec fn depth_clamp_sync(s: DepthState, caps: Capabilities, clamp: DepthClamp)
    -> SyncOutcome<DepthState> {
    match clamp {
        DepthClamp::NoClamp => {
            if !s.clamp_near && !s.clamp_far {
                SyncOutcome::silent(s)
            } else if combined_depth_clamp_supported(caps) {
                SyncOutcome::ok(
                    DepthState { clamp_near: false, clamp_far: false, ..s },
                    seq![Command::Disable { cap: GL_DEPTH_CLAMP }],
                )
            } else {
                SyncOutcome::fail(s, Seq::empty(), DrawError::DepthClampNotSupported)
            }
        },
        DepthClamp::Clamp => {
            if s.clamp_near && s.clamp_far {
                SyncOutcome::silent(s)
            } else if combined_depth_clamp_supported(caps) {
                SyncOutcome::ok(
                    DepthState { clamp_near: true, clamp_far: true, ..s },
                    seq![Command::Enable { cap: GL_DEPTH_CLAMP }],
                )
            } else {
                SyncOutcome::fail(s, Seq::empty(), DrawError::DepthClampNotSupported)
            }
        },
        DepthClamp::ClampNear => {
            if s.clamp_near && !s.clamp_far {
                SyncOutcome::silent(s)
            } else if !separate_depth_clamp_supported(caps) {
                SyncOutcome::fail(s, Seq::empty(), DrawError::DepthClampNotSupported)
            } else if s.clamp_near {
                SyncOutcome::ok(
                    DepthState { clamp_far: false, ..s },
                    seq![Command::Disable { cap: GL_DEPTH_CLAMP_FAR_AMD }],
                )
            } else {
                SyncOutcome::ok(
                    DepthState { clamp_near: true, clamp_far: false, ..s },
                    if s.clamp_far {
                        seq![
                            Command::Enable { cap: GL_DEPTH_CLAMP_NEAR_AMD },
                            Command::Disable { cap: GL_DEPTH_CLAMP_FAR_AMD },
                        ]
                    } else {
                        seq![Command::Enable { cap: GL_DEPTH_CLAMP_NEAR_AMD }]
                    },
                )
            }
        },
        DepthClamp::ClampFar => {
            if !s.clamp_near && s.clamp_far {
                SyncOutcome::silent(s)
            } else if !separate_depth_clamp_supported(caps) {
                SyncOutcome::fail(s, Seq::empty(), DrawError::DepthClampNotSupported)
            } else if s.clamp_far {
                SyncOutcome::ok(
                    DepthState { clamp_near: false, ..s },
                    seq![Command::Disable { cap: GL_DEPTH_CLAMP_NEAR_AMD }],
                )
            } else {
                SyncOutcome::ok(
                    DepthState { clamp_near: false, clamp_far: true, ..s },
                    if s.clamp_near {
                        seq![
                            Command::Enable { cap: GL_DEPTH_CLAMP_FAR_AMD },
                            Command::Disable { cap: GL_DEPTH_CLAMP_NEAR_AMD },
                        ]
                    } else {
                        seq![Command::Enable { cap: GL_DEPTH_CLAMP_FAR_AMD }]
                    },
                )
            }
        },
    }
}

/// The range step: emits the new range exactly when it differs from the
/// mirrored one.
pub open spec fn depth_range_sync(s: DepthState, range: DepthRange) -> SyncOutcome<DepthState> {
    if range == s.range {
        SyncOutcome::silent(s)
    } else {
        SyncOutcome::ok(
            DepthState { range, ..s },
            seq![Command::DepthRange { near: range.near, far: range.far }],
        )
    }
}

/// Whether a depth request collapses to a single disable: an
/// always-overwrite test with writes off needs no depth test at all.
pub open spec fn depth_test_collapses(test: DepthTest, write: bool) -> bool {
    test == DepthTest::Overwrite && !write
}

/// The test-and-mask step: either collapse to a disabled depth test, or
/// make sure the test is enabled and sync the comparison function and
/// the write mask, each only on change.
pub open spec fn depth_test_mask_sync(s: DepthState, test: DepthTest, write: bool)
    -> SyncOutcome<DepthState> {
    if depth_test_collapses(test, write) {
        if s.test_enabled {
            SyncOutcome::ok(
                DepthState { test_enabled: false, ..s },
                seq![Command::Disable { cap: GL_DEPTH_TEST }],
            )
        } else {
            SyncOutcome::silent(s)
        }
    } else {
        let o1 = if !s.test_enabled {
            SyncOutcome::ok(
                DepthState { test_enabled: true, ..s },
                seq![Command::Enable { cap: GL_DEPTH_TEST }],
            )
        } else {
            SyncOutcome::silent(s)
        };
        let func = depth_test_glenum(test);
        let o2 = if o1.state.func != func {
            SyncOutcome::ok(DepthState { func, ..o1.state }, seq![Command::DepthFunc { func }])
        } else {
            SyncOutcome::silent(o1.state)
        };
        let o3 = if o2.state.mask != write {
            SyncOutcome::ok(
                DepthState { mask: write, ..o2.state },
                seq![Command::DepthMask { write }],
            )
        } else {
            SyncOutcome::silent(o2.state)
        };
        o1.and_then(o2.and_then(o3))
    }
}

/// The whole depth dimension: clamp flags, then range, then test and
/// write mask. Only the clamp step can fail; the range is synchronized
/// before the collapse decision, so it is pinned even for a collapsed
/// request.
pub open spec fn depth_sync(
    s: DepthState,
    caps: Capabilities,
    test: DepthTest,
    write: bool,
    range: DepthRange,
    clamp: DepthClamp,
) -> SyncOutcome<DepthState> {
    let c = depth_clamp_sync(s, caps, clamp);
    let r = depth_range_sync(c.state, range);
    let t = depth_test_mask_sync(r.state, test, write);
    c.and_then(r.and_then(t))
}

/// The clamp step, on the live mirror.
fn sync_depth_clamp(
    state: &mut DepthState,
    cmds: &mut Vec<Command>,
    caps: &Capabilities,
    depth_clamp: DepthClamp,
) -> (r: Result<(), DrawError>)
    ensures
        ({
            let o = depth_clamp_sync(*old(state), *caps, depth_clamp);
            &&& *final(state) == o.state
            &&& final(cmds)@ == old(cmds)@ + o.cmds
            &&& (r is Ok <==> o.err is None)
            &&& (r matches Err(e) ==> o.err == Some(e))
        }),
{
    let ghost o = depth_clamp_sync(*state, *caps, depth_clamp);
    let combined = caps.version.at_least(Api::Gl, 3, 0) || caps.extensions.gl_arb_depth_clamp
        || caps.extensions.gl_nv_depth_clamp;
    let separate = caps.extensions.gl_amd_depth_clamp_separate;
    match depth_clamp {
        DepthClamp::NoClamp => {
            if state.clamp_near || state.clamp_far {
                if combined {
                    emit(cmds, Command::Disable { cap: GL_DEPTH_CLAMP });
                    state.clamp_near = false;
                    state.clamp_far = false;
                } else {
                    proof {
                        assert(cmds@ =~= old(cmds)@ + o.cmds);
                    }
                    return Err(DrawError::DepthClampNotSupported);
                }
            }
        },
        DepthClamp::Clamp => {
            if !(state.clamp_near && state.clamp_far) {
                if combined {
                    emit(cmds, Command::Enable { cap: GL_DEPTH_CLAMP });
                    state.clamp_near = true;
                    state.clamp_far = true;
                } else {
                    proof {
                        assert(cmds@ =~= old(cmds)@ + o.cmds);
                    }
                    return Err(DrawError::DepthClampNotSupported);
                }
            }
        },
        DepthClamp::ClampNear => {
            if !(state.clamp_near && !state.clamp_far) {
                if !separate {
                    proof {
                        assert(cmds@ =~= old(cmds)@ + o.cmds);
                    }
                    return Err(DrawError::DepthClampNotSupported);
                }
                if state.clamp_near {
                    emit(cmds, Command::Disable { cap: GL_DEPTH_CLAMP_FAR_AMD });
                    state.clamp_far = false;
                } else {
                    emit(cmds, Command::Enable { cap: GL_DEPTH_CLAMP_NEAR_AMD });
                    if state.clamp_far {
                        emit(cmds, Command::Disable { cap: GL_DEPTH_CLAMP_FAR_AMD });
                    }
                    state.clamp_near = true;
                    state.clamp_far = false;
                }
            }
        },
        DepthClamp::ClampFar => {
            if !(!state.clamp_near && state.clamp_far) {
                if !separate {
                    proof {
                        assert(cmds@ =~= old(cmds)@ + o.cmds);
                    }
                    return Err(DrawError::DepthClampNotSupported);
                }
                if state.clamp_far {
                    emit(cmds, Command::Disable { cap: GL_DEPTH_CLAMP_NEAR_AMD });
                    state.clamp_near = false;
                } else {
                    emit(cmds, Command::Enable { cap: GL_DEPTH_CLAMP_FAR_AMD });
                    if state.clamp_near {
                        emit(cmds, Command::Disable { cap: GL_DEPTH_CLAMP_NEAR_AMD });
                    }
                    state.clamp_near = false;
                    state.clamp_far = true;
                }
            }
        },
    }
    proof {
        assert(cmds@ =~= old(cmds)@ + o.cmds);
    }
    Ok(())
}

/// The range step, on the live mirror.
fn sync_depth_range(state: &mut DepthState, cmds: &mut Vec<Command>, depth_range: DepthRange)
    ensures
        ({
            let o = depth_range_sync(*old(state), depth_range);
            &&& *final(state) == o.state
            &&& final(cmds)@ == old(cmds)@ + o.cmds
            &&& o.err is None
        }),
{
    let ghost o = depth_range_sync(*state, depth_range);
    if depth_range != state.range {
        emit(cmds, Command::DepthRange { near: depth_range.near, far: depth_range.far });
        state.range = depth_range;
    }
    proof {
        assert(cmds@ =~= old(cmds)@ + o.cmds);
    }
}

/// The test-and-mask step, on the live mirror.
fn sync_depth_test_mask(
    state: &mut DepthState,
    cmds: &mut Vec<Command>,
    depth_test: DepthTest,
    depth_write: bool,
)
    ensures
        ({
            let o = depth_test_mask_sync(*old(state), depth_test, depth_write);
            &&& *final(state) == o.state
            &&& final(cmds)@ == old(cmds)@ + o.cmds
            &&& o.err is None
        }),
{
    let ghost o = depth_test_mask_sync(*state, depth_test, depth_write);

    // An always-overwrite test without writes collapses to a disabled
    // depth test.
    if depth_test == DepthTest::Overwrite && !depth_write {
        if state.test_enabled {
            emit(cmds, Command::Disable { cap: GL_DEPTH_TEST });
            state.test_enabled = false;
        }
        proof {
            assert(cmds@ =~= old(cmds)@ + o.cmds);
        }
        return;
    }

    if !state.test_enabled {
        emit(cmds, Command::Enable { cap: GL_DEPTH_TEST });
        state.test_enabled = true;
    }

    let func = depth_test.to_glenum();
    if state.func != func {
        emit(cmds, Command::DepthFunc { func });
        state.func = func;
    }

    if state.mask != depth_write {
        emit(cmds, Command::DepthMask { write: depth_write });
        state.mask = depth_write;
    }

    proof {
        assert(cmds@ =~= old(cmds)@ + o.cmds);
    }
}

/// Synchronizes the depth dimension of the mirror slice `state`,
/// appending the emitted commands to `cmds`.
#[verifier::rlimit(100)]
pub fn sync_depth(
    state: &mut DepthState,
    cmds: &mut Vec<Command>,
    caps: &Capabilities,
    depth_test: DepthTest,
    depth_write: bool,
    depth_range: DepthRange,
    depth_clamp: DepthClamp,
) -> (r: Result<(), DrawError>)
    ensures
        ({
            let o = depth_sync(*old(state), *caps, depth_test, depth_write, depth_range,
                depth_clamp);
            &&& *final(state) == o.state
            &&& final(cmds)@ == old(cmds)@ + o.cmds
            &&& (r is Ok <==> o.err is None)
            &&& (r matches Err(e) ==> o.err == Some(e))
        }),
{
    let ghost o = depth_sync(*state, *caps, depth_test, depth_write, depth_range, depth_clamp);
    let ghost c0 = cmds@;
    let ghost c = depth_clamp_sync(*state, *caps, depth_clamp);
    let clamp_result = sync_depth_clamp(state, cmds, caps, depth_clamp);
    if let Err(e) = clamp_result {
        proof {
            assert(o == c);
            assert(cmds@ =~= c0 + o.cmds);
        }
        return Err(e);
    }
    proof {
        assert(*state == c.state);
        assert(cmds@ =~= c0 + c.cmds);
    }
    let ghost rg = depth_range_sync(c.state, depth_range);
    sync_depth_range(state, cmds, depth_range);
    proof {
        assert(*state == rg.state);
        assert(cmds@ =~= c0 + c.cmds + rg.cmds);
    }
    let ghost t = depth_test_mask_sync(rg.state, depth_test, depth_write);
    sync_depth_test_mask(state, cmds, depth_test, depth_write);
    proof {
        assert(*state == t.state);
        assert(o == c.and_then(rg.and_then(t)));
        assert(o.state == t.state);
        assert(o.cmds =~= c.cmds + rg.cmds + t.cmds);
        assert(cmds@ =~= c0 + o.cmds);
    }
    Ok(())
}

} // verus!
