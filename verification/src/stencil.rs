//! Synchronization of the stencil dimension: per-face comparisons, write
//! masks and operations, and the enable toggle.
//!
//! Clockwise parameters map to the back-facing device state and
//! counter-clockwise parameters to the front-facing state, matching the
//! device's default winding convention; each face carries its own
//! winding's test, write mask and operations. The dimension is
//! recomputed fully on every call and can never fail.

use vstd::prelude::*;
use crate::commands::Command;
use crate::glenum::{GL_ALWAYS, GL_BACK, GL_FRONT, GL_KEEP, GL_STENCIL_TEST};
use crate::params::{
    stencil_operation_glenum, stencil_test_glenum, stencil_test_read_mask, DrawParameters,
};
use crate::state::{emit, StencilFuncState, StencilOpState, StencilState, SyncOutcome};

verus! {

/// The back-face comparison a parameter set asks for.
pub open spec fn stencil_target_func_back(p: DrawParameters) -> StencilFuncState {
    StencilFuncState {
        func: stencil_test_glenum(p.stencil_test_clockwise),
        reference: p.stencil_reference_value_clockwise,
        mask: stencil_test_read_mask(p.stencil_test_clockwise),
    }
}

/// The front-face comparison a parameter set asks for.
pub open spec fn stencil_target_func_front(p: DrawParameters) -> StencilFuncState {
    StencilFuncState {
        func: stencil_test_glenum(p.stencil_test_counter_clockwise),
        reference: p.stencil_reference_value_counter_clockwise,
        mask: stencil_test_read_mask(p.stencil_test_counter_clockwise),
    }
}

/// The back-face operations a parameter set asks for.
pub open spec fn stencil_target_op_back(p: DrawParameters) -> StencilOpState {
    StencilOpState {
        fail_op: stencil_operation_glenum(p.stencil_fail_operation_clockwise),
        depth_fail_op: stencil_operation_glenum(p.stencil_pass_depth_fail_operation_clockwise),
        depth_pass_op: stencil_operation_glenum(p.stencil_depth_pass_operation_clockwise),
    }
}

/// The front-face operations a parameter set asks for.
pub open spec fn stencil_target_op_front(p: DrawParameters) -> StencilOpState {
    StencilOpState {
        fail_op: stencil_operation_glenum(p.stencil_fail_operation_counter_clockwise),
        depth_fail_op: stencil_operation_glenum(
            p.stencil_pass_depth_fail_operation_counter_clockwise,
        ),
        depth_pass_op: stencil_operation_glenum(p.stencil_depth_pass_operation_counter_clockwise),
    }
}

/// Whether a parameter set needs the stencil test at all: it does iff
/// some face's test is not always-pass or some operation is not keep.
pub open spec fn stencil_enable_needed(p: DrawParameters) -> bool {
    ||| stencil_target_func_back(p).func != GL_ALWAYS
    ||| stencil_target_func_front(p).func != GL_ALWAYS
    ||| stencil_target_op_back(p).fail_op != GL_KEEP
    ||| stencil_target_op_front(p).fail_op != GL_KEEP
    ||| stencil_target_op_back(p).depth_fail_op != GL_KEEP
    ||| stencil_target_op_front(p).depth_fail_op != GL_KEEP
    ||| stencil_target_op_back(p).depth_pass_op != GL_KEEP
    ||| stencil_target_op_front(p).depth_pass_op != GL_KEEP
}

/// The comparison step, both faces.
pub open spec fn stencil_func_sync(s: StencilState, p: DrawParameters)
    -> SyncOutcome<StencilState> {
    let tb = stencil_target_func_back(p);
    let o1 = if s.func_back != tb {
        SyncOutcome::ok(
            StencilState { func_back: tb, ..s },
            seq![
                Command::StencilFuncSeparate {
                    face: GL_BACK,
                    func: tb.func,
                    reference: tb.reference,
                    mask: tb.mask,
                },
            ],
        )
    } else {
        SyncOutcome::silent(s)
    };
    let tf = stencil_target_func_front(p);
    let o2 = if o1.state.func_front != tf {
        SyncOutcome::ok(
            StencilState { func_front: tf, ..o1.state },
            seq![
                Command::StencilFuncSeparate {
                    face: GL_FRONT,
                    func: tf.func,
                    reference: tf.reference,
                    mask: tf.mask,
                },
            ],
        )
    } else {
        SyncOutcome::silent(o1.state)
    };
    o1.and_then(o2)
}

/// The write-mask step: the clockwise mask goes to the back face and
/// the counter-clockwise mask to the front face.
pub open spec fn stencil_mask_sync(s: StencilState, p: DrawParameters)
    -> SyncOutcome<StencilState> {
    let mb = p.stencil_write_mask_clockwise;
    let o1 = if s.mask_back != mb {
        SyncOutcome::ok(
            StencilState { mask_back: mb, ..s },
            seq![Command::StencilMaskSeparate { face: GL_BACK, mask: mb }],
        )
    } else {
        SyncOutcome::silent(s)
    };
    let mf = p.stencil_write_mask_counter_clockwise;
    let o2 = if o1.state.mask_front != mf {
        SyncOutcome::ok(
            StencilState { mask_front: mf, ..o1.state },
            seq![Command::StencilMaskSeparate { face: GL_FRONT, mask: mf }],
        )
    } else {
        SyncOutcome::silent(o1.state)
    };
    o1.and_then(o2)
}

/// The operations step, both faces.
pub open spec fn stencil_op_sync(s: StencilState, p: DrawParameters)
    -> SyncOutcome<StencilState> {
    let tb = stencil_target_op_back(p);
    let o1 = if s.op_back != tb {
        SyncOutcome::ok(
            StencilState { op_back: tb, ..s },
            seq![
                Command::StencilOpSeparate {
                    face: GL_BACK,
                    fail_op: tb.fail_op,
                    depth_fail_op: tb.depth_fail_op,
                    depth_pass_op: tb.depth_pass_op,
                },
            ],
        )
    } else {
        SyncOutcome::silent(s)
    };
    let tf = stencil_target_op_front(p);
    let o2 = if o1.state.op_front != tf {
        SyncOutcome::ok(
            StencilState { op_front: tf, ..o1.state },
            seq![
                Command::StencilOpSeparate {
                    face: GL_FRONT,
                    fail_op: tf.fail_op,
                    depth_fail_op: tf.depth_fail_op,
                    depth_pass_op: tf.depth_pass_op,
                },
            ],
        )
    } else {
        SyncOutcome::silent(o1.state)
    };
    o1.and_then(o2)
}

/// The enable step: the stencil test is on iff the parameters need it.
pub open spec fn stencil_enable_sync(s: StencilState, p: DrawParameters)
    -> SyncOutcome<StencilState> {
    let e = stencil_enable_needed(p);
    if s.test_enabled != e {
        SyncOutcome::ok(
            StencilState { test_enabled: e, ..s },
            if e {
                seq![Command::Enable { cap: GL_STENCIL_TEST }]
            } else {
                seq![Command::Disable { cap: GL_STENCIL_TEST }]
            },
        )
    } else {
        SyncOutcome::silent(s)
    }
}

/// The whole stencil dimension: comparisons, masks, operations, enable.
pub open spec fn stencil_sync(s: StencilState, p: DrawParameters) -> SyncOutcome<StencilState> {
    let f = stencil_func_sync(s, p);
    let m = stencil_mask_sync(f.state, p);
    let o = stencil_op_sync(m.state, p);
    let e = stencil_enable_sync(o.state, p);
    f.and_then(m.and_then(o.and_then(e)))
}

/// The comparison step, on the live mirror.
fn sync_stencil_funcs(state: &mut StencilState, cmds: &mut Vec<Command>, params: &DrawParameters)
    ensures
        ({
            let o = stencil_func_sync(*old(state), *params);
            &&& *final(state) == o.state
            &&& final(cmds)@ == old(cmds)@ + o.cmds
            &&& o.err is None
        }),
{
    let ghost o = stencil_func_sync(*state, *params);
    let tb = StencilFuncState {
        func: params.stencil_test_clockwise.to_glenum(),
        reference: params.stencil_reference_value_clockwise,
        mask: params.stencil_test_clockwise.read_mask(),
    };
    if state.func_back != tb {
        emit(cmds, Command::StencilFuncSeparate {
            face: GL_BACK,
            func: tb.func,
            reference: tb.reference,
            mask: tb.mask,
        });
        state.func_back = tb;
    }
    let tf = StencilFuncState {
        func: params.stencil_test_counter_clockwise.to_glenum(),
        reference: params.stencil_reference_value_counter_clockwise,
        mask: params.stencil_test_counter_clockwise.read_mask(),
    };
    if state.func_front != tf {
        emit(cmds, Command::StencilFuncSeparate {
            face: GL_FRONT,
            func: tf.func,
            reference: tf.reference,
            mask: tf.mask,
        });
        state.func_front = tf;
    }
    proof {
        assert(cmds@ =~= old(cmds)@ + o.cmds);
    }
}

/// The write-mask step, on the live mirror.
fn sync_stencil_masks(state: &mut StencilState, cmds: &mut Vec<Command>, params: &DrawParameters)
    ensures
        ({
            let o = stencil_mask_sync(*old(state), *params);
            &&& *final(state) == o.state
            &&& final(cmds)@ == old(cmds)@ + o.cmds
            &&& o.err is None
        }),
{
    let ghost o = stencil_mask_sync(*state, *params);
    let mb = params.stencil_write_mask_clockwise;
    if state.mask_back != mb {
        emit(cmds, Command::StencilMaskSeparate { face: GL_BACK, mask: mb });
        state.mask_back = mb;
    }
    let mf = params.stencil_write_mask_counter_clockwise;
    if state.mask_front != mf {
        emit(cmds, Command::StencilMaskSeparate { face: GL_FRONT, mask: mf });
        state.mask_front = mf;
    }
    proof {
        assert(cmds@ =~= old(cmds)@ + o.cmds);
    }
}

/// The operations step, on the live mirror.
fn sync_stencil_ops(state: &mut StencilState, cmds: &mut Vec<Command>, params: &DrawParameters)
    ensures
        ({
            let o = stencil_op_sync(*old(state), *params);
            &&& *final(state) == o.state
            &&& final(cmds)@ == old(cmds)@ + o.cmds
            &&& o.err is None
        }),
{
    let ghost o = stencil_op_sync(*state, *params);
    let tb = StencilOpState {
        fail_op: params.stencil_fail_operation_clockwise.to_glenum(),
        depth_fail_op: params.stencil_pass_depth_fail_operation_clockwise.to_glenum(),
        depth_pass_op: params.stencil_depth_pass_operation_clockwise.to_glenum(),
    };
    if state.op_back != tb {
        emit(cmds, Command::StencilOpSeparate {
            face: GL_BACK,
            fail_op: tb.fail_op,
            depth_fail_op: tb.depth_fail_op,
            depth_pass_op: tb.depth_pass_op,
        });
        state.op_back = tb;
    }
    let tf = StencilOpState {
        fail_op: params.stencil_fail_operation_counter_clockwise.to_glenum(),
        depth_fail_op: params.stencil_pass_depth_fail_operation_counter_clockwise.to_glenum(),
        depth_pass_op: params.stencil_depth_pass_operation_counter_clockwise.to_glenum(),
    };
    if state.op_front != tf {
        emit(cmds, Command::StencilOpSeparate {
            face: GL_FRONT,
            fail_op: tf.fail_op,
            depth_fail_op: tf.depth_fail_op,
            depth_pass_op: tf.depth_pass_op,
        });
        state.op_front = tf;
    }
    proof {
        assert(cmds@ =~= old(cmds)@ + o.cmds);
    }
}

/// The enable step, on the live mirror.
fn sync_stencil_enable(state: &mut StencilState, cmds: &mut Vec<Command>, params: &DrawParameters)
    ensures
        ({
            let o = stencil_enable_sync(*old(state), *params);
            &&& *final(state) == o.state
            &&& final(cmds)@ == old(cmds)@ + o.cmds
            &&& o.err is None
        }),
{
    let ghost o = stencil_enable_sync(*state, *params);
    let e = params.stencil_test_clockwise.to_glenum() != GL_ALWAYS
        || params.stencil_test_counter_clockwise.to_glenum() != GL_ALWAYS
        || params.stencil_fail_operation_clockwise.to_glenum() != GL_KEEP
        || params.stencil_fail_operation_counter_clockwise.to_glenum() != GL_KEEP
        || params.stencil_pass_depth_fail_operation_clockwise.to_glenum() != GL_KEEP
        || params.stencil_pass_depth_fail_operation_counter_clockwise.to_glenum() != GL_KEEP
        || params.stencil_depth_pass_operation_clockwise.to_glenum() != GL_KEEP
        || params.stencil_depth_pass_operation_counter_clockwise.to_glenum() != GL_KEEP;
    if state.test_enabled != e {
        if e {
            emit(cmds, Command::Enable { cap: GL_STENCIL_TEST });
        } else {
            emit(cmds, Command::Disable { cap: GL_STENCIL_TEST });
        }
        state.test_enabled = e;
    }
    proof {
        assert(cmds@ =~= old(cmds)@ + o.cmds);
    }
}

/// Synchronizes the stencil dimension of the mirror slice `state`,
/// appending the emitted commands to `cmds`.
#[verifier::rlimit(100)]
pub fn sync_stencil(state: &mut StencilState, cmds: &mut Vec<Command>, params: &DrawParameters)
    ensures
        ({
            let o = stencil_sync(*old(state), *params);
            &&& *final(state) == o.state
            &&& final(cmds)@ == old(cmds)@ + o.cmds
        }),
{
    let ghost o = stencil_sync(*state, *params);
    sync_stencil_funcs(state, cmds, params);
    sync_stencil_masks(state, cmds, params);
    sync_stencil_ops(state, cmds, params);
    sync_stencil_enable(state, cmds, params);
    proof {
        assert(cmds@ =~= old(cmds)@ + o.cmds);
    }
}

} // verus!
