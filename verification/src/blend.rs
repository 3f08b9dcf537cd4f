//! Synchronization of the blending dimension: the enable toggle, the
//! equation pair, the factor pair and the constant blend color.

use vstd::prelude::*;
use crate::caps::{Api, Capabilities, version_le};
use crate::commands::Command;
use crate::glenum::{
    GL_BLEND, GL_FUNC_ADD, GL_FUNC_REVERSE_SUBTRACT, GL_FUNC_SUBTRACT, GL_MAX, GL_MIN,
};
use crate::params::{blending_factor_glenum, Blend, BlendingFunction, LinearBlendingFactor};
use crate::state::{emit, BlendState, SyncOutcome};
use crate::DrawError;

verus! {

/// Whether a request collapses to disabled blending: replacing both
/// color and alpha outright equals no blending at all.
pub open spec fn blend_collapses(b: Blend) -> bool {
    b.color == BlendingFunction::AlwaysReplace && b.alpha == BlendingFunction::AlwaysReplace
}

/// Whether the device can perform a blending function's equation: the
/// minimum and maximum equations are missing from old embedded versions
/// without the dedicated extension.
pub open spec fn blend_equation_supported(caps: Capabilities, f: BlendingFunction) -> bool {
    match f {
        BlendingFunction::Min | BlendingFunction::Max => !(version_le(caps.version, Api::GlEs, 2, 0)
            && !caps.extensions.gl_ext_blend_minmax),
        _ => true,
    }
}

/// The device enumerant of a blending function's equation.
pub open spec fn blend_equation_glenum(f: BlendingFunction) -> u32 {
    match f {
        BlendingFunction::AlwaysReplace => GL_FUNC_ADD,
        BlendingFunction::Addition { .. } => GL_FUNC_ADD,
        BlendingFunction::Subtraction { .. } => GL_FUNC_SUBTRACT,
        BlendingFunction::ReverseSubtraction { .. } => GL_FUNC_REVERSE_SUBTRACT,
        BlendingFunction::Min => GL_MIN,
        BlendingFunction::Max => GL_MAX,
    }
}

/// The source factor of a blending function; functions without a factor
/// concept substitute a one/zero dummy pair.
pub open spec fn blend_source_factor(f: BlendingFunction) -> LinearBlendingFactor {
    match f {
        BlendingFunction::Addition { source, .. } => source,
        BlendingFunction::Subtraction { source, .. } => source,
        BlendingFunction::ReverseSubtraction { source, .. } => source,
        _ => LinearBlendingFactor::One,
    }
}

/// The destination factor of a blending function; functions without a
/// factor concept substitute a one/zero dummy pair.
pub open spec fn blend_destination_factor(f: BlendingFunction) -> LinearBlendingFactor {
    match f {
        BlendingFunction::Addition { destination, .. } => destination,
        BlendingFunction::Subtraction { destination, .. } => destination,
        BlendingFunction::ReverseSubtraction { destination, .. } => destination,
        _ => LinearBlendingFactor::Zero,
    }
}

/// The disable step: turn blending off if it is mirrored as on.
pub open spec fn blend_disable_sync(s: BlendState) -> SyncOutcome<BlendState> {
    if s.enabled {
        SyncOutcome::ok(
            BlendState { enabled: false, ..s },
            seq![Command::Disable { cap: GL_BLEND }],
        )
    } else {
        SyncOutcome::silent(s)
    }
}

/// The enable step: turn blending on if it is mirrored as off.
pub open spec fn blend_enable_sync(s: BlendState) -> SyncOutcome<BlendState> {
    if !s.enabled {
        SyncOutcome::ok(BlendState { enabled: true, ..s }, seq![Command::Enable { cap: GL_BLEND }])
    } else {
        SyncOutcome::silent(s)
    }
}

/// The equation step: emits the equation pair on change; fails when the
/// device cannot perform one of the two equations. The failure comes
/// after the enable step has already taken effect.
pub open spec fn blend_equation_sync(s: BlendState, caps: Capabilities, b: Blend)
    -> SyncOutcome<BlendState> {
    if !blend_equation_supported(caps, b.color) || !blend_equation_supported(caps, b.alpha) {
        SyncOutcome::fail(s, Seq::empty(), DrawError::BlendingParameterNotSupported)
    } else {
        let color = blend_equation_glenum(b.color);
        let alpha = blend_equation_glenum(b.alpha);
        if s.equation_color != color || s.equation_alpha != alpha {
            SyncOutcome::ok(
                BlendState { equation_color: color, equation_alpha: alpha, ..s },
                seq![Command::BlendEquationSeparate { color, alpha }],
            )
        } else {
            SyncOutcome::silent(s)
        }
    }
}

/// The factor step: emits the four factors on change of any of them.
pub open spec fn blend_factor_sync(s: BlendState, b: Blend) -> SyncOutcome<BlendState> {
    let src_color = blending_factor_glenum(blend_source_factor(b.color));
    let dst_color = blending_factor_glenum(blend_destination_factor(b.color));
    let src_alpha = blending_factor_glenum(blend_source_factor(b.alpha));
    let dst_alpha = blending_factor_glenum(blend_destination_factor(b.alpha));
    if s.src_color != src_color || s.dst_color != dst_color || s.src_alpha != src_alpha
        || s.dst_alpha != dst_alpha {
        SyncOutcome::ok(
            BlendState { src_color, dst_color, src_alpha, dst_alpha, ..s },
            seq![Command::BlendFuncSeparate { src_color, dst_color, src_alpha, dst_alpha }],
        )
    } else {
        SyncOutcome::silent(s)
    }
}

/// The constant-color step: emits the constant blend color on change.
pub open spec fn blend_color_sync(s: BlendState, b: Blend) -> SyncOutcome<BlendState> {
    if s.color != b.constant_value {
        SyncOutcome::ok(
            BlendState { color: b.constant_value, ..s },
            seq![
                Command::BlendColor {
                    r: b.constant_value.r,
                    g: b.constant_value.g,
                    b: b.constant_value.b,
                    a: b.constant_value.a,
                },
            ],
        )
    } else {
        SyncOutcome::silent(s)
    }
}

/// The whole blending dimension. A collapsed request only ever disables
/// blending; any other request enables it, then syncs equations,
/// factors and the constant color, each only on change.
pub open spec fn blend_sync(s: BlendState, caps: Capabilities, b: Blend)
    -> SyncOutcome<BlendState> {
    if blend_collapses(b) {
        blend_disable_sync(s)
    } else {
        let en = blend_enable_sync(s);
        let eq = blend_equation_sync(en.state, caps, b);
        let fa = blend_factor_sync(eq.state, b);
        let co = blend_color_sync(fa.state, b);
        en.and_then(eq.and_then(fa.and_then(co)))
    }
}

/// The equation step, on the live mirror.
fn sync_blend_equation(
    state: &mut BlendState,
    cmds: &mut Vec<Command>,
    caps: &Capabilities,
    blend: &Blend,
) -> (r: Result<(), DrawError>)
    ensures
        ({
            let o = blend_equation_sync(*old(state), *caps, *blend);
            &&& *final(state) == o.state
            &&& final(cmds)@ == old(cmds)@ + o.cmds
            &&& (r is Ok <==> o.err is None)
            &&& (r matches Err(e) ==> o.err == Some(e))
        }),
{
    let ghost o = blend_equation_sync(*state, *caps, *blend);
    let limited = caps.version.at_most(Api::GlEs, 2, 0) && !caps.extensions.gl_ext_blend_minmax;
    let color_supported = match blend.color {
        BlendingFunction::Min | BlendingFunction::Max => !limited,
        _ => true,
    };
    let alpha_supported = match blend.alpha {
        BlendingFunction::Min | BlendingFunction::Max => !limited,
        _ => true,
    };
    if !color_supported || !alpha_supported {
        proof {
            assert(cmds@ =~= old(cmds)@ + o.cmds);
        }
        return Err(DrawError::BlendingParameterNotSupported);
    }
    let color = blend_equation_of(&blend.color);
    let alpha = blend_equation_of(&blend.alpha);
    if state.equation_color != color || state.equation_alpha != alpha {
        emit(cmds, Command::BlendEquationSeparate { color, alpha });
        state.equation_color = color;
        state.equation_alpha = alpha;
    }
    proof {
        assert(cmds@ =~= old(cmds)@ + o.cmds);
    }
    Ok(())
}

/// The device enumerant of a blending function's equation.
fn blend_equation_of(f: &BlendingFunction) -> (r: u32)
    ensures
        r == blend_equation_glenum(*f),
{
    match *f {
        BlendingFunction::AlwaysReplace => GL_FUNC_ADD,
        BlendingFunction::Addition { .. } => GL_FUNC_ADD,
        BlendingFunction::Subtraction { .. } => GL_FUNC_SUBTRACT,
        BlendingFunction::ReverseSubtraction { .. } => GL_FUNC_REVERSE_SUBTRACT,
        BlendingFunction::Min => GL_MIN,
        BlendingFunction::Max => GL_MAX,
    }
}

/// The source and destination factors of a blending function, as device
/// enumerants, with the one/zero dummy pair where none apply.
fn blend_factors_of(f: &BlendingFunction) -> (r: (u32, u32))
    ensures
        r.0 == blending_factor_glenum(blend_source_factor(*f)),
        r.1 == blending_factor_glenum(blend_destination_factor(*f)),
{
    match *f {
        BlendingFunction::Addition { source, destination } => (source.to_glenum(),
            destination.to_glenum()),
        BlendingFunction::Subtraction { source, destination } => (source.to_glenum(),
            destination.to_glenum()),
        BlendingFunction::ReverseSubtraction { source, destination } => (source.to_glenum(),
            destination.to_glenum()),
        _ => (
            LinearBlendingFactor::One.to_glenum(),
            LinearBlendingFactor::Zero.to_glenum(),
        ),
    }
}

/// The factor step, on the live mirror.
fn sync_blend_factors(state: &mut BlendState, cmds: &mut Vec<Command>, blend: &Blend)
    ensures
        ({
            let o = blend_factor_sync(*old(state), *blend);
            &&& *final(state) == o.state
            &&& final(cmds)@ == old(cmds)@ + o.cmds
            &&& o.err is None
        }),
{
    let ghost o = blend_factor_sync(*state, *blend);
    let (src_color, dst_color) = blend_factors_of(&blend.color);
    let (src_alpha, dst_alpha) = blend_factors_of(&blend.alpha);
    if state.src_color != src_color || state.dst_color != dst_color
        || state.src_alpha != src_alpha || state.dst_alpha != dst_alpha {
        emit(cmds, Command::BlendFuncSeparate { src_color, dst_color, src_alpha, dst_alpha });
        state.src_color = src_color;
        state.dst_color = dst_color;
        state.src_alpha = src_alpha;
        state.dst_alpha = dst_alpha;
    }
    proof {
        assert(cmds@ =~= old(cmds)@ + o.cmds);
    }
}

/// The constant-color step, on the live mirror.
fn sync_blend_color(state: &mut BlendState, cmds: &mut Vec<Command>, blend: &Blend)
    ensures
        ({
            let o = blend_color_sync(*old(state), *blend);
            &&& *final(state) == o.state
            &&& final(cmds)@ == old(cmds)@ + o.cmds
            &&& o.err is None
        }),
{
    let ghost o = blend_color_sync(*state, *blend);
    if state.color != blend.constant_value {
        emit(cmds, Command::BlendColor {
            r: blend.constant_value.r,
            g: blend.constant_value.g,
            b: blend.constant_value.b,
            a: blend.constant_value.a,
        });
        state.color = blend.constant_value;
    }
    proof {
        assert(cmds@ =~= old(cmds)@ + o.cmds);
    }
}

/// Synchronizes the blending dimension of the mirror slice `state`,
/// appending the emitted commands to `cmds`.
#[verifier::rlimit(100)]
pub fn sync_blending(
    state: &mut BlendState,
    cmds: &mut Vec<Command>,
    caps: &Capabilities,
    blend: &Blend,
) -> (r: Result<(), DrawError>)
    ensures
        ({
            let o = blend_sync(*old(state), *caps, *blend);
            &&& *final(state) == o.state
            &&& final(cmds)@ == old(cmds)@ + o.cmds
            &&& (r is Ok <==> o.err is None)
            &&& (r matches Err(e) ==> o.err == Some(e))
        }),
{
    let ghost o = blend_sync(*state, *caps, *blend);
    let collapses = match (&blend.color, &blend.alpha) {
        (BlendingFunction::AlwaysReplace, BlendingFunction::AlwaysReplace) => true,
        _ => false,
    };
    if collapses {
        if state.enabled {
            emit(cmds, Command::Disable { cap: GL_BLEND });
            state.enabled = false;
        }
        proof {
            assert(cmds@ =~= old(cmds)@ + o.cmds);
        }
        return Ok(());
    }

    if !state.enabled {
        emit(cmds, Command::Enable { cap: GL_BLEND });
        state.enabled = true;
    }

    let eq_result = sync_blend_equation(state, cmds, caps, blend);
    if let Err(e) = eq_result {
        proof {
            assert(cmds@ =~= old(cmds)@ + o.cmds);
        }
        return Err(e);
    }

    sync_blend_factors(state, cmds, blend);
    sync_blend_color(state, cmds, blend);
    proof {
        assert(cmds@ =~= old(cmds)@ + o.cmds);
    }
    Ok(())
}

} // verus!
