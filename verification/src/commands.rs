//! The commands the engine issues to the device.
//!
//! The engine never talks to a device directly: each device call it decides
//! to make is recorded as one `Command` value, in issue order, and an
//! unverified adapter around the library replays the recording against the
//! real device. Enumerant arguments carry the device's own numeric values
//! (see [`crate::glenum`]); real-valued arguments carry the engine's
//! fixed-point encoding (see [`crate::Fixed`]).

use vstd::prelude::*;
use crate::Fixed;

verus! {

/// Which of two equivalent device entry points a command uses: the one of
/// the core version, or the one of a named extension. The arbitration
/// records its choice here so that it is replayable and inspectable.
#[derive(Clone, Copy, PartialEq, Eq, Structural, Debug)]
pub enum EntryPath {
    /// The core-version entry point.
    Core,
    /// An extension entry point.
    Ext,
}

/// Which of the device's bounding-box entry points a command uses.
#[derive(Clone, Copy, PartialEq, Eq, Structural, Debug)]
pub enum BoundingBoxPath {
    /// The embedded-family core entry point.
    Core,
    /// The compatibility-extension entry point.
    Arb,
    /// The embedded-extension entry point.
    Oes,
    /// The vendor-extension entry point.
    Ext,
}

/// One device command, with the exact arguments the device receives.
#[derive(Clone, Copy, PartialEq, Eq, Structural, Debug)]
pub enum Command {
    /// Turn a server-side capability on.
    Enable { cap: u32 },
    /// Turn a server-side capability off.
    Disable { cap: u32 },
    /// Set the depth range; bounds are fixed-point.
    DepthRange { near: Fixed, far: Fixed },
    /// Set the depth comparison function.
    DepthFunc { func: u32 },
    /// Set whether depth values are written.
    DepthMask { write: bool },
    /// Set the stencil comparison for one face.
    StencilFuncSeparate { face: u32, func: u32, reference: i32, mask: u32 },
    /// Set the stencil write mask for one face.
    StencilMaskSeparate { face: u32, mask: u32 },
    /// Set the stencil operations for one face.
    StencilOpSeparate { face: u32, fail_op: u32, depth_fail_op: u32, depth_pass_op: u32 },
    /// Set the blend equations for color and alpha.
    BlendEquationSeparate { color: u32, alpha: u32 },
    /// Set the blend factors for color and alpha.
    BlendFuncSeparate { src_color: u32, dst_color: u32, src_alpha: u32, dst_alpha: u32 },
    /// Set the constant blend color; channels are fixed-point.
    BlendColor { r: Fixed, g: Fixed, b: Fixed, a: Fixed },
    /// Choose which color channels are written.
    ColorMask { r: bool, g: bool, b: bool, a: bool },
    /// Set the line width; fixed-point.
    LineWidth { width: Fixed },
    /// Set the point diameter; fixed-point.
    PointSize { size: Fixed },
    /// Choose which faces are culled.
    CullFace { face: u32 },
    /// Set the polygon rasterization mode.
    PolygonMode { face: u32, mode: u32 },
    /// Set the viewport rectangle.
    Viewport { x: i32, y: i32, width: i32, height: i32 },
    /// Set the scissor rectangle.
    Scissor { x: i32, y: i32, width: i32, height: i32 },
    /// Set the number of vertices per tessellation patch.
    PatchParameter { pname: u32, value: i32 },
    /// Begin counting into a query.
    BeginQuery { target: u32, query: u64 },
    /// Stop counting into the query bound to a target.
    EndQuery { target: u32 },
    /// Begin a conditional-render block gated on a query.
    BeginConditionalRender { query: u64, mode: u32 },
    /// End the current conditional-render block.
    EndConditionalRender,
    /// Give the device a smoothing quality hint.
    Hint { target: u32, mode: u32 },
    /// Set the provoking-vertex convention.
    ProvokingVertex { path: EntryPath, convention: u32 },
    /// Give the device a primitive bounding box; all bounds fixed-point.
    PrimitiveBoundingBox {
        path: BoundingBoxPath,
        min_x: Fixed,
        min_y: Fixed,
        min_z: Fixed,
        min_w: Fixed,
        max_x: Fixed,
        max_y: Fixed,
        max_z: Fixed,
        max_w: Fixed,
    },
    /// Bind the framebuffer that will be drawn to.
    BindDrawFramebuffer { framebuffer: u32 },
    /// Make a program current.
    UseProgram { program: u32 },
    /// Bind a uniform set against the current program.
    BindUniforms { uniforms: u64 },
    /// Begin writing generated primitives into a transform-feedback session.
    BeginTransformFeedback { session: u32, primitives: u32 },
    /// Stop writing into the current transform-feedback session.
    EndTransformFeedback,
    /// Bind a buffer as the source of indirect draw commands.
    BindDrawIndirectBuffer { buffer: u64 },
    /// Draw consecutive vertices.
    DrawArrays { primitives: u32, first: i32, count: i32 },
    /// Draw consecutive vertices, several instances.
    DrawArraysInstanced { primitives: u32, first: i32, count: i32, instances: i32 },
    /// Draw indexed vertices.
    DrawElements { primitives: u32, count: i32, index_type: u32, offset: usize },
    /// Draw indexed vertices with a base vertex offset.
    DrawElementsBaseVertex {
        path: EntryPath,
        primitives: u32,
        count: i32,
        index_type: u32,
        offset: usize,
        base_vertex: i32,
    },
    /// Draw indexed vertices, several instances.
    DrawElementsInstanced {
        primitives: u32,
        count: i32,
        index_type: u32,
        offset: usize,
        instances: i32,
    },
    /// Draw indexed vertices with a base vertex offset, several instances.
    DrawElementsInstancedBaseVertex {
        path: EntryPath,
        primitives: u32,
        count: i32,
        index_type: u32,
        offset: usize,
        instances: i32,
        base_vertex: i32,
    },
    /// Draw from an array of indirect commands.
    MultiDrawArraysIndirect { primitives: u32, offset: usize, count: i32 },
    /// Draw indexed from an array of indirect commands.
    MultiDrawElementsIndirect { primitives: u32, index_type: u32, offset: usize, count: i32 },
    /// Register a completion fence on an externally-owned buffer: the
    /// owner must not free or reuse the buffer before the fence signals.
    InsertFence { buffer: u64 },
}

} // verus!
