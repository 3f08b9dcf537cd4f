//! A render-state synchronization and draw-dispatch engine.
//!
//! The engine sits between an application's rendering intent and a stateful
//! graphics device. It keeps a shadow copy of the device configuration,
//! diffs each requested configuration against that shadow, and emits only
//! the device commands for the dimensions that actually changed, choosing
//! for every dimension the command path that the device's version and
//! extension set support. The device itself is out of scope: every command
//! is recorded as a [`commands::Command`] value, and an unverified adapter
//! around the library hands them to the real device.

use vstd::prelude::*;

pub mod caps;
pub mod hints;
pub mod index;
pub mod laws;
pub mod params;
pub mod queries;
pub mod raster;
pub mod render_buffer;
pub mod vertex;
pub mod viewport;
pub mod state;
pub mod commands;
pub mod blend;
pub mod depth;
pub mod draw;
pub mod stencil;
pub mod sync;
pub mod glenum;

verus! {

/// Fixed-point scalar: the engine's stand-in for the device's normalized
/// real-valued parameters (depth range bounds, blend constants, sizes).
/// A value of [`FIXED_ONE`] represents 1.0; negative values are allowed.
pub type Fixed = i64;

/// The fixed-point representation of 1.0.
pub const FIXED_ONE: Fixed = 1_000_000;

/// A rectangle in surface coordinates, used for viewports and scissor boxes.
#[derive(Clone, Copy, PartialEq, Eq, Structural, Debug)]
pub struct Rect {
    /// Offset of the left border of the rectangle from the left of the surface.
    pub left: u32,
    /// Offset of the bottom border of the rectangle from the bottom of the surface.
    pub bottom: u32,
    /// Width of the rectangle.
    pub width: u32,
    /// Height of the rectangle.
    pub height: u32,
}

/// Why a draw request was rejected. Every failure surfaces synchronously as
/// a value of this type; the engine never retries internally.
#[derive(Clone, Copy, PartialEq, Eq, Structural, Debug)]
pub enum DrawError {
    /// A depth range bound lies outside `[0, 1]`.
    InvalidDepthRange,
    /// Rasterizer discard was requested on a device that supports no
    /// command path for it.
    RasterizerDiscardNotSupported,
    /// A depth clamp mode was requested that no supported command path
    /// can express on this device.
    DepthClampNotSupported,
    /// A blending equation was requested that this device cannot perform.
    BlendingParameterNotSupported,
    /// A patch primitive was drawn on a device without tessellation support.
    TessellationNotSupported,
    /// The requested number of vertices per patch is zero or above the
    /// device limit.
    UnsupportedVerticesPerPatch,
    /// A provoking-vertex convention was requested that no supported
    /// command path can express on this device.
    ProvokingVertexNotSupported,
    /// Smoothing was requested for point primitives, or on a device
    /// without smoothing support.
    SmoothingNotSupported,
    /// The per-vertex sources disagree about the vertex count and the
    /// selected draw path needs a definite count.
    VerticesSourcesLengthMismatch,
    /// Two per-instance sources disagree about the instance count.
    InstancesCountMismatch,
    /// A query was used again after its usage pattern ended its life.
    WrongQueryOperation,
}

} // verus!
