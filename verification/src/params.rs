//! The parameters a caller hands to the engine for one draw, and the
//! pre-flight validation of those parameters against a capability profile.
//!
//! Real-valued parameters (depth range bounds, blend constants, sizes,
//! the bounding box) are carried in the engine's fixed-point encoding
//! (see [`crate::Fixed`]); query and session handles are carried as plain
//! identifiers owned by the caller's device objects.

use vstd::prelude::*;
use crate::caps::{Api, Capabilities, version_lt};
use crate::glenum::{
    GL_NEVER, GL_LESS, GL_EQUAL, GL_LEQUAL, GL_GREATER, GL_NOTEQUAL, GL_GEQUAL, GL_ALWAYS,
    GL_ZERO, GL_ONE, GL_SRC_COLOR, GL_ONE_MINUS_SRC_COLOR, GL_SRC_ALPHA, GL_ONE_MINUS_SRC_ALPHA,
    GL_DST_ALPHA, GL_ONE_MINUS_DST_ALPHA, GL_DST_COLOR, GL_ONE_MINUS_DST_COLOR,
    GL_SRC_ALPHA_SATURATE, GL_CONSTANT_COLOR, GL_ONE_MINUS_CONSTANT_COLOR, GL_CONSTANT_ALPHA,
    GL_ONE_MINUS_CONSTANT_ALPHA, GL_KEEP, GL_REPLACE, GL_INCR, GL_INCR_WRAP, GL_DECR,
    GL_DECR_WRAP, GL_INVERT, GL_POINT, GL_LINE, GL_FILL, GL_FASTEST, GL_NICEST, GL_DONT_CARE,
    GL_FIRST_VERTEX_CONVENTION, GL_LAST_VERTEX_CONVENTION,
};
use crate::{DrawError, Fixed, Rect, FIXED_ONE};

verus! {

/// The function the device uses to decide whether a sample's depth value
/// replaces the one already in the depth buffer.
#[derive(Clone, Copy, PartialEq, Eq, Structural, Debug)]
pub enum DepthTest {
    /// Never replace the target pixel.
    Ignore,
    /// Always replace the target pixel. This is the default.
    Overwrite,
    /// Replace if the source depth equals the destination depth.
    IfEqual,
    /// Replace if the source depth differs from the destination depth.
    IfNotEqual,
    /// Replace if the source depth is greater.
    IfMore,
    /// Replace if the source depth is greater or equal.
    IfMoreOrEqual,
    /// Replace if the source depth is smaller.
    IfLess,
    /// Replace if the source depth is smaller or equal.
    IfLessOrEqual,
}

/// The device enumerant for a depth test.
pub open spec fn depth_test_glenum(t: DepthTest) -> u32 {
    match t {
        DepthTest::Ignore => GL_NEVER,
        DepthTest::Overwrite => GL_ALWAYS,
        DepthTest::IfEqual => GL_EQUAL,
        DepthTest::IfNotEqual => GL_NOTEQUAL,
        DepthTest::IfMore => GL_GREATER,
        DepthTest::IfMoreOrEqual => GL_GEQUAL,
        DepthTest::IfLess => GL_LESS,
        DepthTest::IfLessOrEqual => GL_LEQUAL,
    }
}

impl DepthTest {
    /// True if the test can only be performed with a depth buffer attached.
    pub fn requires_depth_buffer(&self) -> (r: bool)
        ensures
            r == (*self != DepthTest::Overwrite),
    {
        match *self {
            DepthTest::Ignore => true,
            DepthTest::Overwrite => false,
            DepthTest::IfEqual => true,
            DepthTest::IfNotEqual => true,
            DepthTest::IfMore => true,
            DepthTest::IfMoreOrEqual => true,
            DepthTest::IfLess => true,
            DepthTest::IfLessOrEqual => true,
        }
    }

    /// The device enumerant for this test.
    pub fn to_glenum(&self) -> (r: u32)
        ensures
            r == depth_test_glenum(*self),
    {
        match *self {
            DepthTest::Ignore => GL_NEVER,
            DepthTest::Overwrite => GL_ALWAYS,
            DepthTest::IfEqual => GL_EQUAL,
            DepthTest::IfNotEqual => GL_NOTEQUAL,
            DepthTest::IfMore => GL_GREATER,
            DepthTest::IfMoreOrEqual => GL_GEQUAL,
            DepthTest::IfLess => GL_LESS,
            DepthTest::IfLessOrEqual => GL_LEQUAL,
        }
    }
}

/// Whether depth values outside `[0, 1]` are clamped or discarded.
#[derive(Clone, Copy, PartialEq, Eq, Structural, Debug)]
pub enum DepthClamp {
    /// Do not clamp; out-of-range samples are discarded. The default.
    NoClamp,
    /// Clamp at both ends; every sample is drawn.
    Clamp,
    /// Clamp only values below `0`.
    ClampNear,
    /// Clamp only values above `1`.
    ClampFar,
}

/// The comparison the device performs against the stencil buffer.
#[derive(Clone, Copy, PartialEq, Eq, Structural, Debug)]
pub enum StencilTest {
    /// The stencil test always passes.
    AlwaysPass,
    /// The stencil test always fails.
    AlwaysFail,
    /// `(ref & mask) < (stencil & mask)`.
    IfLess { mask: u32 },
    /// `(ref & mask) <= (stencil & mask)`.
    IfLessOrEqual { mask: u32 },
    /// `(ref & mask) > (stencil & mask)`.
    IfMore { mask: u32 },
    /// `(ref & mask) >= (stencil & mask)`.
    IfMoreOrEqual { mask: u32 },
    /// `(ref & mask) == (stencil & mask)`.
    IfEqual { mask: u32 },
    /// `(ref & mask) != (stencil & mask)`.
    IfNotEqual { mask: u32 },
}

/// The device enumerant for a stencil test.
pub open spec fn stencil_test_glenum(t: StencilTest) -> u32 {
    match t {
        StencilTest::AlwaysPass => GL_ALWAYS,
        StencilTest::AlwaysFail => GL_NEVER,
        StencilTest::IfLess { .. } => GL_LESS,
        StencilTest::IfLessOrEqual { .. } => GL_LEQUAL,
        StencilTest::IfMore { .. } => GL_GREATER,
        StencilTest::IfMoreOrEqual { .. } => GL_GEQUAL,
        StencilTest::IfEqual { .. } => GL_EQUAL,
        StencilTest::IfNotEqual { .. } => GL_NOTEQUAL,
    }
}

/// The read mask a stencil test applies; the always-pass and always-fail
/// tests carry none and use zero.
pub open spec fn stencil_test_read_mask(t: StencilTest) -> u32 {
    match t {
        StencilTest::AlwaysPass => 0,
        StencilTest::AlwaysFail => 0,
        StencilTest::IfLess { mask } => mask,
        StencilTest::IfLessOrEqual { mask } => mask,
        StencilTest::IfMore { mask } => mask,
        StencilTest::IfMoreOrEqual { mask } => mask,
        StencilTest::IfEqual { mask } => mask,
        StencilTest::IfNotEqual { mask } => mask,
    }
}

impl StencilTest {
    /// The device enumerant for this test.
    pub fn to_glenum(&self) -> (r: u32)
        ensures
            r == stencil_test_glenum(*self),
    {
        match *self {
            StencilTest::AlwaysPass => GL_ALWAYS,
            StencilTest::AlwaysFail => GL_NEVER,
            StencilTest::IfLess { .. } => GL_LESS,
            StencilTest::IfLessOrEqual { .. } => GL_LEQUAL,
            StencilTest::IfMore { .. } => GL_GREATER,
            StencilTest::IfMoreOrEqual { .. } => GL_GEQUAL,
            StencilTest::IfEqual { .. } => GL_EQUAL,
            StencilTest::IfNotEqual { .. } => GL_NOTEQUAL,
        }
    }

    /// The read mask this test applies.
    pub fn read_mask(&self) -> (r: u32)
        ensures
            r == stencil_test_read_mask(*self),
    {
        match *self {
            StencilTest::AlwaysPass => 0,
            StencilTest::AlwaysFail => 0,
            StencilTest::IfLess { mask } => mask,
            StencilTest::IfLessOrEqual { mask } => mask,
            StencilTest::IfMore { mask } => mask,
            StencilTest::IfMoreOrEqual { mask } => mask,
            StencilTest::IfEqual { mask } => mask,
            StencilTest::IfNotEqual { mask } => mask,
        }
    }
}

/// What the device writes to the stencil buffer after a test.
#[derive(Clone, Copy, PartialEq, Eq, Structural, Debug)]
pub enum StencilOperation {
    /// Keep the value currently in the stencil buffer.
    Keep,
    /// Write zero.
    Zero,
    /// Write the reference value.
    Replace,
    /// Increment; saturate at the maximum.
    Increment,
    /// Increment; wrap to zero past the maximum.
    IncrementWrap,
    /// Decrement; saturate at zero.
    Decrement,
    /// Decrement; wrap past zero.
    DecrementWrap,
    /// Invert every bit of the value.
    Invert,
}

/// The device enumerant for a stencil operation.
pub open spec fn stencil_operation_glenum(op: StencilOperation) -> u32 {
    match op {
        StencilOperation::Keep => GL_KEEP,
        StencilOperation::Zero => GL_ZERO,
        StencilOperation::Replace => GL_REPLACE,
        StencilOperation::Increment => GL_INCR,
        StencilOperation::IncrementWrap => GL_INCR_WRAP,
        StencilOperation::Decrement => GL_DECR,
        StencilOperation::DecrementWrap => GL_DECR_WRAP,
        StencilOperation::Invert => GL_INVERT,
    }
}

impl StencilOperation {
    /// The device enumerant for this operation.
    pub fn to_glenum(&self) -> (r: u32)
        ensures
            r == stencil_operation_glenum(*self),
    {
        match *self {
            StencilOperation::Keep => GL_KEEP,
            StencilOperation::Zero => GL_ZERO,
            StencilOperation::Replace => GL_REPLACE,
            StencilOperation::Increment => GL_INCR,
            StencilOperation::IncrementWrap => GL_INCR_WRAP,
            StencilOperation::Decrement => GL_DECR,
            StencilOperation::DecrementWrap => GL_DECR_WRAP,
            StencilOperation::Invert => GL_INVERT,
        }
    }
}

/// The factor a blending function multiplies a source or destination
/// component with.
#[derive(Clone, Copy, PartialEq, Eq, Structural, Debug)]
pub enum LinearBlendingFactor {
    /// Multiply by zero.
    Zero,
    /// Multiply by one.
    One,
    /// Multiply by the corresponding source component.
    SourceColor,
    /// Multiply by one minus the corresponding source component.
    OneMinusSourceColor,
    /// Multiply by the corresponding destination component.
    DestinationColor,
    /// Multiply by one minus the corresponding destination component.
    OneMinusDestinationColor,
    /// Multiply by the source alpha.
    SourceAlpha,
    /// Multiply by the smaller of the source alpha and one minus the
    /// destination alpha.
    SourceAlphaSaturate,
    /// Multiply by one minus the source alpha.
    OneMinusSourceAlpha,
    /// Multiply by the destination alpha.
    DestinationAlpha,
    /// Multiply by one minus the destination alpha.
    OneMinusDestinationAlpha,
    /// Multiply by the constant blend color.
    ConstantColor,
    /// Multiply by one minus the constant blend color.
    OneMinusConstantColor,
    /// Multiply by the constant blend color's alpha.
    ConstantAlpha,
    /// Multiply by one minus the constant blend color's alpha.
    OneMinusConstantAlpha,
}

/// The device enumerant for a blending factor.
pub open spec fn blending_factor_glenum(f: LinearBlendingFactor) -> u32 {
    match f {
        LinearBlendingFactor::Zero => GL_ZERO,
        LinearBlendingFactor::One => GL_ONE,
        LinearBlendingFactor::SourceColor => GL_SRC_COLOR,
        LinearBlendingFactor::OneMinusSourceColor => GL_ONE_MINUS_SRC_COLOR,
        LinearBlendingFactor::DestinationColor => GL_DST_COLOR,
        LinearBlendingFactor::OneMinusDestinationColor => GL_ONE_MINUS_DST_COLOR,
        LinearBlendingFactor::SourceAlpha => GL_SRC_ALPHA,
        LinearBlendingFactor::OneMinusSourceAlpha => GL_ONE_MINUS_SRC_ALPHA,
        LinearBlendingFactor::DestinationAlpha => GL_DST_ALPHA,
        LinearBlendingFactor::OneMinusDestinationAlpha => GL_ONE_MINUS_DST_ALPHA,
        LinearBlendingFactor::SourceAlphaSaturate => GL_SRC_ALPHA_SATURATE,
        LinearBlendingFactor::ConstantColor => GL_CONSTANT_COLOR,
        LinearBlendingFactor::OneMinusConstantColor => GL_ONE_MINUS_CONSTANT_COLOR,
        LinearBlendingFactor::ConstantAlpha => GL_CONSTANT_ALPHA,
        LinearBlendingFactor::OneMinusConstantAlpha => GL_ONE_MINUS_CONSTANT_ALPHA,
    }
}

impl LinearBlendingFactor {
    /// The device enumerant for this factor.
    pub fn to_glenum(&self) -> (r: u32)
        ensures
            r == blending_factor_glenum(*self),
    {
        match *self {
            LinearBlendingFactor::Zero => GL_ZERO,
            LinearBlendingFactor::One => GL_ONE,
            LinearBlendingFactor::SourceColor => GL_SRC_COLOR,
            LinearBlendingFactor::OneMinusSourceColor => GL_ONE_MINUS_SRC_COLOR,
            LinearBlendingFactor::DestinationColor => GL_DST_COLOR,
            LinearBlendingFactor::OneMinusDestinationColor => GL_ONE_MINUS_DST_COLOR,
            LinearBlendingFactor::SourceAlpha => GL_SRC_ALPHA,
            LinearBlendingFactor::OneMinusSourceAlpha => GL_ONE_MINUS_SRC_ALPHA,
            LinearBlendingFactor::DestinationAlpha => GL_DST_ALPHA,
            LinearBlendingFactor::OneMinusDestinationAlpha => GL_ONE_MINUS_DST_ALPHA,
            LinearBlendingFactor::SourceAlphaSaturate => GL_SRC_ALPHA_SATURATE,
            LinearBlendingFactor::ConstantColor => GL_CONSTANT_COLOR,
            LinearBlendingFactor::OneMinusConstantColor => GL_ONE_MINUS_CONSTANT_COLOR,
            LinearBlendingFactor::ConstantAlpha => GL_CONSTANT_ALPHA,
            LinearBlendingFactor::OneMinusConstantAlpha => GL_ONE_MINUS_CONSTANT_ALPHA,
        }
    }
}

/// How the device merges a written pixel with the one already present.
#[derive(Clone, Copy, PartialEq, Eq, Structural, Debug)]
pub enum BlendingFunction {
    /// Overwrite the destination with the source. The default.
    AlwaysReplace,
    /// Componentwise minimum of source and destination.
    Min,
    /// Componentwise maximum of source and destination.
    Max,
    /// `source * source_factor + destination * destination_factor`.
    Addition { source: LinearBlendingFactor, destination: LinearBlendingFactor },
    /// `source * source_factor - destination * destination_factor`.
    Subtraction { source: LinearBlendingFactor, destination: LinearBlendingFactor },
    /// `destination * destination_factor - source * source_factor`.
    ReverseSubtraction { source: LinearBlendingFactor, destination: LinearBlendingFactor },
}

/// A constant blend color, one fixed-point value per channel.
#[derive(Clone, Copy, PartialEq, Eq, Structural, Debug)]
pub struct BlendConstant {
    pub r: Fixed,
    pub g: Fixed,
    pub b: Fixed,
    pub a: Fixed,
}

/// The blend effect the device applies when writing pixels over pixels
/// that already exist in the framebuffer.
#[derive(Clone, Copy, PartialEq, Eq, Structural, Debug)]
pub struct Blend {
    /// The blending function for color channels.
    pub color: BlendingFunction,
    /// The blending function for alpha channels.
    pub alpha: BlendingFunction,
    /// A constant color the blending factors may refer to.
    pub constant_value: BlendConstant,
}

/// The blend effect that layers transparent objects over others.
pub open spec fn spec_alpha_blending() -> Blend {
    Blend {
        color: BlendingFunction::Addition {
            source: LinearBlendingFactor::SourceAlpha,
            destination: LinearBlendingFactor::OneMinusSourceAlpha,
        },
        alpha: BlendingFunction::Addition {
            source: LinearBlendingFactor::SourceAlpha,
            destination: LinearBlendingFactor::OneMinusSourceAlpha,
        },
        constant_value: BlendConstant { r: 0, g: 0, b: 0, a: 0 },
    }
}

impl Blend {
    /// A blend effect that layers transparent objects over others.
    pub fn alpha_blending() -> (r: Blend)
        ensures
            r == spec_alpha_blending(),
    {
        Blend {
            color: BlendingFunction::Addition {
                source: LinearBlendingFactor::SourceAlpha,
                destination: LinearBlendingFactor::OneMinusSourceAlpha,
            },
            alpha: BlendingFunction::Addition {
                source: LinearBlendingFactor::SourceAlpha,
                destination: LinearBlendingFactor::OneMinusSourceAlpha,
            },
            constant_value: BlendConstant { r: 0, g: 0, b: 0, a: 0 },
        }
    }
}

/// Which winding of triangles the device discards before rasterization.
#[derive(Clone, Copy, PartialEq, Eq, Structural, Debug)]
pub enum BackfaceCullingMode {
    /// Draw every triangle.
    CullingDisabled,
    /// Discard triangles whose vertices are counter-clockwise on screen.
    CullCounterClockWise,
    /// Discard triangles whose vertices are clockwise on screen.
    CullClockWise,
}

/// How the device rasterizes polygons.
#[derive(Clone, Copy, PartialEq, Eq, Structural, Debug)]
pub enum PolygonMode {
    /// Draw a single point at each vertex.
    Point,
    /// Draw only the boundary lines of each polygon.
    Line,
    /// Fill the polygon. The default.
    Fill,
}

/// The device enumerant for a polygon mode.
pub open spec fn polygon_mode_glenum(m: PolygonMode) -> u32 {
    match m {
        PolygonMode::Point => GL_POINT,
        PolygonMode::Line => GL_LINE,
        PolygonMode::Fill => GL_FILL,
    }
}

impl PolygonMode {
    /// The device enumerant for this mode.
    pub fn to_glenum(&self) -> (r: u32)
        ensures
            r == polygon_mode_glenum(*self),
    {
        match *self {
            PolygonMode::Point => GL_POINT,
            PolygonMode::Line => GL_LINE,
            PolygonMode::Fill => GL_FILL,
        }
    }
}

/// The quality the device should aim for when smoothing primitives.
#[derive(Clone, Copy, PartialEq, Eq, Structural, Debug)]
pub enum Smooth {
    /// Choose the most efficient option.
    Fastest,
    /// Choose the highest-quality option.
    Nicest,
    /// No preference.
    DontCare,
}

/// The device enumerant for a smoothing hint.
pub open spec fn smooth_glenum(s: Smooth) -> u32 {
    match s {
        Smooth::Fastest => GL_FASTEST,
        Smooth::Nicest => GL_NICEST,
        Smooth::DontCare => GL_DONT_CARE,
    }
}

impl Smooth {
    /// The device enumerant for this hint.
    pub fn to_glenum(&self) -> (r: u32)
        ensures
            r == smooth_glenum(*self),
    {
        match *self {
            Smooth::Fastest => GL_FASTEST,
            Smooth::Nicest => GL_NICEST,
            Smooth::DontCare => GL_DONT_CARE,
        }
    }
}

/// Which vertex of a primitive supplies the value of flat-shaded outputs.
#[derive(Clone, Copy, PartialEq, Eq, Structural, Debug)]
pub enum ProvokingVertex {
    /// Use the last vertex of each primitive. The default.
    LastVertex,
    /// Use the first vertex of each primitive.
    FirstVertex,
}

/// The device enumerant for a provoking-vertex convention.
pub open spec fn provoking_vertex_glenum(v: ProvokingVertex) -> u32 {
    match v {
        ProvokingVertex::LastVertex => GL_LAST_VERTEX_CONVENTION,
        ProvokingVertex::FirstVertex => GL_FIRST_VERTEX_CONVENTION,
    }
}

/// The query a draw counts samples into; both kinds share the samples
/// category and at most one of them may be bound at a time.
#[derive(Clone, Copy, PartialEq, Eq, Structural, Debug)]
pub enum SamplesQueryParam {
    /// A query counting every sample that passes, by its handle.
    SamplesPassedQuery(u64),
    /// A query recording only whether any sample passed, by its handle.
    AnySamplesPassedQuery(u64),
}

impl SamplesQueryParam {
    /// The handle of the underlying query.
    pub fn query_id(&self) -> (r: u64)
        ensures
            r == self.spec_query_id(),
    {
        match *self {
            SamplesQueryParam::SamplesPassedQuery(id) => id,
            SamplesQueryParam::AnySamplesPassedQuery(id) => id,
        }
    }

    /// The handle of the underlying query.
    pub open spec fn spec_query_id(&self) -> u64 {
        match *self {
            SamplesQueryParam::SamplesPassedQuery(id) => id,
            SamplesQueryParam::AnySamplesPassedQuery(id) => id,
        }
    }
}

/// A condition under which the device executes the submitted draw without
/// the processor reading the query result back.
#[derive(Clone, Copy, PartialEq, Eq, Structural, Debug)]
pub struct ConditionalRendering {
    /// The samples query whose result gates the draw.
    pub query: SamplesQueryParam,
    /// Whether the device waits for the query result instead of drawing
    /// unconditionally when the result is not yet available.
    pub wait: bool,
    /// Whether only samples that match those written with the query
    /// active are drawn.
    pub per_region: bool,
}

/// The bounds of the requested depth range, fixed-point. `near` is where
/// a device coordinate of `-1` maps, `far` where `1` maps; `near` may
/// exceed `far`.
#[derive(Clone, Copy, PartialEq, Eq, Structural, Debug)]
pub struct DepthRange {
    pub near: Fixed,
    pub far: Fixed,
}

/// Which color channels a draw writes.
#[derive(Clone, Copy, PartialEq, Eq, Structural, Debug)]
pub struct ColorMask {
    pub r: bool,
    pub g: bool,
    pub b: bool,
    pub a: bool,
}

/// The bounding box of the drawn geometry, a hint for tiled devices;
/// fixed-point bounds per output coordinate.
#[derive(Clone, Copy, PartialEq, Eq, Structural, Debug)]
pub struct BoundingBox {
    pub x_start: Fixed,
    pub x_end: Fixed,
    pub y_start: Fixed,
    pub y_end: Fixed,
    pub z_start: Fixed,
    pub z_end: Fixed,
    pub w_start: Fixed,
    pub w_end: Fixed,
}

/// Every parameter of one draw, besides the vertex, index and target
/// descriptors. The default value is a no-op configuration.
#[derive(Clone, Copy, PartialEq, Eq, Structural, Debug)]
pub struct DrawParameters {
    /// The depth comparison to apply.
    pub depth_test: DepthTest,
    /// Whether passing depth values are written to the depth buffer.
    pub depth_write: bool,
    /// The range window coordinates map depth values into.
    pub depth_range: DepthRange,
    /// Whether out-of-range depth values are clamped.
    pub depth_clamp: DepthClamp,
    /// Stencil comparison for clockwise faces.
    pub stencil_test_clockwise: StencilTest,
    /// Reference value for the clockwise stencil test and operations.
    pub stencil_reference_value_clockwise: i32,
    /// Write mask for clockwise stencil writes.
    pub stencil_write_mask_clockwise: u32,
    /// Operation when a clockwise fragment fails the stencil test.
    pub stencil_fail_operation_clockwise: StencilOperation,
    /// Operation when a clockwise fragment passes the stencil test but
    /// fails the depth test.
    pub stencil_pass_depth_fail_operation_clockwise: StencilOperation,
    /// Operation when a clockwise fragment passes both tests.
    pub stencil_depth_pass_operation_clockwise: StencilOperation,
    /// Stencil comparison for counter-clockwise faces, points and lines.
    pub stencil_test_counter_clockwise: StencilTest,
    /// Reference value for the counter-clockwise stencil test and
    /// operations.
    pub stencil_reference_value_counter_clockwise: i32,
    /// Write mask for counter-clockwise stencil writes.
    pub stencil_write_mask_counter_clockwise: u32,
    /// Operation when a counter-clockwise fragment fails the stencil test.
    pub stencil_fail_operation_counter_clockwise: StencilOperation,
    /// Operation when a counter-clockwise fragment passes the stencil
    /// test but fails the depth test.
    pub stencil_pass_depth_fail_operation_counter_clockwise: StencilOperation,
    /// Operation when a counter-clockwise fragment passes both tests.
    pub stencil_depth_pass_operation_counter_clockwise: StencilOperation,
    /// How written pixels merge with existing ones.
    pub blend: Blend,
    /// Which color channels are written.
    pub color_mask: ColorMask,
    /// Width of drawn lines, fixed-point; `None` means "don't care".
    pub line_width: Option<Fixed>,
    /// Diameter of drawn points, fixed-point; `None` means "don't care".
    pub point_size: Option<Fixed>,
    /// Which faces the device filters out.
    pub backface_culling: BackfaceCullingMode,
    /// How polygons are rasterized.
    pub polygon_mode: PolygonMode,
    /// Whether multisample antialiasing is used.
    pub multisampling: bool,
    /// Whether dithering is active.
    pub dithering: bool,
    /// The viewport to draw into; `None` means the whole surface.
    pub viewport: Option<Rect>,
    /// If set, only pixels inside this rectangle are written.
    pub scissor: Option<Rect>,
    /// If false, the pipeline stops after primitive generation.
    pub draw_primitives: bool,
    /// The samples query the draw counts into, if any.
    pub samples_passed_query: Option<SamplesQueryParam>,
    /// The query accumulating the device time this draw takes, if any.
    pub time_elapsed_query: Option<u64>,
    /// The query counting generated primitives, if any.
    pub primitives_generated_query: Option<u64>,
    /// The query counting primitives written by transform feedback, if any.
    pub transform_feedback_primitives_written_query: Option<u64>,
    /// A query-gated condition for executing the draw, if any.
    pub condition: Option<ConditionalRendering>,
    /// The transform-feedback session generated primitives are written
    /// into, if any, by its handle.
    pub transform_feedback: Option<u32>,
    /// If set, generated primitives are smoothed with this quality.
    pub smooth: Option<Smooth>,
    /// Which vertex supplies flat-shaded outputs.
    pub provoking_vertex: ProvokingVertex,
    /// The bounding-box hint for the drawn geometry.
    pub primitive_bounding_box: BoundingBox,
}

/// The default parameters: a no-op configuration in every dimension.
pub open spec fn spec_default_parameters() -> DrawParameters {
    DrawParameters {
        depth_test: DepthTest::Overwrite,
        depth_write: false,
        depth_range: DepthRange { near: 0, far: FIXED_ONE as Fixed },
        depth_clamp: DepthClamp::NoClamp,
        stencil_test_clockwise: StencilTest::AlwaysPass,
        stencil_reference_value_clockwise: 0,
        stencil_write_mask_clockwise: 0xffffffff,
        stencil_fail_operation_clockwise: StencilOperation::Keep,
        stencil_pass_depth_fail_operation_clockwise: StencilOperation::Keep,
        stencil_depth_pass_operation_clockwise: StencilOperation::Keep,
        stencil_test_counter_clockwise: StencilTest::AlwaysPass,
        stencil_reference_value_counter_clockwise: 0,
        stencil_write_mask_counter_clockwise: 0xffffffff,
        stencil_fail_operation_counter_clockwise: StencilOperation::Keep,
        stencil_pass_depth_fail_operation_counter_clockwise: StencilOperation::Keep,
        stencil_depth_pass_operation_counter_clockwise: StencilOperation::Keep,
        blend: Blend {
            color: BlendingFunction::AlwaysReplace,
            alpha: BlendingFunction::AlwaysReplace,
            constant_value: BlendConstant {
                r: FIXED_ONE as Fixed,
                g: FIXED_ONE as Fixed,
                b: FIXED_ONE as Fixed,
                a: FIXED_ONE as Fixed,
            },
        },
        color_mask: ColorMask { r: true, g: true, b: true, a: true },
        line_width: None,
        point_size: None,
        backface_culling: BackfaceCullingMode::CullingDisabled,
        polygon_mode: PolygonMode::Fill,
        multisampling: true,
        dithering: true,
        viewport: None,
        scissor: None,
        draw_primitives: true,
        samples_passed_query: None,
        time_elapsed_query: None,
        primitives_generated_query: None,
        transform_feedback_primitives_written_query: None,
        condition: None,
        transform_feedback: None,
        smooth: None,
        provoking_vertex: ProvokingVertex::LastVertex,
        primitive_bounding_box: BoundingBox {
            x_start: ((-FIXED_ONE) as Fixed),
            x_end: FIXED_ONE as Fixed,
            y_start: ((-FIXED_ONE) as Fixed),
            y_end: FIXED_ONE as Fixed,
            z_start: ((-FIXED_ONE) as Fixed),
            z_end: FIXED_ONE as Fixed,
            w_start: ((-FIXED_ONE) as Fixed),
            w_end: FIXED_ONE as Fixed,
        },
    }
}

impl Default for DrawParameters {
    /// The no-op configuration.
    fn default() -> (r: DrawParameters)
        ensures
            r == spec_default_parameters(),
    {
        DrawParameters {
            depth_test: DepthTest::Overwrite,
            depth_write: false,
            depth_range: DepthRange { near: 0, far: FIXED_ONE },
            depth_clamp: DepthClamp::NoClamp,
            stencil_test_clockwise: StencilTest::AlwaysPass,
            stencil_reference_value_clockwise: 0,
            stencil_write_mask_clockwise: 0xffffffff,
            stencil_fail_operation_clockwise: StencilOperation::Keep,
            stencil_pass_depth_fail_operation_clockwise: StencilOperation::Keep,
            stencil_depth_pass_operation_clockwise: StencilOperation::Keep,
            stencil_test_counter_clockwise: StencilTest::AlwaysPass,
            stencil_reference_value_counter_clockwise: 0,
            stencil_write_mask_counter_clockwise: 0xffffffff,
            stencil_fail_operation_counter_clockwise: StencilOperation::Keep,
            stencil_pass_depth_fail_operation_counter_clockwise: StencilOperation::Keep,
            stencil_depth_pass_operation_counter_clockwise: StencilOperation::Keep,
            blend: Blend {
                color: BlendingFunction::AlwaysReplace,
                alpha: BlendingFunction::AlwaysReplace,
                constant_value: BlendConstant {
                    r: FIXED_ONE,
                    g: FIXED_ONE,
                    b: FIXED_ONE,
                    a: FIXED_ONE,
                },
            },
            color_mask: ColorMask { r: true, g: true, b: true, a: true },
            line_width: None,
            point_size: None,
            backface_culling: BackfaceCullingMode::CullingDisabled,
            polygon_mode: PolygonMode::Fill,
            multisampling: true,
            dithering: true,
            viewport: None,
            scissor: None,
            draw_primitives: true,
            samples_passed_query: None,
            time_elapsed_query: None,
            primitives_generated_query: None,
            transform_feedback_primitives_written_query: None,
            condition: None,
            transform_feedback: None,
            smooth: None,
            provoking_vertex: ProvokingVertex::LastVertex,
            primitive_bounding_box: BoundingBox {
                x_start: -FIXED_ONE,
                x_end: FIXED_ONE,
                y_start: -FIXED_ONE,
                y_end: FIXED_ONE,
                z_start: -FIXED_ONE,
                z_end: FIXED_ONE,
                w_start: -FIXED_ONE,
                w_end: FIXED_ONE,
            },
        }
    }
}

/// Whether both depth range bounds lie inside `[0, 1]`.
pub open spec fn depth_range_valid(p: DrawParameters) -> bool {
    &&& 0 <= p.depth_range.near <= FIXED_ONE
    &&& 0 <= p.depth_range.far <= FIXED_ONE
}

/// Whether the pre-flight check accepts disabling rasterization on this
/// device: either the desktop version is high enough, or the discard
/// extension is present, or the family is not the desktop one (the
/// embedded family is checked again at synchronization time).
pub open spec fn discard_passes_preflight(caps: Capabilities) -> bool {
    !version_lt(caps.version, Api::Gl, 3, 0) || caps.extensions.gl_ext_transform_feedback
}

/// The result of the pre-flight parameter check: the first violated rule,
/// or `None` when the parameters pass.
pub open spec fn spec_validate(caps: Capabilities, p: DrawParameters) -> Option<DrawError> {
    if !depth_range_valid(p) {
        Some(DrawError::InvalidDepthRange)
    } else if !p.draw_primitives && !discard_passes_preflight(caps) {
        Some(DrawError::RasterizerDiscardNotSupported)
    } else {
        None
    }
}

/// Checks the requested parameters against the device's capabilities
/// before any command is issued. Pure; returns the first violated rule.
pub fn validate(caps: &Capabilities, params: &DrawParameters) -> (r: Result<(), DrawError>)
    ensures
        r is Ok <==> spec_validate(*caps, *params) is None,
        r matches Err(e) ==> spec_validate(*caps, *params) == Some(e),
{
    if params.depth_range.near < 0 || params.depth_range.near > FIXED_ONE
        || params.depth_range.far < 0 || params.depth_range.far > FIXED_ONE {
        return Err(DrawError::InvalidDepthRange);
    }

    if !params.draw_primitives && caps.version.below(Api::Gl, 3, 0)
        && !caps.extensions.gl_ext_transform_feedback {
        return Err(DrawError::RasterizerDiscardNotSupported);
    }

    Ok(())
}

} // verus!
